//! Shell command lines that the experiments hand to the system shell to show
//! a process's memory use and memory map.

use vstd::prelude::*;
use vstd::slice::slice_to_vec;
use vstd::string::StringSliceAdditionalSpecFns;
use crate::decimal::{decimal_spec, i32_text, push_i32, is_digit, lemma_decimal_digits};
use vstd::utf8::{is_ascii_chars, is_ascii_chars_encode_utf8};

verus! {

/// `ps` restricted to the columns of memory use and page faults, filtered by
/// the process id that follows.
pub open spec fn ps_command_spec(pid: i32) -> Seq<u8> {
    "ps -o pid,comm,vsz,rss,min_flt,maj_flt | grep ".spec_bytes() + i32_text(pid)
}

/// The memory map of process `pid`, printed from procfs.
pub open spec fn maps_command_spec(pid: i32) -> Seq<u8> {
    "cat /proc/".spec_bytes() + i32_text(pid) + "/maps".spec_bytes()
}

/// The command line that shows the memory use and the page faults of process `pid`.
pub fn ps_command(pid: i32) -> (r: Vec<u8>)
    ensures
        r@ == ps_command_spec(pid),
{
    let mut out = slice_to_vec("ps -o pid,comm,vsz,rss,min_flt,maj_flt | grep ".as_bytes());
    push_i32(&mut out, pid);
    out
}

/// The command line that prints the memory map of process `pid`.
pub fn maps_command(pid: i32) -> (r: Vec<u8>)
    ensures
        r@ == maps_command_spec(pid),
{
    let mut out = slice_to_vec("cat /proc/".as_bytes());
    push_i32(&mut out, pid);
    let mut tail = slice_to_vec("/maps".as_bytes());
    out.append(&mut tail);
    out
}

/// The bytes of a string of ASCII characters other than NUL hold no zero.
proof fn lemma_ascii_text_has_no_nul(s: &str)
    requires
        forall|i: int| 0 <= i < s@.len() ==> '\u{1}' <= #[trigger] s@[i] <= '\u{7f}',
    ensures
        forall|i: int| 0 <= i < s.spec_bytes().len() ==> #[trigger] s.spec_bytes()[i] != 0,
{
    assert(is_ascii_chars(s@));
    is_ascii_chars_encode_utf8(s@);
    assert forall|i: int| 0 <= i < s.spec_bytes().len() implies #[trigger] s.spec_bytes()[i] != 0 by {
        assert(s@[i] as u8 == s.spec_bytes()[i]);
    }
}

/// The text of an `i32` holds no zero byte.
proof fn lemma_i32_text_has_no_nul(n: i32)
    ensures
        forall|i: int| 0 <= i < i32_text(n).len() ==> #[trigger] i32_text(n)[i] != 0,
{
    if n < 0 {
        lemma_decimal_digits((-n) as nat);
        let d = decimal_spec((-n) as nat);
        assert forall|i: int| 0 <= i < i32_text(n).len() implies #[trigger] i32_text(n)[i] != 0 by {
            if i > 0 {
                assert(i32_text(n)[i] == d[i - 1]);
                assert(is_digit(d[i - 1]));
            }
        }
    } else {
        lemma_decimal_digits(n as nat);
        assert forall|i: int| 0 <= i < i32_text(n).len() implies #[trigger] i32_text(n)[i] != 0 by {
            assert(is_digit(i32_text(n)[i]));
        }
    }
}

/// The command lines hold no zero byte, so each can be handed to the shell as
/// a C string whole.
pub proof fn law_commands_have_no_nul(pid: i32)
    ensures
        forall|i: int| 0 <= i < ps_command_spec(pid).len() ==> #[trigger] ps_command_spec(pid)[i] != 0,
        forall|i: int| 0 <= i < maps_command_spec(pid).len() ==> #[trigger] maps_command_spec(pid)[i] != 0,
{
    reveal_strlit("ps -o pid,comm,vsz,rss,min_flt,maj_flt | grep ");
    reveal_strlit("cat /proc/");
    reveal_strlit("/maps");
    lemma_ascii_text_has_no_nul("ps -o pid,comm,vsz,rss,min_flt,maj_flt | grep ");
    lemma_ascii_text_has_no_nul("cat /proc/");
    lemma_ascii_text_has_no_nul("/maps");
    lemma_i32_text_has_no_nul(pid);
    let p = "ps -o pid,comm,vsz,rss,min_flt,maj_flt | grep ".spec_bytes();
    let c = "cat /proc/".spec_bytes();
    let m = "/maps".spec_bytes();
    let t = i32_text(pid);
    assert forall|i: int| 0 <= i < ps_command_spec(pid).len() implies #[trigger] ps_command_spec(pid)[i] != 0 by {
        if i < p.len() {
            assert(ps_command_spec(pid)[i] == p[i]);
        } else {
            assert(ps_command_spec(pid)[i] == t[i - p.len()]);
        }
    }
    assert forall|i: int| 0 <= i < maps_command_spec(pid).len() implies #[trigger] maps_command_spec(pid)[i] != 0 by {
        if i < c.len() {
            assert(maps_command_spec(pid)[i] == c[i]);
        } else if i < c.len() + t.len() {
            assert(maps_command_spec(pid)[i] == t[i - c.len()]);
        } else {
            assert(maps_command_spec(pid)[i] == m[i - c.len() - t.len()]);
        }
    }
}

} // verus!
