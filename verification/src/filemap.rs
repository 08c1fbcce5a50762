//! The file-mapping experiment: reading the mapped file as a C string and
//! overwriting the start of the mapping.

use vstd::prelude::*;

verus! {

/// The length of the C string at the start of `bytes`: the index of the first
/// zero byte, or the whole length when there is none.
pub fn c_str_len(bytes: &[u8]) -> (r: usize)
    ensures
        r <= bytes@.len(),
        forall|i: int| 0 <= i < r ==> #[trigger] bytes@[i] != 0,
        r < bytes@.len() ==> bytes@[r as int] == 0,
{
    let mut i: usize = 0;
    while i < bytes.len()
        invariant
            i <= bytes@.len(),
            forall|k: int| 0 <= k < i ==> #[trigger] bytes@[k] != 0,
        decreases bytes@.len() - i,
    {
        if bytes[i] == 0 {
            return i;
        }
        i = i + 1;
    }
    i
}

/// Copies `data` over the start of `region`; the rest of `region` keeps its bytes.
pub fn overwrite_prefix(region: &mut [u8], data: &[u8])
    requires
        data@.len() <= old(region)@.len(),
    ensures
        final(region)@ == data@ + old(region)@.subrange(
            data@.len() as int,
            old(region)@.len() as int,
        ),
{
    let mut i: usize = 0;
    while i < data.len()
        invariant
            i <= data@.len(),
            data@.len() <= region@.len(),
            region@.len() == old(region)@.len(),
            forall|k: int| 0 <= k < i ==> #[trigger] region@[k] == data@[k],
            forall|k: int| i <= k < region@.len() ==> #[trigger] region@[k] == old(region)@[k],
        decreases data@.len() - i,
    {
        region[i] = data[i];
        i = i + 1;
    }
    assert(region@ =~= data@ + old(region)@.subrange(
        data@.len() as int,
        old(region)@.len() as int,
    ));
}

/// Overwriting the start of a C string with bytes that hold no zero, no more of
/// them than the string is long, leaves the string's length unchanged: the
/// text read before the write and the text read after it have the same extent.
pub proof fn law_overwrite_keeps_c_str_extent(s: Seq<u8>, data: Seq<u8>, n: int)
    requires
        0 <= n <= s.len(),
        forall|i: int| 0 <= i < n ==> #[trigger] s[i] != 0,
        n < s.len() ==> s[n] == 0,
        data.len() <= n,
        forall|i: int| 0 <= i < data.len() ==> #[trigger] data[i] != 0,
    ensures
        ({
            let t = data + s.subrange(data.len() as int, s.len() as int);
            &&& t.len() == s.len()
            &&& forall|i: int| 0 <= i < n ==> #[trigger] t[i] != 0
            &&& n < t.len() ==> t[n] == 0
        }),
{
    let t = data + s.subrange(data.len() as int, s.len() as int);
    assert forall|i: int| 0 <= i < n implies #[trigger] t[i] != 0 by {
        if i < data.len() {
            assert(t[i] == data[i]);
        } else {
            assert(t[i] == s[i]);
        }
    }
}

} // verus!
