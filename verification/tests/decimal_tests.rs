use linux_practice::decimal::{
    format_i32, parse_u32, parse_u32_args, parse_unsigned, parse_usize, parse_usize_args,
};

fn args(words: &[&str]) -> Vec<Vec<u8>> {
    words.iter().map(|w| w.as_bytes().to_vec()).collect()
}

#[test]
fn parse_u32_accepts_what_std_accepts() {
    for s in ["0", "42", "+7", "007", "4294967295", "4294967296", "", "+", "-", "-1", "12a", " 1", "1 ", "++1", "+-1"] {
        assert_eq!(parse_u32(s.as_bytes()), s.parse::<u32>().ok(), "{:?}", s);
    }
}

#[test]
fn parse_usize_accepts_what_std_accepts() {
    for s in ["0", "18446744073709551615", "18446744073709551616", "+1024", "x"] {
        assert_eq!(parse_usize(s.as_bytes()), s.parse::<usize>().ok(), "{:?}", s);
    }
}

#[test]
fn parse_unsigned_bounds() {
    assert_eq!(parse_unsigned(b"255", 255), Some(255));
    assert_eq!(parse_unsigned(b"256", 255), None);
    assert_eq!(parse_unsigned(b"99999999999999999999", u64::MAX), None);
}

#[test]
fn args_keep_numbers_in_order() {
    assert_eq!(parse_u32_args(&args(&["./sched", "3", "x", "100", "10"])), vec![3, 100, 10]);
    assert_eq!(parse_u32_args(&args(&[])), Vec::<u32>::new());
    assert_eq!(parse_usize_args(&args(&["cache", "64", "-3"])), vec![64]);
}

#[test]
fn format_matches_display() {
    for n in [0, 7, 10, 12345, -1, -45, i32::MAX, i32::MIN] {
        assert_eq!(format_i32(n), n.to_string().into_bytes());
    }
}

#[test]
fn format_then_parse_round_trips() {
    for n in [0, 9, 10, 1000, 2147483647] {
        assert_eq!(parse_u32(&format_i32(n)), Some(n as u32));
    }
}
