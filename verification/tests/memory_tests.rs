use linux_practice::cache::{
    cache_buffer_size, cache_rounds, measure_stride_writes, touch_stride, touch_stride_rounds,
    CacheArgError, CACHE_LINE_SIZE, NLOOP,
};
use linux_practice::command::{maps_command, ps_command};
use linux_practice::filemap::{c_str_len, overwrite_prefix};
use linux_practice::paging::{touch_offsets, touched_report, MIB, PAGE_SIZE};

#[test]
fn offsets_cover_the_buffer() {
    assert_eq!(touch_offsets(10, 4), vec![0, 4, 8]);
    assert_eq!(touch_offsets(8, 4), vec![0, 4]);
    assert_eq!(touch_offsets(0, 4), Vec::<usize>::new());
    assert_eq!(touch_offsets(1, 4096), vec![0]);
    let pages = touch_offsets(100 * MIB, PAGE_SIZE);
    assert_eq!(pages.len(), 25600);
    assert_eq!(pages[25599], 100 * MIB - PAGE_SIZE);
    assert_eq!(touch_offsets(usize::MAX, usize::MAX), vec![0]);
}

#[test]
fn demand_paging_reports_every_tenth() {
    let total = 100 * MIB;
    assert_eq!(touched_report(0, total, 10), None);
    assert_eq!(touched_report(10 * MIB, total, 10), Some(10));
    assert_eq!(touched_report(10 * MIB + PAGE_SIZE, total, 10), None);
    assert_eq!(touched_report(90 * MIB, total, 10), Some(90));
    let reports: Vec<usize> = touch_offsets(total, PAGE_SIZE)
        .into_iter()
        .filter_map(|off| touched_report(off, total, 10))
        .collect();
    assert_eq!(reports, vec![10, 20, 30, 40, 50, 60, 70, 80, 90]);
}

#[test]
fn cache_arguments() {
    assert_eq!(cache_buffer_size(&vec![4]), Ok(4096));
    assert_eq!(cache_buffer_size(&vec![]), Err(CacheArgError::Usage));
    assert_eq!(cache_buffer_size(&vec![1, 2]), Err(CacheArgError::Usage));
    assert_eq!(cache_buffer_size(&vec![0]), Err(CacheArgError::ZeroSize));
}

#[test]
fn cache_round_counts() {
    assert_eq!(NLOOP, 1u64 << 32);
    assert_eq!(cache_rounds(4096), 67_108_864);
    assert_eq!(cache_rounds(CACHE_LINE_SIZE), NLOOP);
    assert_eq!(cache_rounds(1024 * 1024), 262_144);
    assert_eq!(cache_rounds(3 * 1024), NLOOP / 48);
}

#[test]
fn stride_writes_zero_each_line() {
    let mut buf = vec![0xffu8; 10];
    touch_stride(&mut buf, 4);
    assert_eq!(buf, vec![0, 0xff, 0xff, 0xff, 0, 0xff, 0xff, 0xff, 0, 0xff]);
    let once = buf.clone();
    touch_stride(&mut buf, 4);
    assert_eq!(buf, once);
    let mut empty: Vec<u8> = vec![];
    touch_stride(&mut empty, 64);
    assert!(empty.is_empty());
}

#[test]
fn stride_rounds() {
    let mut buf = vec![1u8; 130];
    touch_stride_rounds(&mut buf, CACHE_LINE_SIZE, 0);
    assert_eq!(buf, vec![1u8; 130]);
    touch_stride_rounds(&mut buf, CACHE_LINE_SIZE, 3);
    for (i, b) in buf.iter().enumerate() {
        assert_eq!(*b, if i % 64 == 0 { 0 } else { 1 });
    }
}

#[test]
fn measured_sweep() {
    let mut buf = vec![1u8; 4096];
    let r = measure_stride_writes(&mut buf, CACHE_LINE_SIZE, 10);
    assert!(r.is_some());
    assert_eq!(buf[64], 0);
    assert_eq!(buf[65], 1);
}

#[test]
fn shell_commands() {
    assert_eq!(ps_command(1234), b"ps -o pid,comm,vsz,rss,min_flt,maj_flt | grep 1234".to_vec());
    assert_eq!(maps_command(77), b"cat /proc/77/maps".to_vec());
    assert_eq!(maps_command(-3), b"cat /proc/-3/maps".to_vec());
}

#[test]
fn c_string_extent() {
    assert_eq!(c_str_len(b"hello\0world"), 5);
    assert_eq!(c_str_len(b"\0"), 0);
    assert_eq!(c_str_len(b"abc"), 3);
    assert_eq!(c_str_len(b""), 0);
}

#[test]
fn overwrite_mapped_file() {
    let mut region = b"hello world\n\0\0\0".to_vec();
    let n = c_str_len(&region);
    overwrite_prefix(&mut region, b"HELLO");
    assert_eq!(&region[..n], b"HELLO world\n");
    assert_eq!(c_str_len(&region), n);
    let mut short = b"hi\n\0\0\0\0\0".to_vec();
    let m = c_str_len(&short);
    overwrite_prefix(&mut short, b"HELLO");
    assert_eq!(&short[..m], b"HEL");
}
