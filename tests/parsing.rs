use zfs_space_visualizer::zfs::{
    format_bytes, parse_dataset_line, parse_dataset_listing, parse_pool_line, parse_pool_listing,
    parse_snapshot_line, parse_snapshot_listing, parse_u64, parse_usable_size, Pool,
};

#[test]
fn parse_u64_reads_plain_numbers() {
    assert_eq!(parse_u64("123"), 123);
    assert_eq!(parse_u64("0"), 0);
    assert_eq!(parse_u64("+5"), 5);
    assert_eq!(parse_u64("18446744073709551615"), u64::MAX);
}

#[test]
fn parse_u64_defaults_to_zero() {
    assert_eq!(parse_u64(""), 0);
    assert_eq!(parse_u64("abc"), 0);
    assert_eq!(parse_u64("-1"), 0);
    assert_eq!(parse_u64("+"), 0);
    assert_eq!(parse_u64("12a"), 0);
    assert_eq!(parse_u64("18446744073709551616"), 0);
    assert_eq!(parse_u64("1.5"), 0);
}

#[test]
fn dataset_line_with_all_fields() {
    let d = parse_dataset_line("tank/home\t100\t200\t300\t400").unwrap();
    assert_eq!(d.name, "tank/home");
    assert_eq!(d.used, 100);
    assert_eq!(d.available, 200);
    assert_eq!(d.referenced, 300);
    assert_eq!(d.snapshot_used, 400);
}

#[test]
fn dataset_line_with_bad_number_reads_zero() {
    let d = parse_dataset_line("tank\tx\t2\t3\t4\textra").unwrap();
    assert_eq!(d.used, 0);
    assert_eq!(d.available, 2);
}

#[test]
fn dataset_line_with_too_few_fields_is_skipped() {
    assert!(parse_dataset_line("tank\t1\t2\t3").is_none());
    assert!(parse_dataset_line("").is_none());
}

#[test]
fn snapshot_line_parses() {
    let s = parse_snapshot_line("tank/home@daily\t4096\t8192\t1700000000").unwrap();
    assert_eq!(s.name, "tank/home@daily");
    assert_eq!(s.used, 4096);
    assert_eq!(s.referenced, 8192);
    assert_eq!(s.creation, "1700000000");
    assert!(parse_snapshot_line("tank@a\t1\t2").is_none());
}

#[test]
fn pool_line_parses_health_from_tenth_field() {
    let line = "tank\t10995116277760\t3298534883328\t7696581394432\t-\t-\t5\t30\t1.00\tONLINE\t-";
    let p = parse_pool_line(line).unwrap();
    assert_eq!(p.name, "tank");
    assert_eq!(p.size, 10995116277760);
    assert_eq!(p.allocated, 3298534883328);
    assert_eq!(p.free, 7696581394432);
    assert_eq!(p.health, "ONLINE");
    assert_eq!(p.usable_size, p.size);
    assert!(parse_pool_line("tank\t1\t2\t3\t4\t5\t6").is_none());
}

#[test]
fn pool_usable_size_falls_back_to_size() {
    let mut p: Pool = parse_pool_line("t\t100\t10\t90\t-\t-\t0\t10\t1.00\tONLINE").unwrap();
    p.set_usable_size(None);
    assert_eq!(p.usable_size, 100);
    p.set_usable_size(Some(77));
    assert_eq!(p.usable_size, 77);
}

#[test]
fn usable_size_output_sums_used_and_available() {
    assert_eq!(parse_usable_size("100\t200\n"), Some(300));
    assert_eq!(parse_usable_size("100\t200\n5\t5\n"), Some(300));
    assert_eq!(parse_usable_size(""), None);
    assert_eq!(parse_usable_size("100\n"), None);
    assert_eq!(parse_usable_size("18446744073709551615\t1"), None);
}

#[test]
fn listing_drops_blank_and_short_lines() {
    let out = "a\t1\t2\t3\t4\n\n   \nbad line\r\nb\t5\t6\t7\t8\r\n\t\t\t\t\n";
    let ds = parse_dataset_listing(out);
    assert_eq!(ds.len(), 2);
    assert_eq!(ds[0].name, "a");
    assert_eq!(ds[0].snapshot_used, 4);
    assert_eq!(ds[1].name, "b");
    assert_eq!(ds[1].snapshot_used, 8);
}

#[test]
fn snapshot_listing_keeps_order() {
    let out = "d@1\t1\t2\tMon\nd@2\t3\t4\tTue\nd@3\t5\t6\n";
    let ss = parse_snapshot_listing(out);
    assert_eq!(ss.len(), 2);
    assert_eq!(ss[0].name, "d@1");
    assert_eq!(ss[1].creation, "Tue");
    assert!(parse_snapshot_listing("").is_empty());
}

#[test]
fn pool_listing_reads_each_pool() {
    let out = "a\t10\t5\t5\t-\t-\t0\t50\t1.00\tONLINE\t-\nb\t20\t5\t15\t-\t-\t0\t25\t1.00\tDEGRADED\t-\n";
    let ps = parse_pool_listing(out);
    assert_eq!(ps.len(), 2);
    assert_eq!(ps[1].name, "b");
    assert_eq!(ps[1].health, "DEGRADED");
}

#[test]
fn format_bytes_small_values() {
    assert_eq!(format_bytes(0), "0B");
    assert_eq!(format_bytes(512), "512B");
    assert_eq!(format_bytes(1023), "1023B");
}

#[test]
fn format_bytes_units() {
    assert_eq!(format_bytes(1024), "1.0K");
    assert_eq!(format_bytes(1536), "1.5K");
    assert_eq!(format_bytes(1048576), "1.0M");
    assert_eq!(format_bytes(3298534883328), "3.0T");
    assert_eq!(format_bytes(10995116277760), "10.0T");
    assert_eq!(format_bytes(1u64 << 50), "1.0P");
    assert_eq!(format_bytes(u64::MAX), "16384.0P");
}

fn float_format(bytes: u64) -> String {
    let units = ["B", "K", "M", "G", "T", "P"];
    let mut size = bytes as f64;
    let mut unit = 0;
    while size >= 1024.0 && unit < units.len() - 1 {
        size /= 1024.0;
        unit += 1;
    }
    if unit == 0 {
        format!("{:.0}{}", size, units[unit])
    } else {
        format!("{:.1}{}", size, units[unit])
    }
}

#[test]
fn format_bytes_agrees_with_float_formatting() {
    let samples: Vec<u64> = vec![
        1, 999, 1024, 1075, 1126, 1280, 1331, 1434, 2048, 10239, 10240, 123456, 1000000, 1048575,
        1048576, 5368709120, 5905580032, 858993459200, 1099511627776, 1_234_567_890_123,
    ];
    for b in samples {
        assert_eq!(format_bytes(b), float_format(b), "bytes {}", b);
    }
}
