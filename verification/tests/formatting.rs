use zeroidle::size_format::{fmt_bytes, format_bytes};

fn float_format_bytes(bytes: u64) -> String {
    const KB: u64 = 1024;
    const MB: u64 = KB * 1024;
    const GB: u64 = MB * 1024;
    if bytes >= GB {
        format!("{:.2} GB", bytes as f64 / GB as f64)
    } else if bytes >= MB {
        format!("{:.2} MB", bytes as f64 / MB as f64)
    } else if bytes >= KB {
        format!("{:.2} KB", bytes as f64 / KB as f64)
    } else {
        format!("{} B", bytes)
    }
}

fn float_fmt_bytes(n: u64) -> String {
    if n < 1024 {
        return format!("{n} B");
    }
    let kb = n as f64 / 1024.0;
    if kb < 1024.0 {
        return format!("{kb:.1} KiB");
    }
    let mb = kb / 1024.0;
    format!("{mb:.2} MiB")
}

fn samples() -> Vec<u64> {
    let mut v: Vec<u64> = (0..5000u64).collect();
    let mut x: u64 = 0x9e37_79b9_7f4a_7c15;
    for _ in 0..20000 {
        x ^= x << 13;
        x ^= x >> 7;
        x ^= x << 17;
        v.push(x);
        v.push(x >> (x % 64));
    }
    for k in 0..64u32 {
        let p = 1u64 << k;
        for d in [0u64, 1, 2, 3, 511, 512, 513, 1023, 1024, 1025] {
            v.push(p.wrapping_add(d));
            v.push(p.wrapping_sub(d));
        }
    }
    // exact ties at two decimals of KB, MB and GB
    for q in 0..2000u64 {
        v.push(q * 1024 / 8 + 1024);
        v.push((2 * q + 1) << 27);
        v.push(((2 * q + 1) << 17) + (1 << 20));
    }
    v.push(u64::MAX);
    v.push(u64::MAX - 1);
    v.push((1u64 << 53) + 1);
    v
}

#[test]
fn format_bytes_units() {
    assert_eq!(format_bytes(0), "0 B");
    assert_eq!(format_bytes(1023), "1023 B");
    assert_eq!(format_bytes(1024), "1.00 KB");
    assert_eq!(format_bytes(1536), "1.50 KB");
    assert_eq!(format_bytes(1048576), "1.00 MB");
    assert_eq!(format_bytes(5 * 1073741824 / 2), "2.50 GB");
    assert_eq!(format_bytes(1073741824), "1.00 GB");
}

#[test]
fn format_bytes_ties_go_to_even() {
    // 1152 / 1024 = 1.125 exactly; 1.125 prints as 1.12
    assert_eq!(format_bytes(1152), "1.12 KB");
    // 1.375 prints as 1.38
    assert_eq!(format_bytes(1408), "1.38 KB");
}

#[test]
fn format_bytes_matches_float_formatting() {
    for b in samples() {
        assert_eq!(format_bytes(b), float_format_bytes(b), "bytes = {}", b);
    }
}

#[test]
fn fmt_bytes_units() {
    assert_eq!(fmt_bytes(0), "0 B");
    assert_eq!(fmt_bytes(1023), "1023 B");
    assert_eq!(fmt_bytes(1024), "1.0 KiB");
    assert_eq!(fmt_bytes(1536), "1.5 KiB");
    assert_eq!(fmt_bytes(1048575), "1024.0 KiB");
    assert_eq!(fmt_bytes(1048576), "1.00 MiB");
    assert_eq!(fmt_bytes(3 * 1073741824), "3072.00 MiB");
}

#[test]
fn fmt_bytes_matches_float_formatting() {
    for b in samples() {
        assert_eq!(fmt_bytes(b), float_fmt_bytes(b), "n = {}", b);
    }
}
