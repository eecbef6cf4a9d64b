use pacwoman::render::human_size;

fn float_human_size(bytes: i64) -> String {
    let b = bytes as f64;
    if b < 1024.0 {
        format!("{b:.0} B")
    } else if b < 1024.0 * 1024.0 {
        format!("{:.1} KiB", b / 1024.0)
    } else if b < 1024.0 * 1024.0 * 1024.0 {
        format!("{:.2} MiB", b / (1024.0 * 1024.0))
    } else {
        format!("{:.2} GiB", b / (1024.0 * 1024.0 * 1024.0))
    }
}

#[test]
fn human_size_units() {
    assert_eq!(human_size(0), "0 B");
    assert_eq!(human_size(1023), "1023 B");
    assert_eq!(human_size(1024), "1.0 KiB");
    assert_eq!(human_size(1536), "1.5 KiB");
    assert_eq!(human_size(1048576), "1.00 MiB");
    assert_eq!(human_size(1073741824), "1.00 GiB");
    assert_eq!(human_size(-5), "-5 B");
}

#[test]
fn human_size_matches_float_formatting() {
    let mut samples: Vec<i64> = vec![
        0, 1, 512, 1023, 1024, 1025, 1075, 1076, 1126, 1127, 1177, 1178, 10239, 10240,
        1048575, 1048576, 1053818, 1053819, 5242880, 66274099, 1073741823, 1073741824,
        1078110044, 1078110045, 123456789012, 9007199254740993, i64::MAX, -1, -1024,
        i64::MIN, -9007199254740993,
    ];
    let mut x: i64 = 1;
    while x < i64::MAX / 3 {
        samples.push(x);
        samples.push(x + 1);
        samples.push(x - 1);
        samples.push(x * 5 / 2);
        x = x * 3 + 7;
    }
    // exact ties in the decimal expansion
    for k in 0..2000i64 {
        samples.push(1024 + k * 51);
        samples.push(1024 * 1024 + k * 5243);
        samples.push(1024 * 1024 * 1024 + k * 5368709);
    }
    for b in samples {
        assert_eq!(human_size(b), float_human_size(b), "bytes = {}", b);
    }
}

#[test]
fn human_size_same_in_callbacks() {
    assert_eq!(pacwoman::callbacks::human_size(2048), "2.0 KiB");
}
