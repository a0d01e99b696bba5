use ai_vid_editor::display::{format_duration, format_file_size, truncate_path};

fn reference_size(bytes: u64) -> String {
    const KB: u64 = 1024;
    const MB: u64 = KB * 1024;
    const GB: u64 = MB * 1024;
    if bytes >= GB {
        format!("{:.1} GB", bytes as f64 / GB as f64)
    } else if bytes >= MB {
        format!("{:.0} MB", bytes as f64 / MB as f64)
    } else if bytes >= KB {
        format!("{:.0} KB", bytes as f64 / KB as f64)
    } else {
        format!("{} B", bytes)
    }
}

#[test]
fn file_sizes_by_unit() {
    assert_eq!(format_file_size(0), "0 B");
    assert_eq!(format_file_size(1023), "1023 B");
    assert_eq!(format_file_size(1024), "1 KB");
    assert_eq!(format_file_size(1536), "2 KB");
    assert_eq!(format_file_size(2560), "2 KB");
    assert_eq!(format_file_size(1048576), "1 MB");
    assert_eq!(format_file_size(1073741824), "1.0 GB");
    assert_eq!(format_file_size(1610612736), "1.5 GB");
}

#[test]
fn file_sizes_agree_with_float_formatting() {
    let mut samples: Vec<u64> = vec![
        0,
        1,
        1023,
        1024,
        1025,
        1535,
        1536,
        2559,
        2560,
        3584,
        1048575,
        1048576,
        1572864,
        2621440,
        1073741823,
        1073741824,
        1127428915,
        1181116006,
        1288490188,
        1342177280,
        u64::MAX,
        u64::MAX - 1,
        (1 << 53) + 1,
        (1 << 60) + 12345,
    ];
    // ties and near-ties around each unit's half steps
    for unit in [1024u64, 1 << 20] {
        for k in 1..40u64 {
            let half = k * unit + unit / 2;
            samples.extend([half - 1, half, half + 1]);
        }
    }
    let gb = 1u64 << 30;
    for k in 10..400u64 {
        let tenth_half = k * gb / 10 + gb / 20;
        samples.extend([tenth_half - 1, tenth_half, tenth_half + 1]);
    }
    let mut x: u64 = 0x9e3779b97f4a7c15;
    for _ in 0..2000 {
        x ^= x << 13;
        x ^= x >> 7;
        x ^= x << 17;
        samples.push(x >> (x % 64));
    }
    for b in samples {
        assert_eq!(format_file_size(b), reference_size(b), "bytes {b}");
    }
}

#[test]
fn durations() {
    assert_eq!(format_duration(0), "0s");
    assert_eq!(format_duration(59), "59s");
    assert_eq!(format_duration(60), "1m 0s");
    assert_eq!(format_duration(3725), "62m 5s");
}

#[test]
fn paths_shortened_in_the_middle() {
    assert_eq!(truncate_path("short/path", 20), "short/path");
    let p = "/home/user/videos/project/raw/clip_0001.mp4";
    let want = format!("{}...{}", &p[..20 / 2 - 2], &p[p.len() - 20 / 2 + 2..]);
    assert_eq!(truncate_path(p, 20), want);
    assert_eq!(truncate_path(p, 20), "/home/us...0001.mp4");
    assert_eq!(truncate_path("abcdef", 4), "...");
    assert_eq!(truncate_path("abcdefghij", 8), "ab...ij");
}
