use rumble_tools::files::{format_size, get_file_icon};

fn by_floats(bytes: u64) -> String {
    const KB: u64 = 1024;
    const MB: u64 = 1024 * KB;
    const GB: u64 = 1024 * MB;
    if bytes >= GB {
        format!("{:.1} GB", bytes as f64 / GB as f64)
    } else if bytes >= MB {
        format!("{:.1} MB", bytes as f64 / MB as f64)
    } else if bytes >= KB {
        format!("{:.1} KB", bytes as f64 / KB as f64)
    } else {
        format!("{} B", bytes)
    }
}

#[test]
fn sizes_in_words() {
    assert_eq!(format_size(0), "0 B");
    assert_eq!(format_size(1023), "1023 B");
    assert_eq!(format_size(1024), "1.0 KB");
    assert_eq!(format_size(1536), "1.5 KB");
    assert_eq!(format_size(1_048_575), "1024.0 KB");
    assert_eq!(format_size(10 * 1024 * 1024), "10.0 MB");
    assert_eq!(format_size(u64::MAX), "17179869184.0 GB");
}

#[test]
fn sizes_agree_with_floating_point() {
    let mut n: u64 = 1;
    for i in 0..20_000u64 {
        n = n.wrapping_mul(6364136223846793005).wrapping_add(1442695040888963407);
        let bytes = n >> (i % 64);
        assert_eq!(format_size(bytes), by_floats(bytes), "{bytes}");
    }
    for k in 0..4096u64 {
        let bytes = 1024 * 20 + k;
        assert_eq!(format_size(bytes), by_floats(bytes), "{bytes}");
        let huge = (1u64 << 53) + k * 53687091 + 1;
        assert_eq!(format_size(huge), by_floats(huge), "{huge}");
    }
}

#[test]
fn icons_by_kind() {
    assert_eq!(get_file_icon("image/png"), "🖼");
    assert_eq!(get_file_icon("audio/ogg"), "🎵");
    assert_eq!(get_file_icon("video/mp4"), "🎬");
    assert_eq!(get_file_icon("text/plain"), "📝");
    assert_eq!(get_file_icon("application/pdf"), "📕");
    assert_eq!(get_file_icon("application/zip"), "📦");
    assert_eq!(get_file_icon("application/x-tar"), "📦");
    assert_eq!(get_file_icon("application/msword"), "📄");
    assert_eq!(get_file_icon("application/vnd.ms-excel"), "📊");
    assert_eq!(get_file_icon("application/vnd.ms-powerpoint"), "📽");
    assert_eq!(get_file_icon("application/octet-stream"), "📁");
}
