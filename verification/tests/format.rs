use mdir::utils::format::{format_path, format_path_with_home, format_permissions, format_size};
use mdir::utils::format::{time_form, TimeForm};

#[test]
fn test_format_size_zero() {
    assert_eq!(format_size(0), "0B");
}

#[test]
fn test_format_size_bytes() {
    assert_eq!(format_size(512), "512B");
    assert_eq!(format_size(1), "1B");
}

#[test]
fn test_format_size_kilobytes() {
    assert_eq!(format_size(1024), "1.0KB");
    assert_eq!(format_size(1536), "1.5KB");
}

#[test]
fn test_format_size_megabytes() {
    assert_eq!(format_size(1_048_576), "1.0MB");
}

#[test]
fn test_format_size_gigabytes() {
    assert_eq!(format_size(1_073_741_824), "1.0GB");
}

#[test]
fn test_format_permissions() {
    assert_eq!(format_permissions(0o755, false, false), "-rwxr-xr-x");
    assert_eq!(format_permissions(0o644, false, false), "-rw-r--r--");
    assert_eq!(format_permissions(0o755, true, false), "drwxr-xr-x");
    assert_eq!(format_permissions(0o777, false, true), "lrwxrwxrwx");
}

#[test]
fn test_format_path_short() {
    assert_eq!(format_path("/tmp/test", 50), "/tmp/test");
}

/// The size text for one byte count, computed the way a float division
/// and `{:.1}` print it.
fn float_size_text(bytes: u64) -> String {
    let units = ["B", "KB", "MB", "GB", "TB"];
    let mut size = bytes as f64;
    let mut unit = 0usize;
    while size >= 1024.0 && unit < units.len() - 1 {
        size /= 1024.0;
        unit += 1;
    }
    if unit == 0 {
        format!("{}{}", bytes, units[0])
    } else {
        format!("{:.1}{}", size, units[unit])
    }
}

#[test]
fn format_size_rounds_ties_to_even() {
    assert_eq!(format_size(1280), "1.2KB");
    assert_eq!(format_size(1280 + 1024), "2.2KB");
    assert_eq!(format_size(1023), "1023B");
    assert_eq!(format_size(1024 * 1024 - 1), "1024.0KB");
}

#[test]
fn format_size_matches_float_printing() {
    let mut samples: Vec<u64> = vec![0, 1, 1023, 1024, 1025, 1126, 1127, 1177, 10 * 1024 - 1];
    let mut x: u64 = 1;
    while x < u64::MAX / 3 {
        samples.push(x);
        samples.push(x.wrapping_mul(3) / 2);
        samples.push(x + 51);
        x = x * 3 + 7;
    }
    samples.push(u64::MAX);
    samples.push(1u64 << 40);
    samples.push((1u64 << 50) + 12345);
    for b in samples {
        assert_eq!(format_size(b), float_size_text(b), "bytes = {}", b);
    }
}

#[test]
fn format_size_above_terabytes_stays_in_terabytes() {
    assert_eq!(format_size(1u64 << 40), "1.0TB");
    assert_eq!(format_size(1u64 << 50), "1024.0TB");
}

#[test]
fn format_permissions_setuid_bits_are_ignored() {
    assert_eq!(format_permissions(0o4755, false, false), "-rwxr-xr-x");
    assert_eq!(format_permissions(0o1000, false, false), "----------");
}

#[test]
fn format_permissions_without_bits_names_the_kind() {
    assert_eq!(format_permissions(0, false, false), "- ファイル");
    assert_eq!(format_permissions(0, true, false), "d フォルダ");
    assert_eq!(format_permissions(0, true, true), "l リンク");
}

#[test]
fn format_path_replaces_home_with_tilde() {
    let home = Some(String::from("/home/user"));
    assert_eq!(format_path_with_home("/home/user/projects", home.clone(), 50), "~/projects");
    assert_eq!(format_path_with_home("/home/user", home.clone(), 50), "~");
    assert_eq!(format_path_with_home("/home/username", home.clone(), 50), "/home/username");
    assert_eq!(format_path_with_home("/srv/data", home, 50), "/srv/data");
}

#[test]
fn format_path_shortens_long_paths() {
    assert_eq!(format_path_with_home("/a/very/long/path/to/somewhere", None, 10), ".../ewhere");
    assert_eq!(format_path_with_home("/a/very/long/path/to/x", None, 10), ".../h/to/x");
    assert_eq!(format_path_with_home("/abc/def", None, 3), "/ab");
    assert_eq!(format_path_with_home("/日本語/です", None, 3), "/日");
}

#[test]
fn modification_times_show_time_date_or_year() {
    assert_eq!(time_form(2024, 100, 2024, 100), TimeForm::Time);
    assert_eq!(time_form(2024, 99, 2024, 100), TimeForm::Date);
    assert_eq!(time_form(2023, 100, 2024, 100), TimeForm::Year);
}
