use preamble::formatters::{common_path_prefix, duration_cell, format_thou, format_track_duration, size_cell, total_size_text};

fn comps(parts: &[&str]) -> Vec<String> {
    parts.iter().map(|p| p.to_string()).collect()
}

#[test]
fn duration_is_minutes_and_padded_seconds() {
    assert_eq!(format_track_duration(Some(185_000)), Some("3:05".to_string()));
    assert_eq!(format_track_duration(Some(59_999)), Some("0:59".to_string()));
    assert_eq!(format_track_duration(Some(3_600_000)), Some("60:00".to_string()));
    assert_eq!(format_track_duration(Some(0)), Some("0:00".to_string()));
    assert_eq!(format_track_duration(None), None);
    assert_eq!(format_track_duration(Some(u32::MAX)), Some("71582:47".to_string()));
}

#[test]
fn duration_cell_shows_dash_when_unknown() {
    assert_eq!(duration_cell(None), "-");
    assert_eq!(duration_cell(Some(61_000)), "1:01");
}

#[test]
fn thousands_are_separated_by_commas() {
    assert_eq!(format_thou(0), "0");
    assert_eq!(format_thou(999), "999");
    assert_eq!(format_thou(1000), "1,000");
    assert_eq!(format_thou(1_234_567), "1,234,567");
    assert_eq!(format_thou(u32::MAX), "4,294,967,295");
}

#[test]
fn thousands_without_commas_is_the_decimal() {
    for n in [0u32, 7, 12, 123, 1234, 99_999, 100_000, 4_000_000_000] {
        assert_eq!(format_thou(n).replace(',', ""), n.to_string());
    }
}

#[test]
fn common_prefix_of_paths() {
    let paths = vec![comps(&["/", "music", "a", "x.flac"]), comps(&["/", "music", "b", "y.flac"])];
    assert_eq!(common_path_prefix(&paths), comps(&["/", "music"]));
    let one = vec![comps(&["/", "music", "a"])];
    assert_eq!(common_path_prefix(&one), comps(&["/", "music", "a"]));
    let none: Vec<Vec<String>> = Vec::new();
    assert!(common_path_prefix(&none).is_empty());
    let disjoint = vec![comps(&["a", "b"]), comps(&["c"])];
    assert!(common_path_prefix(&disjoint).is_empty());
    let shorter = vec![comps(&["/", "music", "a"]), comps(&["/", "music"])];
    assert_eq!(common_path_prefix(&shorter), comps(&["/", "music"]));
}

#[test]
fn sizes_are_human_readable() {
    assert_eq!(size_cell(None), "-");
    assert_eq!(size_cell(Some(999)), "999 B");
    assert_eq!(size_cell(Some(1_500_000)), "1.50 MB");
    assert_eq!(total_size_text(-5), "0 B");
    assert_eq!(total_size_text(12), "12 B");
}
