use video_sort::html::escape_html;
use video_sort::util::format_size;

#[test]
fn test_format_size() {
    assert_eq!(format_size(0), "0 B");
    assert_eq!(format_size(999), "999 B");
    assert_eq!(format_size(1000), "1.00 KB");
    assert_eq!(format_size(1024), "1.02 KB");
    assert_eq!(format_size(1_000_000), "1.00 MB");
    assert_eq!(format_size(1_500_000), "1.50 MB");
    assert_eq!(format_size(1_000_000_000), "1.00 GB");
    assert_eq!(format_size(1_000_000_000_000), "1.00 TB");
}

#[test]
fn format_size_rounds_to_the_nearest_hundredth() {
    assert_eq!(format_size(1_006), "1.01 KB");
    assert_eq!(format_size(1_004), "1.00 KB");
    assert_eq!(format_size(999_999), "1000.00 KB");
    assert_eq!(format_size(1_125), "1.12 KB");
    assert_eq!(format_size(1_375), "1.38 KB");
    assert_eq!(format_size(u64::MAX), "18446744.07 TB");
}

#[test]
fn escape_html_replaces_the_four_characters() {
    assert_eq!(escape_html("a<b>&\"c\""), "a&lt;b&gt;&amp;&quot;c&quot;");
    assert_eq!(escape_html("/plain/path"), "/plain/path");
    assert_eq!(escape_html(""), "");
    assert_eq!(escape_html("&amp;"), "&amp;amp;");
    assert_eq!(escape_html("héllo <ü>"), "héllo &lt;ü&gt;");
}

#[test]
fn format_size_agrees_with_floating_point_away_from_ties() {
    let units: [(u64, &str); 4] =
        [(1_000, "KB"), (1_000_000, "MB"), (1_000_000_000, "GB"), (1_000_000_000_000, "TB")];
    for (unit, name) in units {
        let step = (unit / 1_000).max(1) * 7 + 1;
        let mut size = unit;
        while size < unit * 1_000 && size < unit * 40 {
            let scaled = size as u128 * 100;
            let tie = (scaled % unit as u128) * 2 == unit as u128;
            if !tie {
                let expected = format!("{:.2} {name}", size as f64 / unit as f64);
                assert_eq!(format_size(size), expected, "{size}");
            }
            size += step;
        }
    }
    for size in 1_000..20_000u64 {
        if size % 10 != 5 {
            assert_eq!(format_size(size), format!("{:.2} KB", size as f64 / 1000.0), "{size}");
        }
    }
    for size in 0..1_000u64 {
        assert_eq!(format_size(size), format!("{size} B"));
    }
}
