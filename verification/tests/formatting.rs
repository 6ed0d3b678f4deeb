use tmmx::app::Panel;
use tmmx::event::EventReader;
use tmmx::text::days_to_ymd;
use tmmx::text::format_relative_time;
use tmmx::text::shorten_path;
use tmmx::text::simplify_layout;
use tmmx::text::u64_to_string;

#[test]
fn decimal_rendering() {
    assert_eq!(u64_to_string(0), "0");
    assert_eq!(u64_to_string(7), "7");
    assert_eq!(u64_to_string(42), "42");
    assert_eq!(u64_to_string(1234567890), "1234567890");
    assert_eq!(u64_to_string(u64::MAX), "18446744073709551615");
}

#[test]
fn relative_time_buckets() {
    let now = 1_700_000_000;
    assert_eq!(format_relative_time(0, now), "unknown");
    assert_eq!(format_relative_time(now + 50, now), "just now");
    assert_eq!(format_relative_time(now - 30, now), "30s ago");
    assert_eq!(format_relative_time(now - 59, now), "59s ago");
    assert_eq!(format_relative_time(now - 120, now), "2m ago");
    assert_eq!(format_relative_time(now - 7200, now), "2h ago");
    assert_eq!(format_relative_time(now - 2 * 86400, now), "2d ago");
}

#[test]
fn old_timestamps_format_as_absolute_dates() {
    // 2023-11-14 22:13:20 UTC, more than a week before `now`.
    let ts = 1_700_000_000;
    let now = ts + 30 * 86400;
    assert_eq!(format_relative_time(ts, now), "Nov 14 2023 22:13");
    // Minutes and hours are zero-padded to two digits.
    // 2024-01-01 00:05:00 UTC.
    let ts = 1_704_067_500;
    let now = ts + 8 * 86400;
    assert_eq!(format_relative_time(ts, now), "Jan 1 2024 00:05");
}

#[test]
fn civil_dates_from_day_counts() {
    assert_eq!(days_to_ymd(0), (1970, 1, 1));
    assert_eq!(days_to_ymd(19723), (2024, 1, 1));
    // A leap day.
    assert_eq!(days_to_ymd(19782), (2024, 2, 29));
    assert_eq!(days_to_ymd(365), (1971, 1, 1));
}

#[test]
fn layout_descriptor_reduces_to_dimensions() {
    assert_eq!(simplify_layout("ab12,80x24,0,0,0"), "80x24");
    assert_eq!(simplify_layout("80x24"), "80x24");
    assert_eq!(simplify_layout("ab12,80x24"), "ab12,80x24");
    assert_eq!(simplify_layout(""), "");
}

#[test]
fn home_prefix_abbreviates_to_tilde() {
    assert_eq!(shorten_path("/home/kim/src", Some("/home/kim")), "~/src");
    assert_eq!(shorten_path("/home/kim", Some("/home/kim")), "~");
    assert_eq!(shorten_path("/var/log", Some("/home/kim")), "/var/log");
    assert_eq!(shorten_path("/var/log", None), "/var/log");
}

#[test]
fn panel_ring_cycles_in_order() {
    assert_eq!(Panel::Sessions.next(), Panel::Windows);
    assert_eq!(Panel::Windows.next(), Panel::Panes);
    assert_eq!(Panel::Panes.next(), Panel::Preview);
    assert_eq!(Panel::Preview.next(), Panel::Sessions);
    assert_eq!(Panel::Sessions.prev(), Panel::Preview);
    assert_eq!(Panel::Preview.prev(), Panel::Panes);
    for i in 0..8 {
        let p = Panel::from_index(i);
        assert_eq!(p.index(), i % 4);
        assert_eq!(Panel::from_index(p.index() + 1), p.next());
    }
    assert_eq!(Panel::Sessions.label(), "Sessions");
    assert_eq!(Panel::Preview.label(), "Preview");
}

#[test]
fn event_reader_bounds_the_wait_and_fires_ticks() {
    let mut reader = EventReader::new(250, 1000);
    assert_eq!(reader.poll_timeout_ms(1000), 250);
    assert_eq!(reader.poll_timeout_ms(1100), 150);
    assert_eq!(reader.poll_timeout_ms(1250), 0);
    assert_eq!(reader.poll_timeout_ms(2000), 0);
    // Not yet due: the tick clock is untouched.
    assert!(!reader.note_idle(1100));
    assert_eq!(reader.last_tick_ms, 1000);
    // Due: the tick fires and the interval restarts.
    assert!(reader.note_idle(1300));
    assert_eq!(reader.last_tick_ms, 1300);
    assert_eq!(reader.poll_timeout_ms(1400), 150);
}
