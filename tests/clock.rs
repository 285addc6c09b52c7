use music_player::clock::{clock_label, gauge_label, recompute, Progress, RATIO_SCALE};

#[test]
fn nothing_playing_has_no_progress() {
    let p = recompute(None, 12_345);
    assert_eq!(p, Progress { cur_time: 0, tot_time: 0, ratio: 0 });
}

#[test]
fn zero_length_track_ratio_is_zero() {
    assert_eq!(recompute(Some(0), 0).ratio, 0);
    assert_eq!(recompute(Some(0), 99_000).ratio, 0);
}

#[test]
fn ratio_is_share_played() {
    let p = recompute(Some(200_000), 50_000);
    assert_eq!(p, Progress { cur_time: 50_000, tot_time: 200_000, ratio: 250_000 });
    assert_eq!(recompute(Some(3), 1).ratio, 333_333);
}

#[test]
fn position_past_end_counts_as_end() {
    let p = recompute(Some(180_000), 181_500);
    assert_eq!(p.cur_time, 180_000);
    assert_eq!(p.ratio, RATIO_SCALE);
}

#[test]
fn ratio_stays_in_range() {
    for total in [1u64, 7, 1_000, 180_000, u64::MAX] {
        for position in [0u64, 1, 500, 180_000, u64::MAX] {
            let p = recompute(Some(total), position);
            assert!(p.ratio <= RATIO_SCALE);
            assert!(p.cur_time <= p.tot_time);
        }
    }
    assert_eq!(recompute(Some(u64::MAX), u64::MAX).ratio, RATIO_SCALE);
}

#[test]
fn clock_label_shows_minutes_and_seconds() {
    assert_eq!(clock_label(0), "00:00");
    assert_eq!(clock_label(65_999), "01:05");
    assert_eq!(clock_label(600_000), "10:00");
    assert_eq!(clock_label(6_000_000), "100:00");
    assert_eq!(clock_label(59_000), "00:59");
}

#[test]
fn gauge_label_shows_played_and_total() {
    let p = recompute(Some(200_000), 65_000);
    assert_eq!(gauge_label(&p), "01:05/03:20");
}
