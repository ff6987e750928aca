use system_monitor::gauge::{
    background_angles, compute_gauge, display_percent, fill_angles, percent_label, share_percent,
};

#[test]
fn background_is_thirty_segments_over_half_turn() {
    let b = background_angles();
    assert_eq!(b.len(), 31);
    assert_eq!(b[0], 300);
    assert_eq!(b[1], 310);
    assert_eq!(b[30], 600);
}

#[test]
fn zero_percent_is_a_single_point() {
    let g = compute_gauge(0);
    assert_eq!(g.fill, vec![300]);
    assert_eq!(g.label, "0%");
}

#[test]
fn full_gauge_matches_background() {
    let g = compute_gauge(100);
    assert_eq!(g.fill.len(), g.background.len());
    assert_eq!(g.fill[0], g.background[0]);
    assert_eq!(g.fill.last(), g.background.last());
    assert_eq!(g.fill, g.background);
    assert_eq!(g.label, "100%");
}

#[test]
fn half_gauge_spans_half_the_range() {
    let g = compute_gauge(50);
    assert_eq!(g.fill.len(), 16);
    let span = g.fill.last().unwrap() - g.fill[0];
    let full = g.background.last().unwrap() - g.background[0];
    assert_eq!(2 * span, full);
    assert_eq!(g.label, "50%");
}

#[test]
fn partial_last_step_ends_exactly() {
    // 37% ends at 300 + 111; steps of 10 give 12 segments, the last short.
    let f = fill_angles(37);
    assert_eq!(f.len(), 13);
    assert_eq!(f[11], 410);
    assert_eq!(f[12], 411);
}

#[test]
fn overshoot_extends_past_half_circle() {
    let f = fill_angles(150);
    assert_eq!(f.len(), 46);
    assert_eq!(*f.last().unwrap(), 750);
}

#[test]
fn label_has_no_decimals() {
    assert_eq!(percent_label(7), "7%");
    assert_eq!(percent_label(42), "42%");
    assert_eq!(percent_label(4294967295), "4294967295%");
}

#[test]
fn display_percent_rounds_and_caps() {
    assert_eq!(display_percent(0), 0);
    assert_eq!(display_percent(7449), 74);
    assert_eq!(display_percent(7450), 75);
    assert_eq!(display_percent(10049), 100);
    assert_eq!(display_percent(12000), 100);
    assert_eq!(display_percent(u32::MAX), 100);
}

#[test]
fn share_percent_rounds_caps_and_handles_no_total() {
    assert_eq!(share_percent(5, 0), 0);
    assert_eq!(share_percent(1, 3), 33);
    assert_eq!(share_percent(2, 3), 67);
    assert_eq!(share_percent(1, 2), 50);
    assert_eq!(share_percent(3, 2), 100);
    assert_eq!(share_percent(u64::MAX, u64::MAX), 100);
}
