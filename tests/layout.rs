use ipmog::layout::{centred_top, dot_count, gradient_cyan_magenta, loading_caption, reveal_count};

#[test]
fn reveal_grows_two_columns_per_frame() {
    assert_eq!(reveal_count(0, 45), 0);
    assert_eq!(reveal_count(3, 45), 6);
    assert_eq!(reveal_count(22, 45), 44);
    assert_eq!(reveal_count(23, 45), 45);
    assert_eq!(reveal_count(u64::MAX, 45), 45);
}

#[test]
fn dots_cycle_every_eight_frames() {
    assert_eq!(dot_count(0), 0);
    assert_eq!(dot_count(7), 0);
    assert_eq!(dot_count(8), 1);
    assert_eq!(dot_count(16), 2);
    assert_eq!(dot_count(31), 3);
    assert_eq!(dot_count(32), 0);
}

#[test]
fn caption_carries_the_dots() {
    assert_eq!(loading_caption(0), "Fetching your IP");
    assert_eq!(loading_caption(9), "Fetching your IP.");
    assert_eq!(loading_caption(17), "Fetching your IP..");
    assert_eq!(loading_caption(24), "Fetching your IP...");
    assert_eq!(loading_caption(32), "Fetching your IP");
}

#[test]
fn centred_top_halves_the_spare_rows() {
    assert_eq!(centred_top(20, 9), 5);
    assert_eq!(centred_top(9, 9), 0);
    assert_eq!(centred_top(4, 9), 0);
    assert_eq!(centred_top(u16::MAX, 0), u16::MAX / 2);
}

#[test]
fn gradient_runs_from_cyan_to_magenta() {
    assert_eq!(gradient_cyan_magenta(0, 45), (0, 255, 255));
    assert_eq!(gradient_cyan_magenta(45, 45), (255, 0, 255));
    assert_eq!(gradient_cyan_magenta(15, 45), (85, 170, 255));
    assert_eq!(gradient_cyan_magenta(1, 2), (127, 127, 255));
}
