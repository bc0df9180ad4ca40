use memo::sm2::schedule;

#[test]
fn first_successful_review() {
    // repetitions 0, easiness factor 2.50, grade 5: one repetition,
    // factor raised to 2.60, one day until the next review.
    assert_eq!(schedule(0, 250, 5), Ok((1, 260, 1)));
}

#[test]
fn failed_recall_resets_repetitions() {
    // grade 1 on a mature item: count resets, interval back to one day,
    // factor reduced by 0.54 but still above the floor.
    let (reps, ef, interval) = schedule(3, 200, 1).unwrap();
    assert_eq!(reps, 0);
    assert_eq!(interval, 1);
    assert_eq!(ef, 146);
    assert!(ef >= 130);
}

#[test]
fn failed_recall_always_gives_one_day() {
    for q in 0..3u8 {
        let (reps, ef, interval) = schedule(7, 310, q).unwrap();
        assert_eq!(reps, 0);
        assert_eq!(interval, 1);
        assert!(ef >= 130);
    }
}

#[test]
fn efactor_never_falls_below_floor() {
    // grade 0 asks for a delta of -0.80; the floor holds at 1.30.
    let (_, ef, _) = schedule(2, 135, 0).unwrap();
    assert_eq!(ef, 130);
    let (_, ef, _) = schedule(0, 130, 0).unwrap();
    assert_eq!(ef, 130);
}

#[test]
fn grade_four_keeps_efactor() {
    assert_eq!(schedule(1, 200, 4), Ok((2, 200, 6)));
}

#[test]
fn grade_three_lowers_efactor() {
    assert_eq!(schedule(1, 200, 3), Ok((2, 186, 6)));
}

#[test]
fn interval_growth_follows_recurrence() {
    // second repetition: 6 days; later ones grow by the easiness factor
    // with rounding: 6 * 2.6 = 15.6 -> 16, 16 * 2.6 = 41.6 -> 42.
    assert_eq!(schedule(1, 250, 5), Ok((2, 260, 6)));
    assert_eq!(schedule(2, 250, 5), Ok((3, 260, 16)));
    assert_eq!(schedule(3, 250, 5), Ok((4, 260, 42)));
}

#[test]
fn grade_above_five_is_invalid() {
    assert!(schedule(0, 250, 6).is_err());
    assert!(schedule(3, 130, 255).is_err());
}

#[test]
fn identical_inputs_give_identical_outputs() {
    let a = schedule(4, 237, 5).unwrap();
    let b = schedule(4, 237, 5).unwrap();
    assert_eq!(a, b);
}
