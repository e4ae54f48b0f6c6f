use dead_man_switch::clock::{epoch_now, wall_elapsed};

#[test]
fn wall_elapsed_subtracts_the_checkpoint() {
    assert_eq!(wall_elapsed(100, 50), 50);
    assert_eq!(wall_elapsed(100, 100), 0);
}

#[test]
fn wall_elapsed_clamps_future_checkpoints_to_zero() {
    // A checkpoint in the future must never read as negative elapsed time.
    assert_eq!(wall_elapsed(100, 200), 0);
    assert_eq!(wall_elapsed(0, u64::MAX), 0);
}

#[test]
fn epoch_now_succeeds_on_a_sane_clock() {
    let now = epoch_now().unwrap();
    // After 2020-01-01 and within this century.
    assert!(now > 1_577_836_800);
    assert!(now < 4_102_444_800);
}
