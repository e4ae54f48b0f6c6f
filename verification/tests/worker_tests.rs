use dead_man_switch::state::PersistedState;
use dead_man_switch::timer::TimerType;
use dead_man_switch::worker::{DebouncedWriter, WriteDecision};

fn snap(last_modified: u64) -> PersistedState {
    PersistedState { mode: TimerType::Warning, last_modified }
}

#[test]
fn debounce_coalesces_a_burst_into_one_write() {
    let seed = snap(0);
    let mut w = DebouncedWriter::new(seed);
    w.enqueue(snap(1));
    w.enqueue(snap(2));
    w.enqueue(snap(3));
    // One window, three snapshots: a single write, of the last one.
    assert_eq!(w.take_due(), WriteDecision::Write(snap(3)));
    w.record_written(snap(3));
    // Nothing further is pending.
    assert_eq!(w.take_due(), WriteDecision::Skip);
}

#[test]
fn value_equal_snapshot_is_skipped() {
    let seed = snap(42);
    let mut w = DebouncedWriter::new(seed);
    w.enqueue(snap(42));
    assert_eq!(w.take_due(), WriteDecision::Skip);
}

#[test]
fn burst_ending_on_last_written_is_skipped() {
    let seed = snap(42);
    let mut w = DebouncedWriter::new(seed);
    w.enqueue(snap(7));
    w.enqueue(snap(42));
    assert_eq!(w.take_due(), WriteDecision::Skip);
}

#[test]
fn failed_write_keeps_retrying_later_snapshots() {
    let mut w = DebouncedWriter::new(snap(0));
    w.enqueue(snap(5));
    assert_eq!(w.take_due(), WriteDecision::Write(snap(5)));
    // The write failed, so nothing is recorded; the same snapshot arriving
    // again must still be written.
    w.enqueue(snap(5));
    assert_eq!(w.take_due(), WriteDecision::Write(snap(5)));
}

#[test]
fn empty_window_skips() {
    let mut w = DebouncedWriter::new(snap(9));
    assert_eq!(w.take_due(), WriteDecision::Skip);
}
