use dead_man_switch::state::{encode, load_state, parse, LoadOutcome, PersistedState};
use dead_man_switch::timer::TimerType;

#[test]
fn encode_is_canonical_key_value_text() {
    let s = PersistedState { mode: TimerType::Warning, last_modified: 12345 };
    let bytes = encode(&s);
    assert_eq!(
        bytes,
        b"mode=warning\nlast_modified=00000000000000012345\n".to_vec()
    );
    let d = PersistedState { mode: TimerType::DeadMan, last_modified: 0 };
    assert_eq!(
        encode(&d),
        b"mode=deadman\nlast_modified=00000000000000000000\n".to_vec()
    );
}

#[test]
fn encode_parse_round_trip() {
    let cases = [
        PersistedState { mode: TimerType::Warning, last_modified: 0 },
        PersistedState { mode: TimerType::Warning, last_modified: 12345 },
        PersistedState { mode: TimerType::DeadMan, last_modified: 1700000000 },
        PersistedState { mode: TimerType::DeadMan, last_modified: u64::MAX },
    ];
    for s in cases {
        assert_eq!(parse(&encode(&s)).unwrap(), s);
    }
}

#[test]
fn parse_rejects_corrupt_records() {
    assert!(parse(b"junk").is_err());
    assert!(parse(b"").is_err());
    assert!(parse(b"mode=unknown\nlast_modified=00000000000000012345\n").is_err());
    // Right length, but a non-digit in the checkpoint field.
    assert!(parse(b"mode=warning\nlast_modified=0000000000000001234x\n").is_err());
    // Missing the final newline.
    assert!(parse(b"mode=warning\nlast_modified=000000000000000123456").is_err());
    // A checkpoint larger than any u64.
    assert!(parse(b"mode=warning\nlast_modified=99999999999999999999\n").is_err());
}

#[test]
fn load_state_uses_a_valid_record() {
    let s = PersistedState { mode: TimerType::DeadMan, last_modified: 777 };
    let bytes = encode(&s);
    let outcome = load_state(Some(&bytes), 1000);
    assert_eq!(outcome, LoadOutcome::Loaded(s));
    assert_eq!(outcome.state(), s);
}

#[test]
fn load_state_defaults_when_absent() {
    let outcome = load_state(None, 1000);
    let fresh = PersistedState { mode: TimerType::Warning, last_modified: 1000 };
    assert_eq!(outcome, LoadOutcome::Defaulted(fresh));
    assert_eq!(outcome.state(), fresh);
}

#[test]
fn load_state_defaults_when_corrupt() {
    let bytes = b"not a record".to_vec();
    let outcome = load_state(Some(&bytes), 2000);
    assert_eq!(
        outcome,
        LoadOutcome::Defaulted(PersistedState { mode: TimerType::Warning, last_modified: 2000 })
    );
}
