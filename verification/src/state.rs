//! The minimal durable record of the timer — its mode and the wall-clock
//! checkpoint of its last change — together with its canonical key-value
//! text encoding.
//!
//! The encoding is fixed-form: `mode=<name>` and `last_modified=<20 digits>`
//! on two newline-terminated lines, with the checkpoint zero-padded so every
//! record is the same length. [`parse`] accepts exactly the encodings that
//! [`encode`] produces; anything else is a [`ParseError`], which the loader
//! treats as a first run.

use vstd::arithmetic::div_mod::*;
use vstd::prelude::*;

use crate::timer::TimerType;

verus! {

/// The only data written to durable storage.
///
/// `last_modified` is the wall-clock epoch second taken at the moment the
/// in-memory timer's mode or start time last changed.
#[derive(Clone, Copy, Debug, PartialEq, Eq, Structural)]
pub struct PersistedState {
    /// The timer mode at the checkpoint.
    pub mode: TimerType,
    /// Epoch seconds of the last mode change or check-in.
    pub last_modified: u64,
}

/// The persisted record was not a canonical encoding of any state.
#[derive(Clone, Copy, Debug, PartialEq, Eq, Structural)]
pub struct ParseError;

/// How many digits the checkpoint field carries: enough for any `u64`.
pub const CHECKPOINT_DIGITS: usize = 20;

/// Ten to the power `w`.
pub open spec fn pow10(w: nat) -> nat
    decreases w,
{
    if w == 0 {
        1
    } else {
        10 * pow10((w - 1) as nat)
    }
}

/// The value `n` as exactly `w` decimal ASCII digits, zero-padded,
/// most-significant first (the low `w` digits of `n`).
pub open spec fn spec_dec_fixed(n: nat, w: nat) -> Seq<u8>
    decreases w,
{
    if w == 0 {
        Seq::empty()
    } else {
        spec_dec_fixed(n / 10, (w - 1) as nat).push(((n % 10) + 48) as u8)
    }
}

/// The number denoted by a sequence of decimal ASCII digits.
pub open spec fn spec_num(d: Seq<u8>) -> nat
    decreases d.len(),
{
    if d.len() == 0 {
        0
    } else {
        spec_num(d.drop_last()) * 10 + ((d.last() - 48) as nat)
    }
}

/// The bytes of `mode=` (ASCII).
pub open spec fn spec_mode_key() -> Seq<u8> {
    seq![109u8, 111u8, 100u8, 101u8, 61u8]
}

/// The bytes of the mode's name: `warning` or `deadman` (ASCII).
pub open spec fn spec_mode_name(mode: TimerType) -> Seq<u8> {
    match mode {
        TimerType::Warning => seq![119u8, 97u8, 114u8, 110u8, 105u8, 110u8, 103u8],
        TimerType::DeadMan => seq![100u8, 101u8, 97u8, 100u8, 109u8, 97u8, 110u8],
    }
}

/// The bytes of a newline followed by `last_modified=` (ASCII).
pub open spec fn spec_checkpoint_key() -> Seq<u8> {
    seq![
        10u8,
        108u8,
        97u8,
        115u8,
        116u8,
        95u8,
        109u8,
        111u8,
        100u8,
        105u8,
        102u8,
        105u8,
        101u8,
        100u8,
        61u8,
    ]
}

/// The canonical encoding of a state: both key-value lines, with the
/// checkpoint as twenty zero-padded digits and a final newline.
pub open spec fn spec_encode(s: PersistedState) -> Seq<u8> {
    spec_mode_key() + spec_mode_name(s.mode) + spec_checkpoint_key() + spec_dec_fixed(
        s.last_modified as nat,
        CHECKPOINT_DIGITS as nat,
    ) + seq![10u8]
}

/// Every byte of a fixed-width decimal rendering is an ASCII digit.
pub proof fn lemma_dec_fixed_digits(n: nat, w: nat)
    ensures
        spec_dec_fixed(n, w).len() == w,
        forall|i: int| 0 <= i < w ==> 48 <= #[trigger] spec_dec_fixed(n, w)[i] < 58,
    decreases w,
{
    if w > 0 {
        lemma_dec_fixed_digits(n / 10, (w - 1) as nat);
        lemma_mod_bound(n as int, 10);
    }
}

/// Reading back a fixed-width decimal rendering gives the value back, for
/// every value small enough to fit the width.
pub proof fn lemma_num_of_dec_fixed(n: nat, w: nat)
    requires
        n < pow10(w),
    ensures
        spec_num(spec_dec_fixed(n, w)) == n,
    decreases w,
{
    if w == 0 {
        assert(spec_dec_fixed(n, w).len() == 0);
    } else {
        lemma_multiply_divide_lt(n as int, 10, pow10((w - 1) as nat) as int);
        lemma_num_of_dec_fixed(n / 10, (w - 1) as nat);
        lemma_mod_bound(n as int, 10);
        lemma_fundamental_div_mod(n as int, 10);
        let d = spec_dec_fixed(n, w);
        assert(d.drop_last() == spec_dec_fixed(n / 10, (w - 1) as nat));
    }
}

/// Every sequence of `w` ASCII digits denotes a value below ten to the `w`,
/// and is the fixed-width rendering of that value — renderings are the only
/// digit strings, so the encoding is canonical.
pub proof fn lemma_dec_fixed_of_num(d: Seq<u8>)
    requires
        forall|i: int| 0 <= i < d.len() ==> 48 <= #[trigger] d[i] < 58,
    ensures
        spec_num(d) < pow10(d.len()),
        spec_dec_fixed(spec_num(d), d.len()) == d,
    decreases d.len(),
{
    if d.len() == 0 {
        assert(spec_dec_fixed(spec_num(d), 0) =~= d);
    } else {
        let q = spec_num(d.drop_last());
        let r = (d.last() - 48) as nat;
        lemma_dec_fixed_of_num(d.drop_last());
        let v = spec_num(d);
        assert(v == q * 10 + r);
        lemma_fundamental_div_mod_converse(v as int, 10, q as int, r as int);
        assert(spec_dec_fixed(v, d.len()) == spec_dec_fixed(q, (d.len() - 1) as nat).push(
            ((v % 10) + 48) as u8,
        ));
        assert(spec_dec_fixed(v, d.len()) =~= d);
    }
}

/// Ten to the power of a larger exponent is no smaller.
pub proof fn lemma_pow10_increases(a: nat, b: nat)
    requires
        a <= b,
    ensures
        pow10(a) <= pow10(b),
    decreases b,
{
    if a < b {
        lemma_pow10_increases(a, (b - 1) as nat);
        assert(pow10((b - 1) as nat) >= 1) by {
            lemma_pow10_positive((b - 1) as nat);
        }
    }
}

/// Ten to any power is positive.
pub proof fn lemma_pow10_positive(w: nat)
    ensures
        pow10(w) >= 1,
    decreases w,
{
    if w > 0 {
        lemma_pow10_positive((w - 1) as nat);
    }
}

/// Every `u64` fits in twenty decimal digits.
pub proof fn lemma_u64_fits_checkpoint_digits()
    ensures
        u64::MAX < pow10(CHECKPOINT_DIGITS as nat),
{
    reveal_with_fuel(pow10, 21);
}

/// Append the low `width` decimal digits of `n` to `out`, zero-padded,
/// most-significant first.
fn push_dec_fixed(n: u64, width: usize, out: &mut Vec<u8>)
    ensures
        final(out)@ == old(out)@ + spec_dec_fixed(n as nat, width as nat),
    decreases width,
{
    if width > 0 {
        push_dec_fixed(n / 10, width - 1, out);
        out.push((n % 10) as u8 + 48);
        assert(final(out)@ =~= old(out)@ + spec_dec_fixed(n as nat, width as nat));
    } else {
        assert(final(out)@ =~= old(out)@ + spec_dec_fixed(n as nat, 0));
    }
}

/// Encode a state into its canonical byte form.
pub fn encode(s: &PersistedState) -> (out: Vec<u8>)
    ensures
        out@ == spec_encode(*s),
{
    let mut out: Vec<u8> = Vec::new();
    out.push(109);
    out.push(111);
    out.push(100);
    out.push(101);
    out.push(61);
    match s.mode {
        TimerType::Warning => {
            out.push(119);
            out.push(97);
            out.push(114);
            out.push(110);
            out.push(105);
            out.push(110);
            out.push(103);
        },
        TimerType::DeadMan => {
            out.push(100);
            out.push(101);
            out.push(97);
            out.push(100);
            out.push(109);
            out.push(97);
            out.push(110);
        },
    }
    out.push(10);
    out.push(108);
    out.push(97);
    out.push(115);
    out.push(116);
    out.push(95);
    out.push(109);
    out.push(111);
    out.push(100);
    out.push(105);
    out.push(102);
    out.push(105);
    out.push(101);
    out.push(100);
    out.push(61);
    assert(out@ =~= spec_mode_key() + spec_mode_name(s.mode) + spec_checkpoint_key());
    push_dec_fixed(s.last_modified, CHECKPOINT_DIGITS, &mut out);
    out.push(10);
    assert(out@ =~= spec_encode(*s));
    out
}

/// Where each piece of the canonical encoding lies: the fixed key and mode
/// bytes, the digit segment, and the final newline, together with the
/// checkpoint the digit segment denotes.
proof fn lemma_encode_layout(s: PersistedState)
    ensures
        spec_encode(s).len() == 48,
        spec_encode(s)[0] == 109 && spec_encode(s)[1] == 111 && spec_encode(s)[2] == 100
            && spec_encode(s)[3] == 101 && spec_encode(s)[4] == 61,
        s.mode is Warning ==> spec_encode(s)[5] == 119 && spec_encode(s)[6] == 97 && spec_encode(
            s,
        )[7] == 114 && spec_encode(s)[8] == 110 && spec_encode(s)[9] == 105 && spec_encode(s)[10]
            == 110 && spec_encode(s)[11] == 103,
        s.mode is DeadMan ==> spec_encode(s)[5] == 100 && spec_encode(s)[6] == 101 && spec_encode(
            s,
        )[7] == 97 && spec_encode(s)[8] == 100 && spec_encode(s)[9] == 109 && spec_encode(s)[10]
            == 97 && spec_encode(s)[11] == 110,
        spec_encode(s)[12] == 10 && spec_encode(s)[13] == 108 && spec_encode(s)[14] == 97
            && spec_encode(s)[15] == 115 && spec_encode(s)[16] == 116 && spec_encode(s)[17] == 95
            && spec_encode(s)[18] == 109 && spec_encode(s)[19] == 111 && spec_encode(s)[20] == 100
            && spec_encode(s)[21] == 105 && spec_encode(s)[22] == 102 && spec_encode(s)[23] == 105
            && spec_encode(s)[24] == 101 && spec_encode(s)[25] == 100 && spec_encode(s)[26] == 61,
        forall|i: int| 0 <= i < 20 ==> #[trigger] spec_encode(s)[27 + i] == spec_dec_fixed(
            s.last_modified as nat,
            20,
        )[i] && 48 <= spec_encode(s)[27 + i] < 58,
        spec_encode(s)[47] == 10,
        spec_num(spec_encode(s).subrange(27, 47)) == s.last_modified,
{
    lemma_dec_fixed_digits(s.last_modified as nat, 20);
    lemma_u64_fits_checkpoint_digits();
    lemma_num_of_dec_fixed(s.last_modified as nat, 20);
    assert(spec_encode(s).subrange(27, 47) =~= spec_dec_fixed(s.last_modified as nat, 20));
}

/// Decode a canonical byte form back into a state.
///
/// Returns `Ok(s)` exactly when `bytes` is the canonical encoding of `s`;
/// every other input — wrong length, unknown mode name, a non-digit or an
/// out-of-range checkpoint — is a [`ParseError`].
pub fn parse(bytes: &[u8]) -> (r: Result<PersistedState, ParseError>)
    ensures
        r matches Ok(s) ==> bytes@ == spec_encode(s),
        forall|s: PersistedState| bytes@ == #[trigger] spec_encode(s) ==> r == Ok::<
            PersistedState,
            ParseError,
        >(s),
{
    if bytes.len() != 48 {
        proof {
            assert forall|s: PersistedState| bytes@ != spec_encode(s) by {
                lemma_encode_layout(s);
            }
        }
        return Err(ParseError);
    }
    if !(bytes[0] == 109 && bytes[1] == 111 && bytes[2] == 100 && bytes[3] == 101 && bytes[4]
        == 61) {
        proof {
            assert forall|s: PersistedState| bytes@ != spec_encode(s) by {
                lemma_encode_layout(s);
            }
        }
        return Err(ParseError);
    }
    let is_warning = bytes[5] == 119 && bytes[6] == 97 && bytes[7] == 114 && bytes[8] == 110
        && bytes[9] == 105 && bytes[10] == 110 && bytes[11] == 103;
    let is_dead_man = bytes[5] == 100 && bytes[6] == 101 && bytes[7] == 97 && bytes[8] == 100
        && bytes[9] == 109 && bytes[10] == 97 && bytes[11] == 110;
    let mode = if is_warning {
        TimerType::Warning
    } else if is_dead_man {
        TimerType::DeadMan
    } else {
        proof {
            assert forall|s: PersistedState| bytes@ != spec_encode(s) by {
                lemma_encode_layout(s);
            }
        }
        return Err(ParseError);
    };
    if !(bytes[12] == 10 && bytes[13] == 108 && bytes[14] == 97 && bytes[15] == 115 && bytes[16]
        == 116 && bytes[17] == 95 && bytes[18] == 109 && bytes[19] == 111 && bytes[20] == 100
        && bytes[21] == 105 && bytes[22] == 102 && bytes[23] == 105 && bytes[24] == 101
        && bytes[25] == 100 && bytes[26] == 61) {
        proof {
            assert forall|s: PersistedState| bytes@ != spec_encode(s) by {
                lemma_encode_layout(s);
            }
        }
        return Err(ParseError);
    }
    if bytes[47] != 10 {
        proof {
            assert forall|s: PersistedState| bytes@ != spec_encode(s) by {
                lemma_encode_layout(s);
            }
        }
        return Err(ParseError);
    }
    let ghost seg = bytes@.subrange(27, 47);
    let mut value: u128 = 0;
    let mut i: usize = 0;
    while i < 20
        invariant
            0 <= i <= 20,
            seg == bytes@.subrange(27, 47),
            bytes@.len() == 48,
            forall|j: int| 0 <= j < i ==> 48 <= #[trigger] seg[j] < 58,
            value == spec_num(seg.take(i as int)),
            value < pow10(i as nat),
        decreases 20 - i,
    {
        let b = bytes[27 + i];
        if !(48 <= b && b < 58) {
            proof {
                assert(seg[i as int] == bytes@[27 + i]);
                assert forall|s: PersistedState| bytes@ != spec_encode(s) by {
                    lemma_encode_layout(s);
                }
            }
            return Err(ParseError);
        }
        proof {
            lemma_pow10_increases(i as nat, 19);
            assert(seg.take(i + 1).drop_last() =~= seg.take(i as int));
            assert(seg.take(i + 1).last() == seg[i as int]);
            assert(seg[i as int] == b);
            reveal_with_fuel(pow10, 21);
        }
        value = value * 10 + ((b - 48) as u128);
        i = i + 1;
    }
    proof {
        assert(seg.take(20) =~= seg);
        lemma_dec_fixed_of_num(seg);
    }
    if value > 18446744073709551615u128 {
        proof {
            assert forall|s: PersistedState| bytes@ != spec_encode(s) by {
                lemma_encode_layout(s);
            }
        }
        return Err(ParseError);
    }
    let s = PersistedState { mode, last_modified: value as u64 };
    proof {
        lemma_encode_layout(s);
        assert forall|k: int| 0 <= k < 48 implies bytes@[k] == spec_encode(s)[k] by {
            if 27 <= k < 47 {
                assert(spec_encode(s)[k] == spec_dec_fixed(s.last_modified as nat, 20)[k - 27]);
                assert(spec_dec_fixed(s.last_modified as nat, 20) == seg);
                assert(seg[k - 27] == bytes@[k]);
            }
        }
        assert(bytes@ =~= spec_encode(s));
        assert forall|s2: PersistedState|
            bytes@ == spec_encode(s2) implies s2 == s by {
            lemma_encode_layout(s2);
            assert(spec_encode(s2).subrange(27, 47) =~= seg);
        }
    }
    Ok(s)
}

/// The outcome of loading persisted state: either the stored record, or —
/// when the record is absent or corrupt — a fresh default, distinguishable
/// so a caller can log the recovery.
#[derive(Clone, Copy, Debug, PartialEq, Eq, Structural)]
pub enum LoadOutcome {
    /// The stored record parsed cleanly.
    Loaded(PersistedState),
    /// The record was absent or unparsable; this is the fresh default: a
    /// warning-mode state checkpointed now.
    Defaulted(PersistedState),
}

impl LoadOutcome {
    /// The state to run with, however it was obtained.
    pub fn state(&self) -> (s: PersistedState)
        ensures
            self matches LoadOutcome::Loaded(inner) ==> s == inner,
            self matches LoadOutcome::Defaulted(inner) ==> s == inner,
    {
        match self {
            LoadOutcome::Loaded(s) => *s,
            LoadOutcome::Defaulted(s) => *s,
        }
    }
}

/// Interpret the raw persisted record (or its absence) at wall-clock time
/// `now`: a record that parses is loaded as it stands; a missing or corrupt
/// record is treated as a first run, yielding a warning-mode state
/// checkpointed at `now`.
pub fn load_state(bytes: Option<&Vec<u8>>, now: u64) -> (r: LoadOutcome)
    ensures
        r matches LoadOutcome::Loaded(s) ==> bytes matches Some(b) && b@ == spec_encode(s),
        forall|s: PersistedState|
            (bytes matches Some(b) && b@ == #[trigger] spec_encode(s)) ==> r
                == LoadOutcome::Loaded(s),
        r matches LoadOutcome::Defaulted(s) ==> s == (PersistedState {
            mode: TimerType::Warning,
            last_modified: now,
        }),
{
    match bytes {
        Some(b) => {
            match parse(b.as_slice()) {
                Ok(s) => LoadOutcome::Loaded(s),
                Err(ParseError) => LoadOutcome::Defaulted(
                    PersistedState { mode: TimerType::Warning, last_modified: now },
                ),
            }
        },
        None => LoadOutcome::Defaulted(PersistedState { mode: TimerType::Warning, last_modified: now }),
    }
}

} // verus!
