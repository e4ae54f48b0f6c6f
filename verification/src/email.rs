//! What goes into the two emails the switch can send.
//!
//! The transport belongs to the host; this module decides the content: which
//! address list, subject and body each kind of email carries, whether the
//! attachment is included, and how a comma-separated recipient list splits
//! into individual trimmed addresses.

use vstd::prelude::*;

use crate::config::Config;

verus! {

/// The kind of email to send.
#[derive(Debug, Clone, Copy, PartialEq, Eq, Structural)]
pub enum Email {
    /// The warning email, sent back to the owner's own address.
    Warning,
    /// The dead man's email, sent to the configured recipients.
    DeadMan,
}

/// The content of one email, ready for a transport.
#[derive(Clone, Debug)]
pub struct EmailPlan {
    /// The comma-separated recipient list.
    pub to: String,
    /// The subject line.
    pub subject: String,
    /// The plain-text body.
    pub body: String,
    /// Whether the configured attachment goes along.
    pub include_attachment: bool,
}

/// Decide the content of an email of the given kind.
///
/// A warning goes back to the owner (`config.from`) with the warning subject
/// and message and never an attachment; the dead-man email goes to
/// `config.to` with the final subject and message, and carries the
/// attachment exactly when one is configured.
pub fn email_plan(config: &Config, email_type: Email) -> (p: EmailPlan)
    ensures
        email_type is Warning ==> p.to == config.from && p.subject == config.subject_warning
            && p.body == config.message_warning && !p.include_attachment,
        email_type is DeadMan ==> p.to == config.to && p.subject == config.subject && p.body
            == config.message && p.include_attachment == (config.attachment is Some),
{
    match email_type {
        Email::Warning => EmailPlan {
            to: config.from.clone(),
            subject: config.subject_warning.clone(),
            body: config.message_warning.clone(),
            include_attachment: false,
        },
        Email::DeadMan => EmailPlan {
            to: config.to.clone(),
            subject: config.subject.clone(),
            body: config.message.clone(),
            include_attachment: config.attachment.is_some(),
        },
    }
}

/// ASCII whitespace, as trimmed from around each address.
pub open spec fn is_space(b: u8) -> bool {
    b == 32 || b == 9 || b == 10 || b == 13
}

/// `s` with leading and trailing ASCII whitespace removed.
pub open spec fn spec_trim(s: Seq<u8>) -> Seq<u8>
    decreases s.len(),
{
    if s.len() > 0 && is_space(s[0]) {
        spec_trim(s.skip(1))
    } else if s.len() > 0 && is_space(s.last()) {
        spec_trim(s.drop_last())
    } else {
        s
    }
}

/// The tokens of `s` split at commas, given that `cur` has been read of the
/// current token so far: every comma ends a token, so adjacent commas yield
/// empty tokens and an empty input yields one empty token.
pub open spec fn spec_split_from(s: Seq<u8>, cur: Seq<u8>) -> Seq<Seq<u8>>
    decreases s.len(),
{
    if s.len() == 0 {
        seq![cur]
    } else if s[0] == 44 {
        seq![cur] + spec_split_from(s.skip(1), Seq::empty())
    } else {
        spec_split_from(s.skip(1), cur.push(s[0]))
    }
}

/// The comma-separated tokens of `s`, each trimmed of surrounding ASCII
/// whitespace.
pub open spec fn spec_recipients(s: Seq<u8>) -> Seq<Seq<u8>> {
    spec_split_from(s, Seq::empty()).map_values(|t: Seq<u8>| spec_trim(t))
}

/// Whether `b` is ASCII whitespace.
fn is_space_byte(b: u8) -> (r: bool)
    ensures
        r == is_space(b),
{
    b == 32 || b == 9 || b == 10 || b == 13
}

/// Copy `v` without its leading and trailing ASCII whitespace.
fn trim_bytes(v: &Vec<u8>) -> (r: Vec<u8>)
    ensures
        r@ == spec_trim(v@),
{
    proof {
        assert(v@.skip(0) =~= v@);
    }
    let mut start: usize = 0;
    while start < v.len() && is_space_byte(v[start])
        invariant
            0 <= start <= v@.len(),
            spec_trim(v@) == spec_trim(v@.skip(start as int)),
        decreases v@.len() - start,
    {
        proof {
            assert(v@.skip(start as int).skip(1) =~= v@.skip(start + 1));
        }
        start = start + 1;
    }
    proof {
        assert(v@.subrange(start as int, v@.len() as int) =~= v@.skip(start as int));
    }
    let mut end: usize = v.len();
    while end > start && is_space_byte(v[end - 1])
        invariant
            0 <= start <= end <= v@.len(),
            start < v@.len() ==> !is_space(v@[start as int]),
            spec_trim(v@) == spec_trim(v@.subrange(start as int, end as int)),
        decreases end,
    {
        proof {
            let sub = v@.subrange(start as int, end as int);
            assert(sub.drop_last() =~= v@.subrange(start as int, end - 1));
        }
        end = end - 1;
    }
    let mut out: Vec<u8> = Vec::new();
    let mut i: usize = start;
    while i < end
        invariant
            start <= i <= end <= v@.len(),
            out@ == v@.subrange(start as int, i as int),
        decreases end - i,
    {
        out.push(v[i]);
        proof {
            assert(out@ =~= v@.subrange(start as int, i + 1));
        }
        i = i + 1;
    }
    proof {
        let sub = v@.subrange(start as int, end as int);
        assert(out@ =~= sub);
        assert(spec_trim(sub) == sub);
    }
    out
}

/// Split a comma-separated recipient list into its individual addresses,
/// each trimmed of surrounding ASCII whitespace. Adjacent commas and an
/// empty input yield empty entries, as the host may reject or skip.
pub fn split_recipients(to: &[u8]) -> (parts: Vec<Vec<u8>>)
    ensures
        parts@.map_values(|v: Vec<u8>| v@) == spec_recipients(to@),
{
    let mut parts: Vec<Vec<u8>> = Vec::new();
    let ghost mut done: Seq<Seq<u8>> = Seq::empty();
    let mut cur: Vec<u8> = Vec::new();
    let mut i: usize = 0;
    proof {
        assert(to@.skip(0) =~= to@);
        assert(done + spec_split_from(to@, Seq::empty()) =~= spec_split_from(to@, Seq::empty()));
    }
    while i < to.len()
        invariant
            0 <= i <= to@.len(),
            spec_split_from(to@, Seq::empty()) == done + spec_split_from(to@.skip(i as int), cur@),
            parts@.len() == done.len(),
            forall|k: int| 0 <= k < done.len() ==> parts@[k]@ == spec_trim(#[trigger] done[k]),
        decreases to@.len() - i,
    {
        let b = to[i];
        proof {
            assert(to@.skip(i as int).skip(1) =~= to@.skip(i + 1));
            assert(to@.skip(i as int)[0] == b);
        }
        if b == 44 {
            let trimmed = trim_bytes(&cur);
            parts.push(trimmed);
            proof {
                let old_done = done;
                done = done + seq![cur@];
                assert(spec_split_from(to@.skip(i as int), cur@) == seq![cur@]
                    + spec_split_from(to@.skip(i + 1), Seq::empty()));
                assert(old_done + (seq![cur@] + spec_split_from(to@.skip(i + 1), Seq::empty()))
                    =~= done + spec_split_from(to@.skip(i + 1), Seq::empty()));
            }
            cur = Vec::new();
        } else {
            cur.push(b);
        }
        i = i + 1;
    }
    proof {
        assert(to@.skip(i as int) =~= Seq::<u8>::empty());
    }
    let trimmed = trim_bytes(&cur);
    parts.push(trimmed);
    proof {
        let all = done + seq![cur@];
        assert(spec_split_from(to@, Seq::empty()) == all);
        assert forall|k: int| #![trigger all[k]] 0 <= k < all.len() implies parts@.map_values(
            |v: Vec<u8>| v@,
        )[k] == all.map_values(|t: Seq<u8>| spec_trim(t))[k] by {
            if k < all.len() - 1 {
                assert(all[k] == done[k]);
            }
        }
        assert(parts@.map_values(|v: Vec<u8>| v@) =~= all.map_values(|t: Seq<u8>| spec_trim(t)));
    }
    parts
}

} // verus!
