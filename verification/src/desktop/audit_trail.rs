//! The hash-chained audit trail. Each entry records the hash of the entry
//! before it (empty for the first) and its own hash, the lower-case
//! hexadecimal SHA-256 of the previous hash and the entry's fields, each
//! separated by `|`. Changing a recorded entry, or removing or reordering
//! entries, breaks the chain from that point on.
use vstd::prelude::*;
use vstd::string::StringExecFns;

use crate::desktop::security::AuditLogInfo;
use crate::digest::{lower_hex, sha256, sha256_digest, to_lower_hex};
use crate::text::{append_bytes, str_eq};

verus! {

broadcast use vstd::utf8::encode_utf8_decode_utf8;

/// One entry of the trail.
#[derive(Debug, Clone, PartialEq)]
pub struct AuditTrailEntry {
    pub info: AuditLogInfo,
    /// The hash of the entry before it; empty for the first entry.
    pub previous_hash: String,
    /// The entry's own hash.
    pub hash: String,
}

/// The text of an optional field, empty when absent.
pub open spec fn field_text(o: Option<String>) -> Seq<char> {
    match o {
        Some(s) => s@,
        None => Seq::empty(),
    }
}

/// The bytes an entry's hash is taken over.
pub open spec fn trail_input(previous_hash: Seq<char>, info: AuditLogInfo) -> Seq<u8> {
    let bar = seq![124u8];
    vstd::utf8::encode_utf8(previous_hash) + bar + vstd::utf8::encode_utf8(info.id@) + bar
        + vstd::utf8::encode_utf8(info.timestamp@) + bar + vstd::utf8::encode_utf8(
        info.event_type@,
    ) + bar + vstd::utf8::encode_utf8(field_text(info.user_id)) + bar + vstd::utf8::encode_utf8(
        info.action@,
    ) + bar + vstd::utf8::encode_utf8(info.resource@) + bar + vstd::utf8::encode_utf8(
        info.result@,
    ) + bar + vstd::utf8::encode_utf8(field_text(info.details))
}

/// The hash an entry with these contents carries.
pub open spec fn trail_hash(previous_hash: Seq<char>, info: AuditLogInfo) -> Seq<char> {
    lower_hex(sha256_digest(trail_input(previous_hash, info)))
}

/// The hash the entry at position `i` must point back to.
pub open spec fn expected_previous(log: Seq<AuditTrailEntry>, i: int) -> Seq<char> {
    if i == 0 {
        Seq::empty()
    } else {
        log[i - 1].hash@
    }
}

/// The entry at position `i` points back to the one before it and carries
/// the hash of its own contents.
pub open spec fn link_holds(log: Seq<AuditTrailEntry>, i: int) -> bool {
    &&& log[i].previous_hash@ == expected_previous(log, i)
    &&& log[i].hash@ == trail_hash(log[i].previous_hash@, log[i].info)
}

/// The first `n` entries form an unbroken chain from the first entry.
pub open spec fn chain_holds(log: Seq<AuditTrailEntry>, n: int) -> bool {
    forall|i: int| 0 <= i < n ==> #[trigger] link_holds(log, i)
}

/// The trail holds an entry with this hash, and the chain from the first
/// entry up to it is unbroken.
pub open spec fn verified_in(log: Seq<AuditTrailEntry>, entry_hash: Seq<char>) -> bool {
    exists|i: int| 0 <= i < log.len() && #[trigger] log[i].hash@ == entry_hash && chain_holds(log, i + 1)
}

fn append_field(data: &mut Vec<u8>, text: &str)
    ensures
        final(data)@ == old(data)@ + seq![124u8] + vstd::utf8::encode_utf8(text@),
{
    data.push(124u8);
    append_bytes(data, text.as_bytes());
}

fn optional_text(o: &Option<String>) -> (r: String)
    ensures
        r@ == field_text(*o),
{
    match o {
        Some(s) => String::from_str(s.as_str()),
        None => String::new(),
    }
}

/// The hash an entry with these contents carries.
pub fn compute_trail_hash(previous_hash: &str, info: &AuditLogInfo) -> (r: String)
    ensures
        r@ == trail_hash(previous_hash@, *info),
{
    let user = optional_text(&info.user_id);
    let details = optional_text(&info.details);
    let mut data: Vec<u8> = Vec::new();
    append_bytes(&mut data, previous_hash.as_bytes());
    append_field(&mut data, info.id.as_str());
    append_field(&mut data, info.timestamp.as_str());
    append_field(&mut data, info.event_type.as_str());
    append_field(&mut data, user.as_str());
    append_field(&mut data, info.action.as_str());
    append_field(&mut data, info.resource.as_str());
    append_field(&mut data, info.result.as_str());
    append_field(&mut data, details.as_str());
    assert(data@ =~= trail_input(previous_hash@, *info));
    let digest = sha256(data.as_slice());
    to_lower_hex(digest.as_slice())
}

/// The entry that records an event after the trail's last entry (whose hash
/// is `last_hash`; `None` when the trail is empty).
pub fn record_audit_event(last_hash: Option<&str>, info: AuditLogInfo) -> (r: AuditTrailEntry)
    ensures
        r.info == info,
        r.previous_hash@ == match last_hash {
            Some(h) => h@,
            None => Seq::empty(),
        },
        r.hash@ == trail_hash(r.previous_hash@, info),
{
    let previous_hash = match last_hash {
        Some(h) => String::from_str(h),
        None => String::new(),
    };
    let hash = compute_trail_hash(previous_hash.as_str(), &info);
    AuditTrailEntry { info, previous_hash, hash }
}

/// Whether the trail holds an entry with this hash whose chain, from the
/// first entry up to it, is unbroken. The trail is given in the order its
/// entries were recorded.
pub fn verify_audit_integrity(entry_hash: &str, log: &Vec<AuditTrailEntry>) -> (r: bool)
    ensures
        r == verified_in(log@, entry_hash@),
{
    let mut i: usize = 0;
    while i < log.len()
        invariant
            i <= log@.len(),
            chain_holds(log@, i as int),
            forall|j: int| 0 <= j < i ==> log@[j].hash@ != entry_hash@,
        decreases log@.len() - i,
    {
        let previous_ok = if i == 0 {
            log[i].previous_hash.as_str().is_empty()
        } else {
            str_eq(log[i].previous_hash.as_str(), log[i - 1].hash.as_str())
        };
        let own = compute_trail_hash(log[i].previous_hash.as_str(), &log[i].info);
        let hash_ok = str_eq(own.as_str(), log[i].hash.as_str());
        if !(previous_ok && hash_ok) {
            proof {
                assert(!link_holds(log@, i as int));
                assert forall|j: int|
                    0 <= j < log@.len() && #[trigger] log@[j].hash@ == entry_hash@ implies !chain_holds(
                    log@,
                    j + 1,
                ) by {
                    assert(j >= i);
                    assert(!link_holds(log@, i as int));
                }
            }
            return false;
        }
        proof {
            if i == 0 {
                assert(log@[0].previous_hash@ =~= Seq::<char>::empty());
            }
        }
        assert(link_holds(log@, i as int));
        if str_eq(log[i].hash.as_str(), entry_hash) {
            assert(chain_holds(log@, i + 1));
            assert(log@[i as int].hash@ == entry_hash@);
            return true;
        }
        i = i + 1;
    }
    false
}

/// Recording an event after an unbroken trail keeps it unbroken, and the new
/// entry's hash then passes the integrity check.
pub proof fn lemma_recorded_entry_verifies(log: Seq<AuditTrailEntry>, entry: AuditTrailEntry)
    requires
        chain_holds(log, log.len() as int),
        entry.previous_hash@ == (if log.len() == 0 {
            Seq::<char>::empty()
        } else {
            log.last().hash@
        }),
        entry.hash@ == trail_hash(entry.previous_hash@, entry.info),
    ensures
        chain_holds(log.push(entry), log.len() + 1int),
        verified_in(log.push(entry), entry.hash@),
{
    let grown = log.push(entry);
    assert forall|i: int| 0 <= i < log.len() + 1 implies #[trigger] link_holds(grown, i) by {
        if i < log.len() {
            assert(link_holds(log, i));
            assert(grown[i] == log[i]);
            if i > 0 {
                assert(grown[i - 1] == log[i - 1]);
            }
        } else {
            assert(grown[i] == entry);
            if i > 0 {
                assert(grown[i - 1] == log.last());
            }
        }
    }
    assert(grown[log.len() as int].hash@ == entry.hash@);
}

} // verus!
