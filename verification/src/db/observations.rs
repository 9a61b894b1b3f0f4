//! Stage 1 observations and their content hash.
use vstd::prelude::*;
use vstd::string::StringSliceAdditionalSpecFns;

use crate::digest::{lower_hex, sha256, sha256_digest, to_lower_hex};
use crate::text::append_bytes;

verus! {

/// One recorded finding of an audit.
#[derive(Debug, Clone, PartialEq)]
pub struct Observation {
    pub id: String,
    pub audit_id: String,
    /// Content hash of location and text; see `compute_entry_hash`.
    pub entry_hash: String,
    pub text: String,
    pub location: Option<String>,
    pub created_at: String,
}

/// The bytes an entry hash is taken over: the location (empty when there is
/// none), a `|`, then the text, each in UTF-8.
pub open spec fn entry_hash_input(location: Option<Seq<char>>, text: Seq<char>) -> Seq<u8> {
    let loc = match location {
        Some(l) => l,
        None => Seq::empty(),
    };
    vstd::utf8::encode_utf8(loc) + seq![124u8] + vstd::utf8::encode_utf8(text)
}

/// The entry hash of an observation with this location and text.
pub open spec fn entry_hash_of(location: Option<Seq<char>>, text: Seq<char>) -> Seq<char> {
    lower_hex(sha256_digest(entry_hash_input(location, text)))
}

/// An observation without a location hashes as one with an empty location.
pub proof fn lemma_missing_location_hashes_as_empty(text: Seq<char>)
    ensures
        entry_hash_of(None, text) == entry_hash_of(Some(Seq::empty()), text),
{
}

/// Two different texts recorded at the same location never share a hash
/// input: the whole text goes into the hash, so changing any part of it
/// changes what is hashed.
pub proof fn lemma_hash_input_determines_text(
    location: Option<Seq<char>>,
    text1: Seq<char>,
    text2: Seq<char>,
)
    requires
        entry_hash_input(location, text1) == entry_hash_input(location, text2),
    ensures
        text1 == text2,
{
    broadcast use vstd::utf8::encode_utf8_decode_utf8, vstd::utf8::encode_utf8_valid_utf8;

    let loc = match location {
        Some(l) => l,
        None => Seq::<char>::empty(),
    };
    let prefix = vstd::utf8::encode_utf8(loc) + seq![124u8];
    let b1 = vstd::utf8::encode_utf8(text1);
    let b2 = vstd::utf8::encode_utf8(text2);
    assert(entry_hash_input(location, text1) =~= prefix + b1);
    assert(entry_hash_input(location, text2) =~= prefix + b2);
    assert((prefix + b1).skip(prefix.len() as int) =~= b1);
    assert((prefix + b2).skip(prefix.len() as int) =~= b2);
    assert(b1 == b2);
    assert(vstd::utf8::decode_utf8(b1) == text1);
    assert(vstd::utf8::decode_utf8(b2) == text2);
}

/// The same text recorded at two different locations never shares a hash
/// input; a missing location counts as the empty one.
pub proof fn lemma_hash_input_determines_location(
    location1: Option<Seq<char>>,
    location2: Option<Seq<char>>,
    text: Seq<char>,
)
    requires
        entry_hash_input(location1, text) == entry_hash_input(location2, text),
    ensures
        location1.unwrap_or(Seq::empty()) == location2.unwrap_or(Seq::empty()),
{
    broadcast use vstd::utf8::encode_utf8_decode_utf8, vstd::utf8::encode_utf8_valid_utf8;

    let l1 = location1.unwrap_or(Seq::empty());
    let l2 = location2.unwrap_or(Seq::empty());
    let a1 = vstd::utf8::encode_utf8(l1);
    let a2 = vstd::utf8::encode_utf8(l2);
    let suffix = seq![124u8] + vstd::utf8::encode_utf8(text);
    assert(entry_hash_input(location1, text) =~= a1 + suffix);
    assert(entry_hash_input(location2, text) =~= a2 + suffix);
    assert(a1.len() == a2.len());
    assert((a1 + suffix).take(a1.len() as int) =~= a1);
    assert((a2 + suffix).take(a2.len() as int) =~= a2);
    assert(a1 == a2);
    assert(vstd::utf8::decode_utf8(a1) == l1);
    assert(vstd::utf8::decode_utf8(a2) == l2);
}

/// UTF-8 encodes a joined character sequence as the two encodings joined.
proof fn lemma_encode_utf8_concat(a: Seq<char>, b: Seq<char>)
    ensures
        vstd::utf8::encode_utf8(a + b) == vstd::utf8::encode_utf8(a) + vstd::utf8::encode_utf8(b),
    decreases a.len(),
{
    if a.len() == 0 {
        assert(a + b =~= b);
        assert(vstd::utf8::encode_utf8(a) =~= Seq::<u8>::empty());
        assert(Seq::<u8>::empty() + vstd::utf8::encode_utf8(b) =~= vstd::utf8::encode_utf8(b));
    } else {
        assert((a + b).drop_first() =~= a.drop_first() + b);
        lemma_encode_utf8_concat(a.drop_first(), b);
        assert((a + b)[0] == a[0]);
        let head = vstd::utf8::encode_scalar(a[0] as u32);
        assert(vstd::utf8::encode_utf8(a + b) == head + vstd::utf8::encode_utf8(
            a.drop_first() + b,
        ));
        assert(vstd::utf8::encode_utf8(a) == head + vstd::utf8::encode_utf8(a.drop_first()));
        assert(head + (vstd::utf8::encode_utf8(a.drop_first()) + vstd::utf8::encode_utf8(b))
            =~= (head + vstd::utf8::encode_utf8(a.drop_first())) + vstd::utf8::encode_utf8(b));
    }
}

/// What an entry hash is taken over is the UTF-8 text of the string
/// "location|text", whole: for "Bay 3" and "Fire extinguisher missing safety
/// pin" it is the bytes of "Bay 3|Fire extinguisher missing safety pin". An
/// observation without a location hashes as "|text".
pub proof fn lemma_hash_input_is_joined_string(location: Option<Seq<char>>, text: Seq<char>)
    ensures
        entry_hash_input(location, text) == vstd::utf8::encode_utf8(
            location.unwrap_or(Seq::empty()) + seq!['|'] + text,
        ),
{
    let loc = location.unwrap_or(Seq::empty());
    lemma_encode_utf8_concat(loc + seq!['|'], text);
    lemma_encode_utf8_concat(loc, seq!['|']);
    let bar: Seq<char> = seq!['|'];
    assert(bar.drop_first() =~= Seq::<char>::empty());
    assert(vstd::utf8::encode_utf8(Seq::<char>::empty()) =~= Seq::<u8>::empty());
    assert(('|' as u32) == 124u32);
    assert((124u32 & 0x7Fu32) == 124u32) by (bit_vector);
    assert(vstd::utf8::leading_byte_width_1(124u32) == 124u8);
    assert(vstd::utf8::encode_scalar('|' as u32) =~= seq![124u8]);
    assert(vstd::utf8::encode_utf8(bar) =~= seq![124u8]);
    assert(entry_hash_input(location, text) =~= vstd::utf8::encode_utf8(loc) + seq![124u8]
        + vstd::utf8::encode_utf8(text));
}

/// Adding more text at the end of an observation adds its bytes at the end of
/// what is hashed: nothing of the text is left out, however long it is.
pub proof fn lemma_longer_text_extends_hash_input(
    location: Option<Seq<char>>,
    text: Seq<char>,
    more: Seq<char>,
)
    ensures
        entry_hash_input(location, text + more) == entry_hash_input(location, text)
            + vstd::utf8::encode_utf8(more),
{
    lemma_encode_utf8_concat(text, more);
    let loc = location.unwrap_or(Seq::empty());
    let p = vstd::utf8::encode_utf8(loc) + seq![124u8];
    assert(entry_hash_input(location, text + more) =~= p + vstd::utf8::encode_utf8(text + more));
    assert(entry_hash_input(location, text) =~= p + vstd::utf8::encode_utf8(text));
    assert(p + (vstd::utf8::encode_utf8(text) + vstd::utf8::encode_utf8(more)) =~= (p
        + vstd::utf8::encode_utf8(text)) + vstd::utf8::encode_utf8(more));
}

/// Stable content hash of location and text, used as an observation's
/// `entry_hash`: the lower-case hexadecimal SHA-256 of the location, a `|`
/// and the text. It is a function of the content alone, so the same
/// observation hashes the same across sessions, machines and exports.
pub fn compute_entry_hash(location: Option<&str>, text: &str) -> (r: String)
    ensures
        r@ == entry_hash_of(
            match location {
                Some(l) => Some(l@),
                None => None,
            },
            text@,
        ),
{
    let mut data: Vec<u8> = Vec::new();
    match location {
        Some(l) => append_bytes(&mut data, l.as_bytes()),
        None => {},
    }
    let ghost loc_bytes = data@;
    data.push(124u8);
    append_bytes(&mut data, text.as_bytes());
    proof {
        let loc = match location {
            Some(l) => l@,
            None => Seq::<char>::empty(),
        };
        assert(vstd::utf8::encode_utf8(Seq::<char>::empty()) =~= Seq::<u8>::empty());
        assert(loc_bytes == vstd::utf8::encode_utf8(loc));
        assert(data@ =~= entry_hash_input(
            match location {
                Some(l) => Some(l@),
                None => None,
            },
            text@,
        ));
    }
    let digest = sha256(data.as_slice());
    to_lower_hex(digest.as_slice())
}

} // verus!
