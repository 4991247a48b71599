//! Backup directives: recognising them in inbound text and naming snapshot files.
use vstd::prelude::*;
use vstd::utf8::*;

verus! {

broadcast use vstd::utf8::encode_utf8_valid_utf8, vstd::utf8::encode_utf8_decode_utf8;

/// The reserved prefix that turns an inbound text message into a backup request.
pub open spec fn backup_marker() -> Seq<char> {
    seq!['~', '!', '~']
}

/// Whether a text message is a backup request.
pub open spec fn has_backup_marker(t: Seq<char>) -> bool {
    t.len() >= 3 && t.subrange(0, 3) == backup_marker()
}

/// How an inbound text message is to be handled.
#[derive(Debug, PartialEq, Eq)]
pub enum TextKind {
    /// Snapshot this payload (the message with the marker removed) to a backup file.
    Backup(String),
    /// Replace the shared document with this text and relay it to the other peers.
    Update(String),
}

/// The one-byte encoding of an ASCII character, and only of it, starts with that byte.
proof fn lemma_encode_scalar_ascii_lead(c: char, b: u8)
    requires
        b < 0x80,
    ensures
        encode_scalar(c as u32)[0] == b <==> c as u32 == b as u32,
        c as u32 == b as u32 ==> encode_scalar(c as u32) == seq![b],
{
    let s = c as u32;
    char_is_scalar(c);
    if has_width_1_encoding(s) {
        assert((s & 0x7F) as u8 == s as u8) by (bit_vector)
            requires
                s <= 0x7F,
        ;
    } else if has_width_2_encoding(s) {
        assert(0xC0u8 | ((s >> 6) & 0x1F) as u8 >= 0xC0u8) by (bit_vector);
    } else if has_width_3_encoding(s) {
        assert(0xE0u8 | ((s >> 12) & 0x0F) as u8 >= 0xE0u8) by (bit_vector);
    } else {
        assert(0xF0u8 | ((s >> 18) & 0x7) as u8 >= 0xF0u8) by (bit_vector);
    }
}

/// The encoded text starts with the marker's three bytes exactly when the text starts
/// with the marker, and then the rest of the encoding is the encoding of the rest.
proof fn lemma_marker_bytes(t: Seq<char>)
    ensures
        (encode_utf8(t).len() >= 3 && encode_utf8(t).subrange(0, 3) == seq![126u8, 33u8, 126u8])
            <==> has_backup_marker(t),
        has_backup_marker(t) ==> encode_utf8(t).subrange(3, encode_utf8(t).len() as int)
            == encode_utf8(t.subrange(3, t.len() as int)),
        has_backup_marker(t) ==> is_char_boundary(encode_utf8(t), 3),
{
    let b = encode_utf8(t);
    if t.len() == 0 {
        assert(b.len() == 0);
        return;
    }
    let t1 = t.drop_first();
    lemma_encode_scalar_ascii_lead(t[0], 126u8);
    assert(b == encode_scalar(t[0] as u32) + encode_utf8(t1));
    if t[0] as u32 != 126 {
        assert(b[0] != 126u8);
        assert(!(b.len() >= 3 && b.subrange(0, 3) == seq![126u8, 33u8, 126u8])) by {
            if b.len() >= 3 && b.subrange(0, 3) == seq![126u8, 33u8, 126u8] {
                assert(b.subrange(0, 3)[0] == b[0]);
            }
        }
        assert(!has_backup_marker(t)) by {
            if has_backup_marker(t) {
                assert(t.subrange(0, 3)[0] == t[0]);
            }
        }
        return;
    }
    let b1 = encode_utf8(t1);
    assert(b =~= seq![126u8] + b1);
    if t1.len() == 0 {
        assert(!has_backup_marker(t));
        return;
    }
    let t2 = t1.drop_first();
    lemma_encode_scalar_ascii_lead(t1[0], 33u8);
    assert(b1 == encode_scalar(t1[0] as u32) + encode_utf8(t2));
    if t1[0] as u32 != 33 {
        assert(b1[0] != 33u8);
        assert(b[1] == b1[0]);
        assert(!(b.len() >= 3 && b.subrange(0, 3) == seq![126u8, 33u8, 126u8])) by {
            if b.len() >= 3 && b.subrange(0, 3) == seq![126u8, 33u8, 126u8] {
                assert(b.subrange(0, 3)[1] == b[1]);
            }
        }
        assert(!has_backup_marker(t)) by {
            if has_backup_marker(t) {
                assert(t.subrange(0, 3)[1] == t[1]);
            }
        }
        return;
    }
    let b2 = encode_utf8(t2);
    assert(b =~= seq![126u8, 33u8] + b2);
    if t2.len() == 0 {
        assert(!has_backup_marker(t));
        return;
    }
    let t3 = t2.drop_first();
    lemma_encode_scalar_ascii_lead(t2[0], 126u8);
    assert(b2 == encode_scalar(t2[0] as u32) + encode_utf8(t3));
    if t2[0] as u32 != 126 {
        assert(b2[0] != 126u8);
        assert(b[2] == b2[0]);
        assert(!(b.len() >= 3 && b.subrange(0, 3) == seq![126u8, 33u8, 126u8])) by {
            if b.len() >= 3 && b.subrange(0, 3) == seq![126u8, 33u8, 126u8] {
                assert(b.subrange(0, 3)[2] == b[2]);
            }
        }
        assert(!has_backup_marker(t)) by {
            if has_backup_marker(t) {
                assert(t.subrange(0, 3)[2] == t[2]);
            }
        }
        return;
    }
    let b3 = encode_utf8(t3);
    assert(b =~= seq![126u8, 33u8, 126u8] + b3);
    assert(b.subrange(0, 3) =~= seq![126u8, 33u8, 126u8]);
    assert(b.subrange(3, b.len() as int) =~= b3);
    assert(t3 =~= t.subrange(3, t.len() as int));
    char_u32_cast(t[0], t[0] as u32);
    char_u32_cast(t[1], t[1] as u32);
    char_u32_cast(t[2], t[2] as u32);
    char_u32_cast('~', 126u32);
    char_u32_cast('!', 33u32);
    assert(t[0] == '~' && t[1] == '!' && t[2] == '~');
    assert(t.subrange(0, 3) =~= backup_marker());
    lemma_ascii_boundary(t, 3);
}

/// A position after a run of ASCII characters is a character boundary of the encoding.
proof fn lemma_ascii_boundary(t: Seq<char>, k: nat)
    requires
        k <= t.len(),
        forall|i: int| 0 <= i < k ==> (#[trigger] t[i]) as u32 <= 0x7F,
    ensures
        is_char_boundary(encode_utf8(t), k as int),
    decreases k,
{
    if k > 0 {
        let b = encode_utf8(t);
        encode_utf8_first_scalar(t);
        assert(pop_first_scalar(b) =~= encode_utf8(t.drop_first()));
        assert(encode_scalar(t[0] as u32).len() == 1);
        assert forall|i: int| 0 <= i < k - 1 implies (#[trigger] t.drop_first()[i]) as u32 <= 0x7F by {
            assert(t.drop_first()[i] == t[i + 1]);
        }
        lemma_ascii_boundary(t.drop_first(), (k - 1) as nat);
    }
}

/// Classifies an inbound text message: a message that starts with the backup marker is
/// a backup request for the rest of the text; any other text is a document update.
pub fn classify_text(txt: String) -> (r: TextKind)
    ensures
        match r {
            TextKind::Backup(p) => has_backup_marker(txt@) && p@ == txt@.subrange(
                3,
                txt@.len() as int,
            ),
            TextKind::Update(u) => !has_backup_marker(txt@) && u@ == txt@,
        },
{
    proof {
        lemma_marker_bytes(txt@);
    }
    let is_backup = {
        let bytes = txt.as_str().as_bytes();
        bytes.len() >= 3 && bytes[0] == 126u8 && bytes[1] == 33u8 && bytes[2] == 126u8
    };
    if is_backup {
        let ghost b = txt@;
        assert(encode_utf8(b).subrange(0, 3) =~= seq![126u8, 33u8, 126u8]);
        let (_, rest) = txt.as_str().split_at(3);
        let payload = rest.to_owned();
        assert(encode_utf8(payload@) == encode_utf8(b.subrange(3, b.len() as int)));
        assert(decode_utf8(encode_utf8(payload@)) == payload@);
        TextKind::Backup(payload)
    } else {
        proof {
            if has_backup_marker(txt@) {
                assert(encode_utf8(txt@).subrange(0, 3)[0] == encode_utf8(txt@)[0]);
                assert(encode_utf8(txt@).subrange(0, 3)[1] == encode_utf8(txt@)[1]);
                assert(encode_utf8(txt@).subrange(0, 3)[2] == encode_utf8(txt@)[2]);
            }
        }
        TextKind::Update(txt)
    }
}

/// The name of the backup file for a snapshot taken at the time `stamp` (RFC 3339 text).
pub fn backup_file_name(stamp: &str) -> (r: String)
    ensures
        r@ == "backup-"@ + stamp@ + ".json"@,
{
    let mut r = String::from_str("backup-");
    r.append(stamp);
    r.append(".json");
    r
}

/// Whether `c` can occur in an RFC 3339 time stamp as chrono writes it: a digit or one
/// of `-`, `:`, `T`, `.`, `+`.
pub open spec fn is_stamp_char(c: char) -> bool {
    ('0' <= c && c <= '9') || c == '-' || c == ':' || c == 'T' || c == '.' || c == '+'
}

/// Relies on chrono's `Local::now` and `DateTime::to_rfc3339`: the current local time,
/// written as `YYYY-MM-DDTHH:MM:SS`, an optional fraction, and an offset `+HH:MM` or
/// `-HH:MM`. Which time it shows depends on the clock and the time zone; what holds of
/// every result is its length and its alphabet.
#[verifier::external_body]
fn local_now_rfc3339() -> (r: String)
    ensures
        r@.len() >= 25,
        forall|i: int| 0 <= i < r@.len() ==> is_stamp_char(#[trigger] r@[i]),
{
    chrono::Local::now().to_rfc3339()
}

/// The name of a new backup file, stamped with the current local time.
pub fn new_backup_file_name() -> (r: String)
    ensures
        exists|stamp: Seq<char>|
            r@ == "backup-"@ + stamp + ".json"@ && stamp.len() >= 25 && forall|i: int|
                0 <= i < stamp.len() ==> is_stamp_char(#[trigger] stamp[i]),
{
    let stamp = local_now_rfc3339();
    let r = backup_file_name(stamp.as_str());
    assert(r@ == "backup-"@ + stamp@ + ".json"@);
    r
}

} // verus!
