//! Masking secrets before they leave the backend.

use vstd::prelude::*;
use vstd::utf8::{decode_utf8, encode_utf8, is_char_boundary, valid_utf8};

verus! {

broadcast use {vstd::utf8::encode_utf8_decode_utf8, vstd::utf8::encode_utf8_valid_utf8};

/// The longest secret, in bytes, that is masked whole; a longer one shows at
/// most its first and last four bytes.
pub const REDACT_WHOLE_MAX: usize = 12;

/// A secret of UTF-8 bytes `b` can be masked without cutting a character:
/// secrets of at most `REDACT_WHOLE_MAX` bytes are masked whole, longer ones keep their first and last four
/// bytes, which must start and end on character boundaries.
pub open spec fn redaction_safe(b: Seq<u8>) -> bool {
    b.len() <= 12 || (is_char_boundary(b, 4) && is_char_boundary(b, b.len() - 4))
}

/// The masked form of a secret of UTF-8 bytes `b`: `[REDACTED]` when it is at
/// most `REDACT_WHOLE_MAX` (12) bytes long, otherwise its first four bytes, `...`, and its last
/// four bytes.
pub open spec fn redacted(b: Seq<u8>) -> Seq<char> {
    if b.len() <= 12 {
        "[REDACTED]"@
    } else {
        decode_utf8(b.subrange(0, 4)) + "..."@ + decode_utf8(b.subrange(b.len() - 4, b.len() as int))
    }
}

/// Whether `key` can be masked by `redact_api_key`.
pub fn is_redactable(key: &str) -> (r: bool)
    ensures
        r == redaction_safe(encode_utf8(key@)),
{
    let n = key.as_bytes().len();
    n <= REDACT_WHOLE_MAX || (key.is_char_boundary(4) && key.is_char_boundary(n - 4))
}

/// Masks a secret for display: `[REDACTED]` for 12 bytes or fewer,
/// otherwise `abcd...wxyz` from its first and last four bytes.
pub fn redact_api_key(key: &str) -> (r: String)
    requires
        redaction_safe(encode_utf8(key@)),
    ensures
        r@ == redacted(encode_utf8(key@)),
{
    let n = key.as_bytes().len();
    if n <= REDACT_WHOLE_MAX {
        String::from_str("[REDACTED]")
    } else {
        let (head, _) = key.split_at(4);
        let (_, tail) = key.split_at(n - 4);
        let mut r = String::from_str(head);
        r.append("...");
        r.append(tail);
        proof {
            assert(decode_utf8(encode_utf8(head@)) == head@);
            assert(decode_utf8(encode_utf8(tail@)) == tail@);
        }
        r
    }
}

/// What a secret is shown as: itself when revealed, empty when empty, masked
/// otherwise.
pub open spec fn shown_secret(secret: Seq<char>, reveal: bool) -> Seq<char> {
    if reveal {
        secret
    } else if secret.len() == 0 {
        Seq::empty()
    } else {
        redacted(encode_utf8(secret))
    }
}

/// The secret as handed to the settings view: plaintext only when `reveal`.
pub fn reveal_or_redact(secret: &str, reveal: bool) -> (r: String)
    requires
        !reveal ==> redaction_safe(encode_utf8(secret@)),
    ensures
        r@ == shown_secret(secret@, reveal),
{
    if reveal {
        String::from_str(secret)
    } else if secret.is_empty() {
        String::new()
    } else {
        redact_api_key(secret)
    }
}

/// Encoding a concatenation encodes each part in turn.
proof fn lemma_encode_concat(a: Seq<char>, b: Seq<char>)
    ensures
        encode_utf8(a + b) == encode_utf8(a) + encode_utf8(b),
    decreases a.len(),
{
    if a.len() == 0 {
        assert(a + b =~= b);
        assert(encode_utf8(a) =~= Seq::<u8>::empty());
        assert(encode_utf8(a) + encode_utf8(b) =~= encode_utf8(b));
    } else {
        assert((a + b).drop_first() =~= a.drop_first() + b);
        assert((a + b)[0] == a[0]);
        lemma_encode_concat(a.drop_first(), b);
    }
}

/// What masking shows of a secret, in its bytes: a secret of at most 12 bytes
/// is shown as `[REDACTED]` and nothing of it; a longer one is shown as its
/// first four bytes, then `...`, then its last four bytes, whatever its
/// length.
pub proof fn lemma_masked_bytes(b: Seq<u8>)
    requires
        valid_utf8(b),
        redaction_safe(b),
    ensures
        b.len() <= 12 ==> redacted(b) == "[REDACTED]"@,
        b.len() > 12 ==> encode_utf8(redacted(b)) == b.subrange(0, 4) + encode_utf8("..."@)
            + b.subrange(b.len() - 4, b.len() as int),
{
    if b.len() > 12 {
        let head = b.subrange(0, 4);
        let tail = b.subrange(b.len() - 4, b.len() as int);
        vstd::utf8::valid_utf8_split(b, 4);
        vstd::utf8::valid_utf8_split(b, b.len() - 4);
        vstd::utf8::decode_utf8_encode_utf8(head);
        vstd::utf8::decode_utf8_encode_utf8(tail);
        lemma_encode_concat(decode_utf8(head), "..."@);
        lemma_encode_concat(decode_utf8(head) + "..."@, decode_utf8(tail));
    }
}

} // verus!
