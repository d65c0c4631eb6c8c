use crypto::hmac::Hmac;
use crypto::mac::Mac;
use crypto::sha1::Sha1;
use vstd::prelude::*;
use vstd::slice::slice_to_vec;
use vstd::string::*;
use vstd::utf8::encode_utf8;
use crate::text::{digit_char, digit_table, push_digit};

verus! {

/// The HMAC-SHA1 code of `message` under `key`.
pub uninterp spec fn hmac_sha1_of(key: Seq<u8>, message: Seq<u8>) -> Seq<u8>;

/// Relies on crypto's `Hmac::new` with `Sha1`, `Mac::input` and
/// `Mac::result().code()`: the keyed SHA-1 code of the message, which depends
/// on the key and the message alone and is 20 bytes long (SHA-1's output size).
#[verifier::external_body]
fn hmac_sha1(key: &[u8], message: &[u8]) -> (r: Vec<u8>)
    ensures
        r@ == hmac_sha1_of(key@, message@),
        r@.len() == 20,
{
    let mut mac = Hmac::new(Sha1::new(), key);
    mac.input(message);
    mac.result().code().to_vec()
}

/// Lowercase hexadecimal rendering: two digits per byte, high nibble first.
pub open spec fn hex_of(bytes: Seq<u8>) -> Seq<char> {
    Seq::new(
        2 * bytes.len(),
        |i: int|
            if i % 2 == 0 {
                digit_char((bytes[i / 2] / 16) as nat)
            } else {
                digit_char((bytes[i / 2] % 16) as nat)
            },
    )
}

/// The shape of every identity token: 40 lowercase hexadecimal digits.
pub open spec fn is_token(s: Seq<char>) -> bool {
    &&& s.len() == 40
    &&& forall|i: int| 0 <= i < s.len() ==> digit_table().contains(#[trigger] s[i])
}

/// The identity token of a credential pair under a secret key: the keyed
/// one-way code of the two credentials' UTF-8 bytes one after the other, in
/// hexadecimal.
pub open spec fn token_of(primary: Seq<char>, secondary: Seq<char>, key: Seq<char>) -> Seq<char> {
    hex_of(hmac_sha1_of(encode_utf8(key), encode_utf8(primary) + encode_utf8(secondary)))
}

/// Renders `bytes` as lowercase hexadecimal.
pub fn hex_string(bytes: &Vec<u8>) -> (r: String)
    ensures
        r@ == hex_of(bytes@),
{
    let mut out = String::new();
    let mut i: usize = 0;
    while i < bytes.len()
        invariant
            i <= bytes@.len(),
            out@ =~= hex_of(bytes@.take(i as int)),
        decreases bytes@.len() - i,
    {
        let b = bytes[i];
        let ghost before = out@;
        push_digit(&mut out, b / 16);
        push_digit(&mut out, b % 16);
        assert(out@ =~= hex_of(bytes@.take(i as int + 1))) by {
            assert(bytes@.take(i as int + 1)[i as int] == b);
            assert forall|j: int| 0 <= j < 2 * i implies #[trigger] hex_of(
                bytes@.take(i as int + 1),
            )[j] == before[j] by {
                assert(bytes@.take(i as int + 1)[j / 2] == bytes@.take(i as int)[j / 2]);
            }
        }
        i = i + 1;
    }
    assert(bytes@.take(bytes@.len() as int) =~= bytes@);
    out
}

/// Every hexadecimal rendering of a 20-byte code is a token.
proof fn lemma_hex_is_token(bytes: Seq<u8>)
    requires
        bytes.len() == 20,
    ensures
        is_token(hex_of(bytes)),
{
    let s = hex_of(bytes);
    assert forall|i: int| 0 <= i < s.len() implies digit_table().contains(#[trigger] s[i]) by {
        let d: int = if i % 2 == 0 { (bytes[i / 2] / 16) as int } else { (bytes[i / 2] % 16) as int };
        assert(s[i] == digit_table()[d]);
    }
}

/// Derives the identity token of a credential pair (an email and a bearer
/// token, or a player identifier and a player token) under the secret key.
/// Both credential modes go through this one derivation, so they share one
/// token space.
pub fn derive_token(primary: &str, secondary: &str, secret: &str) -> (r: String)
    ensures
        r@ == token_of(primary@, secondary@, secret@),
        is_token(r@),
{
    let mut message = slice_to_vec(primary.as_bytes());
    let mut rest = slice_to_vec(secondary.as_bytes());
    message.append(&mut rest);
    let code = hmac_sha1(secret.as_bytes(), message.as_slice());
    proof {
        lemma_hex_is_token(code@);
    }
    hex_string(&code)
}

/// Token derivation is a function of its inputs: the same credentials under
/// the same key always give the same token, of the one fixed shape.
pub proof fn lemma_derivation_deterministic(
    primary: Seq<char>,
    secondary: Seq<char>,
    key: Seq<char>,
    primary2: Seq<char>,
    secondary2: Seq<char>,
    key2: Seq<char>,
)
    requires
        primary == primary2,
        secondary == secondary2,
        key == key2,
    ensures
        token_of(primary, secondary, key) == token_of(primary2, secondary2, key2),
{
}

} // verus!
