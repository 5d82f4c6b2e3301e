//! Password digests: the MD5 digest of the password's UTF-8 bytes, written
//! as thirty-two lower-case hexadecimal digits.

use vstd::prelude::*;
use vstd::utf8::encode_utf8;

verus! {

/// The sixteen bytes that `md5::compute` returns for `data`.
pub uninterp spec fn md5_digest(data: Seq<u8>) -> Seq<u8>;

/// Calls `md5::compute` on `data` and hands back the bytes of the digest.
///
/// Trusted: the result is the digest that the `md5` crate computes, a
/// function of the input bytes alone. Nothing else is claimed of it.
#[verifier::external_body]
fn md5_compute(data: &[u8]) -> (digest: [u8; 16])
    ensures
        digest@ == md5_digest(data@),
{
    md5::compute(data).0
}

/// The lower-case hexadecimal digit that stands for `n`, for `0 <= n < 16`.
pub open spec fn hex_digit(n: int) -> char {
    seq!['0', '1', '2', '3', '4', '5', '6', '7', '8', '9', 'a', 'b', 'c', 'd', 'e', 'f'][n]
}

/// Whether `c` is one of the sixteen lower-case hexadecimal digits.
pub open spec fn is_hex_digit(c: char) -> bool {
    exists|n: int| 0 <= n < 16 && c == #[trigger] hex_digit(n)
}

/// The lower-case hexadecimal text of `bytes`: two digits for each byte,
/// the high half first.
pub open spec fn hex_lower(bytes: Seq<u8>) -> Seq<char> {
    Seq::new(
        2 * bytes.len(),
        |i: int|
            if i % 2 == 0 {
                hex_digit(bytes[i / 2] as int / 16)
            } else {
                hex_digit(bytes[i / 2] as int % 16)
            },
    )
}

/// Whether `text` has the form of a stored digest: thirty-two lower-case
/// hexadecimal digits.
pub open spec fn is_digest_text(text: Seq<char>) -> bool {
    &&& text.len() == 32
    &&& forall|i: int| 0 <= i < text.len() ==> is_hex_digit(#[trigger] text[i])
}

/// The digest text stored for `password`.
pub open spec fn password_hash(password: Seq<char>) -> Seq<char> {
    hex_lower(md5_digest(encode_utf8(password)))
}

/// The one-character text of the hexadecimal digit for `n`.
fn digit_text(n: u8) -> (text: &'static str)
    requires
        n < 16,
    ensures
        text@ == seq![hex_digit(n as int)],
{
    proof {
        reveal_strlit("0");
        reveal_strlit("1");
        reveal_strlit("2");
        reveal_strlit("3");
        reveal_strlit("4");
        reveal_strlit("5");
        reveal_strlit("6");
        reveal_strlit("7");
        reveal_strlit("8");
        reveal_strlit("9");
        reveal_strlit("a");
        reveal_strlit("b");
        reveal_strlit("c");
        reveal_strlit("d");
        reveal_strlit("e");
        reveal_strlit("f");
    }
    let text = match n {
        0 => "0",
        1 => "1",
        2 => "2",
        3 => "3",
        4 => "4",
        5 => "5",
        6 => "6",
        7 => "7",
        8 => "8",
        9 => "9",
        10 => "a",
        11 => "b",
        12 => "c",
        13 => "d",
        14 => "e",
        _ => "f",
    };
    assert(text@ =~= seq![hex_digit(n as int)]);
    text
}

/// Writes `bytes` as lower-case hexadecimal text.
pub fn to_hex(bytes: &[u8]) -> (text: String)
    ensures
        text@ == hex_lower(bytes@),
{
    let mut text = String::new();
    let mut i: usize = 0;
    while i < bytes.len()
        invariant
            i <= bytes.len(),
            text@ == hex_lower(bytes@.take(i as int)),
        decreases bytes.len() - i,
    {
        let byte: u8 = bytes[i];
        text.append(digit_text(byte / 16));
        text.append(digit_text(byte % 16));
        proof {
            let done = bytes@.take(i as int);
            let next = bytes@.take(i as int + 1);
            assert(next =~= done.push(byte));
            assert(text@ =~= hex_lower(next));
        }
        i += 1;
    }
    assert(bytes@.take(i as int) =~= bytes@);
    text
}

/// The hexadecimal text of any bytes holds two digits for each byte, and
/// nothing but hexadecimal digits.
pub proof fn lemma_hex_lower_form(bytes: Seq<u8>)
    ensures
        hex_lower(bytes).len() == 2 * bytes.len(),
        forall|i: int|
            0 <= i < hex_lower(bytes).len() ==> is_hex_digit(#[trigger] hex_lower(bytes)[i]),
{
    assert forall|i: int| 0 <= i < hex_lower(bytes).len() implies is_hex_digit(
        #[trigger] hex_lower(bytes)[i],
    ) by {
        let byte = bytes[i / 2] as int;
        let n = if i % 2 == 0 {
            byte / 16
        } else {
            byte % 16
        };
        assert(0 <= n < 16);
        assert(hex_lower(bytes)[i] == hex_digit(n));
    }
}

/// Computes the digest text under which `password` is stored and looked up.
pub fn hash_password(password: &str) -> (hash: String)
    ensures
        hash@ == password_hash(password@),
        is_digest_text(hash@),
{
    let digest = md5_compute(password.as_bytes());
    proof {
        lemma_hex_lower_form(digest@);
    }
    to_hex(digest.as_slice())
}

} // verus!
