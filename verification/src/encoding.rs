use vstd::prelude::*;

verus! {

/// The character of the standard Base64 alphabet (RFC 4648) for the 6-bit
/// value `v`.
pub open spec fn base64_char(v: int) -> char {
    if v < 26 {
        (65 + v) as char
    } else if v < 52 {
        (97 + (v - 26)) as char
    } else if v < 62 {
        (48 + (v - 52)) as char
    } else if v == 62 {
        '+'
    } else {
        '/'
    }
}

/// Standard Base64 with `=` padding (RFC 4648, section 4): each group of
/// three bytes becomes four characters; a final group of one or two bytes is
/// padded.
pub open spec fn base64_encode(bytes: Seq<u8>) -> Seq<char>
    decreases bytes.len(),
{
    if bytes.len() == 0 {
        Seq::empty()
    } else if bytes.len() == 1 {
        let b0 = bytes[0] as int;
        seq![base64_char(b0 / 4), base64_char((b0 % 4) * 16), '=', '=']
    } else if bytes.len() == 2 {
        let b0 = bytes[0] as int;
        let b1 = bytes[1] as int;
        seq![
            base64_char(b0 / 4),
            base64_char((b0 % 4) * 16 + b1 / 16),
            base64_char((b1 % 16) * 4),
            '=',
        ]
    } else {
        let b0 = bytes[0] as int;
        let b1 = bytes[1] as int;
        let b2 = bytes[2] as int;
        seq![
            base64_char(b0 / 4),
            base64_char((b0 % 4) * 16 + b1 / 16),
            base64_char((b1 % 16) * 4 + b2 / 64),
            base64_char(b2 % 64),
        ] + base64_encode(bytes.subrange(3, bytes.len() as int))
    }
}

/// The SHA-1 digest of a byte string, as the `sha1` crate computes it.
pub uninterp spec fn sha1_digest(data: Seq<u8>) -> Seq<u8>;

/// Calls `base64::Engine::encode` on the `BASE64_STANDARD` engine of the
/// `base64` crate, which encodes with the standard alphabet and `=` padding;
/// the contract claims that the result is exactly `base64_encode`. The
/// crate panics where the length of the encoding does not fit in `usize`,
/// which the precondition rules out.
#[verifier::external_body]
pub(crate) fn base64_standard(bytes: &[u8]) -> (encoded: String)
    requires
        4 * ((bytes@.len() + 2) / 3) <= usize::MAX,
    ensures
        encoded@ == base64_encode(bytes@),
{
    base64::Engine::encode(&base64::prelude::BASE64_STANDARD, bytes)
}

/// Calls `sha1::Digest::digest` for `sha1::Sha1` (one `update` with `data`,
/// then `finalize`); the contract claims that the result is the named SHA-1
/// digest of `data` and has the 20 bytes of a SHA-1 output.
#[verifier::external_body]
pub(crate) fn sha1(data: &[u8]) -> (digest: Vec<u8>)
    ensures
        digest@ == sha1_digest(data@),
        digest@.len() == 20,
{
    <sha1::Sha1 as sha1::Digest>::digest(data).to_vec()
}

/// The concatenation of two byte strings.
pub fn concat_bytes(a: &[u8], b: &[u8]) -> (joined: Vec<u8>)
    ensures
        joined@ == a@ + b@,
{
    let mut joined: Vec<u8> = Vec::new();
    let na = a.len();
    let nb = b.len();
    for i in 0..na
        invariant
            na == a@.len(),
            joined@ == a@.subrange(0, i as int),
    {
        joined.push(a[i]);
        assert(joined@ =~= a@.subrange(0, i + 1));
    }
    for i in 0..nb
        invariant
            na == a@.len(),
            nb == b@.len(),
            joined@ == a@ + b@.subrange(0, i as int),
    {
        joined.push(b[i]);
        assert(joined@ =~= a@ + b@.subrange(0, i + 1));
    }
    assert(a@.subrange(0, na as int) =~= a@);
    assert(b@.subrange(0, nb as int) =~= b@);
    joined
}

} // verus!
