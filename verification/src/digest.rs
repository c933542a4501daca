//! The hash that sums up the config maps and secrets a resource depends on:
//! the SHA-256 digest of their serialized forms, one after the other, written
//! in standard base64 with padding.

use base64::engine::general_purpose;
use base64::Engine;
use sha2::{Digest, Sha256};
use vstd::prelude::*;
use vstd::utf8::encode_utf8;

verus! {

/// The SHA-256 digest of `data`, as `sha2` computes it.
pub uninterp spec fn sha256(data: Seq<u8>) -> Seq<u8>;

/// The character of a 6-bit value in the standard base64 alphabet:
/// `A`..`Z`, `a`..`z`, `0`..`9`, `+`, `/`.
pub open spec fn base64_char(v: int) -> char {
    if v < 26 {
        (65 + v) as char
    } else if v < 52 {
        (97 + (v - 26)) as char
    } else if v < 62 {
        (48 + (v - 52)) as char
    } else if v == 62 {
        '+'
    } else {
        '/'
    }
}

/// `data` in the standard base64 alphabet with padding: each group of three
/// bytes as four characters of six bits each, most significant first, and a
/// last group of one or two bytes filled up with zero bits and padded with
/// `=` to four characters.
pub open spec fn base64_standard(data: Seq<u8>) -> Seq<char>
    decreases data.len(),
{
    if data.len() == 0 {
        Seq::empty()
    } else if data.len() == 1 {
        let a = data[0] as int;
        seq![base64_char(a / 4), base64_char((a % 4) * 16), '=', '=']
    } else if data.len() == 2 {
        let a = data[0] as int;
        let b = data[1] as int;
        seq![base64_char(a / 4), base64_char((a % 4) * 16 + b / 16), base64_char((b % 16) * 4), '=']
    } else {
        let a = data[0] as int;
        let b = data[1] as int;
        let c = data[2] as int;
        seq![
            base64_char(a / 4),
            base64_char((a % 4) * 16 + b / 16),
            base64_char((b % 16) * 4 + c / 64),
            base64_char(c % 64),
        ] + base64_standard(data.subrange(3, data.len() as int))
    }
}

/// Calls `sha2::Sha256::digest`. Claims that the digest is the function
/// `sha256` of the input and, as SHA-256 always yields, 32 bytes long.
#[verifier::external_body]
fn sha256_digest(data: &[u8]) -> (d: Vec<u8>)
    ensures
        d@ == sha256(data@),
        d@.len() == 32,
{
    Sha256::digest(data).to_vec()
}

/// Calls `base64::engine::general_purpose::STANDARD.encode`. Claims that the
/// result is the standard padded base64 form `base64_standard` of the input.
/// The input is short enough for the encoded length to fit in a `usize`
/// (otherwise the call panics).
#[verifier::external_body]
fn base64_encode(data: &[u8]) -> (s: String)
    requires
        data@.len() / 3 * 4 + 4 <= usize::MAX,
    ensures
        s@ == base64_standard(data@),
{
    general_purpose::STANDARD.encode(data)
}

/// The length of the padded base64 form of `n` bytes.
pub open spec fn base64_len(n: int) -> int {
    if n % 3 == 0 {
        n / 3 * 4
    } else {
        n / 3 * 4 + 4
    }
}

/// The padded base64 form of `n` bytes has `base64_len(n)` characters.
pub proof fn lemma_base64_len(data: Seq<u8>)
    ensures
        base64_standard(data).len() == base64_len(data.len() as int),
    decreases data.len(),
{
    if data.len() >= 3 {
        lemma_base64_len(data.subrange(3, data.len() as int));
    }
}

/// The UTF-8 bytes of the documents, one after the other.
pub open spec fn concat_bytes(docs: Seq<Seq<char>>) -> Seq<u8>
    decreases docs.len(),
{
    if docs.len() == 0 {
        Seq::empty()
    } else {
        concat_bytes(docs.drop_last()) + encode_utf8(docs.last())
    }
}

/// The hash of a sequence of serialized documents.
pub open spec fn documents_hash(docs: Seq<Seq<char>>) -> Seq<char> {
    base64_standard(sha256(concat_bytes(docs)))
}

/// The views of a sequence of strings.
pub open spec fn string_views(v: Seq<String>) -> Seq<Seq<char>> {
    v.map_values(|s: String| s@)
}

/// The views of a list of strings after a push.
pub proof fn lemma_string_views_push(v: Seq<String>, s: String)
    ensures
        string_views(v.push(s)) == string_views(v).push(s@),
{
    assert(string_views(v.push(s)) =~= string_views(v).push(s@));
}

/// Hashes the serialized documents `docs` in order: the base64 form of the
/// SHA-256 digest of their bytes, one after the other (44 characters).
pub fn hash_documents(docs: &Vec<String>) -> (h: String)
    ensures
        h@ == documents_hash(string_views(docs@)),
        h@.len() == 44,
{
    let mut bytes: Vec<u8> = Vec::new();
    let mut i: usize = 0;
    while i < docs.len()
        invariant
            0 <= i <= docs.len(),
            bytes@ == concat_bytes(string_views(docs@).take(i as int)),
        decreases docs.len() - i,
    {
        let b = docs[i].as_str().as_bytes();
        let mut j: usize = 0;
        let ghost before = bytes@;
        while j < b.len()
            invariant
                0 <= j <= b.len(),
                bytes@ == before + b@.take(j as int),
            decreases b.len() - j,
        {
            bytes.push(b[j]);
            j = j + 1;
            assert(b@.take(j as int) =~= b@.take(j - 1).push(b@[j - 1]));
        }
        assert(b@.take(b@.len() as int) =~= b@);
        assert(string_views(docs@).take(i + 1).drop_last() =~= string_views(docs@).take(i as int));
        i = i + 1;
    }
    assert(string_views(docs@).take(docs@.len() as int) =~= string_views(docs@));
    let digest = sha256_digest(bytes.as_slice());
    proof {
        lemma_base64_len(digest@);
    }
    base64_encode(digest.as_slice())
}

} // verus!
