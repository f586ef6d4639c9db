use sha2::Digest;
use vstd::prelude::*;

use crate::error::Error;

verus! {

/// The sixteen lower case hexadecimal digits, in order of value.
pub open spec fn lower_digit(n: int) -> char {
    seq!['0', '1', '2', '3', '4', '5', '6', '7', '8', '9', 'a', 'b', 'c', 'd', 'e', 'f'][n]
}

pub open spec fn is_lower_hex(c: char) -> bool {
    ('0' <= c <= '9') || ('a' <= c <= 'f')
}

pub open spec fn is_upper_hex(c: char) -> bool {
    ('0' <= c <= '9') || ('A' <= c <= 'F')
}

/// Text that is a digest: 64 hexadecimal digits, all letters in one case.
pub open spec fn is_digest_text(s: Seq<char>) -> bool {
    &&& s.len() == 64
    &&& (forall|i: int| 0 <= i < s.len() ==> is_lower_hex(#[trigger] s[i]))
        || (forall|i: int| 0 <= i < s.len() ==> is_upper_hex(#[trigger] s[i]))
}

/// Lower case base 16 text of a byte string: two digits per byte, high half first.
pub open spec fn lower_hex(b: Seq<u8>) -> Seq<char>
    decreases b.len(),
{
    if b.len() == 0 {
        Seq::empty()
    } else {
        seq![lower_digit((b[0] / 16) as int), lower_digit((b[0] % 16) as int)] + lower_hex(b.drop_first())
    }
}

/// What SHA-256 gives for a byte string.
pub uninterp spec fn sha256_of(data: Seq<u8>) -> Seq<u8>;

/// Relies on sha2's `Sha256::digest`: the SHA-256 of the bytes, 32 bytes long.
#[verifier::external_body]
fn sha256(data: &[u8]) -> (r: Vec<u8>)
    ensures
        r@ == sha256_of(data@),
        r@.len() == 32,
{
    sha2::Sha256::digest(data).to_vec()
}

/// Relies on base16ct's `lower::encode_string`: two lower case digits per byte,
/// high half first. It panics on inputs longer than half of `usize::MAX`.
#[verifier::external_body]
fn encode_lower(b: &[u8]) -> (r: String)
    requires
        b@.len() <= usize::MAX / 2,
    ensures
        r@ == lower_hex(b@),
{
    base16ct::lower::encode_string(b)
}

/// Relies on `str::chars`: the characters of the text, in order.
#[verifier::external_body]
pub(crate) fn chars_of(s: &str) -> (r: Vec<char>)
    ensures
        r@ == s@,
{
    s.chars().collect()
}

/// Relies on collecting characters into a `String`: the same characters.
#[verifier::external_body]
pub(crate) fn string_of(c: &[char]) -> (r: String)
    ensures
        r@ == c@,
{
    c.iter().collect()
}

/// Whether `c[start..end]` is digest text.
pub(crate) fn check_digest(c: &Vec<char>, start: usize, end: usize) -> (r: bool)
    requires
        start <= end <= c@.len(),
    ensures
        r == is_digest_text(c@.subrange(start as int, end as int)),
{
    if end - start != 64 {
        return false;
    }
    let ghost s = c@.subrange(start as int, end as int);
    let mut lower = true;
    let mut upper = true;
    let mut i = start;
    while i < end
        invariant
            start <= i <= end <= c@.len(),
            s == c@.subrange(start as int, end as int),
            lower == (forall|j: int| 0 <= j < i - start ==> is_lower_hex(#[trigger] s[j])),
            upper == (forall|j: int| 0 <= j < i - start ==> is_upper_hex(#[trigger] s[j])),
        decreases end - i,
    {
        let ch = c[i];
        let digit = '0' <= ch && ch <= '9';
        let lo = digit || ('a' <= ch && ch <= 'f');
        let up = digit || ('A' <= ch && ch <= 'F');
        proof {
            assert(s[i - start] == ch);
            if !lo {
                assert(!is_lower_hex(s[i - start]));
            }
            if !up {
                assert(!is_upper_hex(s[i - start]));
            }
        }
        lower = lower && lo;
        upper = upper && up;
        i = i + 1;
    }
    lower || upper
}

/// The text of a digest: 64 hexadecimal digits, all letters in one case.
#[derive(Debug, Clone, PartialEq, Eq, Hash)]
pub struct Hash {
    text: String,
}

impl View for Hash {
    type V = Seq<char>;

    closed spec fn view(&self) -> Seq<char> {
        self.text@
    }
}

impl Hash {
    /// The invariant that every constructor establishes.
    pub open spec fn wf(&self) -> bool {
        is_digest_text(self@)
    }

    /// The digest that a file with these contents has.
    pub open spec fn spec_of_bytes(data: Seq<u8>) -> Seq<char> {
        lower_hex(sha256_of(data))
    }

    /// Builds a digest from its text; fails unless the text is digest text.
    pub fn from_str(s: &str) -> (r: Result<Hash, Error>)
        ensures
            is_digest_text(s@) <==> r is Ok,
            r matches Ok(h) ==> h@ == s@ && h.wf(),
            r matches Err(e) ==> e == Error::InvalidHash,
    {
        let c = chars_of(s);
        proof {
            assert(c@.subrange(0, c@.len() as int) == c@);
        }
        if check_digest(&c, 0, c.len()) {
            Ok(Hash { text: string_of(c.as_slice()) })
        } else {
            Err(Error::InvalidHash)
        }
    }

    /// Built from text already known to be digest text.
    pub(crate) fn from_chars(c: &[char]) -> (r: Hash)
        requires
            is_digest_text(c@),
        ensures
            r@ == c@,
            r.wf(),
    {
        Hash { text: string_of(c) }
    }

    /// The digest of a file's contents: SHA-256, in lower case hexadecimal.
    pub fn of_bytes(data: &[u8]) -> (r: Result<Hash, Error>)
        ensures
            r matches Ok(h) && h@ == Hash::spec_of_bytes(data@) && h.wf(),
    {
        let digest = sha256(data);
        let text = encode_lower(digest.as_slice());
        proof {
            lemma_lower_hex_is_digest(digest@);
        }
        Hash::from_str(text.as_str())
    }

    pub fn as_str(&self) -> (r: &str)
        ensures
            r@ == self@,
    {
        self.text.as_str()
    }

    /// Whether two digests are the same text.
    pub fn same(&self, other: &Hash) -> (r: bool)
        ensures
            r == (self@ == other@),
    {
        self.text == other.text
    }
}

pub proof fn lemma_lower_hex_len(b: Seq<u8>)
    ensures
        lower_hex(b).len() == 2 * b.len(),
        forall|i: int| 0 <= i < lower_hex(b).len() ==> is_lower_hex(#[trigger] lower_hex(b)[i]),
    decreases b.len(),
{
    if b.len() > 0 {
        lemma_lower_hex_len(b.drop_first());
        let tail = lower_hex(b.drop_first());
        assert forall|i: int| 0 <= i < lower_hex(b).len() implies is_lower_hex(
            #[trigger] lower_hex(b)[i],
        ) by {
            if i >= 2 {
                assert(lower_hex(b)[i] == tail[i - 2]);
            }
        }
    }
}

/// The lower case text of a 32 byte string is digest text.
pub proof fn lemma_lower_hex_is_digest(b: Seq<u8>)
    requires
        b.len() == 32,
    ensures
        is_digest_text(lower_hex(b)),
{
    lemma_lower_hex_len(b);
}

/// Hashing depends on the contents alone: the same bytes always give the same digest.
pub proof fn law_digest_deterministic(a: Seq<u8>, b: Seq<u8>)
    requires
        a == b,
    ensures
        Hash::spec_of_bytes(a) == Hash::spec_of_bytes(b),
{
}

} // verus!
