use vstd::prelude::*;
use vstd::string::*;
use crate::error::GeneticsError;

verus! {

/// An opaque 16-bit marker identifier.
pub type Protein = u16;

/// The members of `set` that lie below `hi`, in ascending order.
pub open spec fn members_below(set: Set<u16>, hi: int) -> Seq<u16>
    decreases hi,
{
    if hi <= 0 {
        Seq::empty()
    } else if set.contains((hi - 1) as u16) {
        members_below(set, hi - 1).push((hi - 1) as u16)
    } else {
        members_below(set, hi - 1)
    }
}

/// The canonical form of a protein list: its distinct elements in ascending
/// order. It depends on the set of elements alone.
pub open spec fn canonical(proteins: Seq<u16>) -> Seq<u16> {
    members_below(proteins.to_set(), 65536)
}

/// Every element is smaller than the one after it.
pub open spec fn strictly_ascending(s: Seq<u16>) -> bool {
    forall|i: int, j: int| 0 <= i < j < s.len() ==> s[i] < s[j]
}

/// The high byte of a protein.
pub open spec fn high_byte(p: u16) -> u8 {
    (p / 256) as u8
}

/// The low byte of a protein.
pub open spec fn low_byte(p: u16) -> u8 {
    (p % 256) as u8
}

/// The byte serialization of a protein sequence: each value as two bytes,
/// big-endian, concatenated without delimiter.
pub open spec fn encoding(proteins: Seq<u16>) -> Seq<u8> {
    Seq::new(
        2 * proteins.len(),
        |i: int| if i % 2 == 0 { high_byte(proteins[i / 2]) } else { low_byte(proteins[i / 2]) },
    )
}

/// The value of a lowercase hexadecimal digit, and 16 for any other character.
pub open spec fn hex_value(c: char) -> int {
    if c == '0' { 0 } else if c == '1' { 1 } else if c == '2' { 2 } else if c == '3' { 3 }
    else if c == '4' { 4 } else if c == '5' { 5 } else if c == '6' { 6 } else if c == '7' { 7 }
    else if c == '8' { 8 } else if c == '9' { 9 } else if c == 'a' { 10 } else if c == 'b' { 11 }
    else if c == 'c' { 12 } else if c == 'd' { 13 } else if c == 'e' { 14 } else if c == 'f' { 15 }
    else { 16 }
}

/// Whether `c` is one of `0`..`9`, `a`..`f`.
pub open spec fn is_hex_digit(c: char) -> bool {
    hex_value(c) < 16
}

/// The bytes that a string of hexadecimal digit pairs stands for.
pub open spec fn hex_decoded(hex: Seq<char>) -> Seq<u8> {
    Seq::new(
        hex.len() / 2,
        |i: int| (16 * hex_value(hex[2 * i]) + hex_value(hex[2 * i + 1])) as u8,
    )
}

/// The lowercase hexadecimal SHA-256 digest of a byte string, as the `sha256`
/// crate computes it.
pub uninterp spec fn sha256_hex(bytes: Seq<u8>) -> Seq<char>;

/// The digest of a protein sequence in its 64-character hexadecimal form.
pub open spec fn digest_hex(canonical_form: Seq<u16>) -> Seq<char> {
    sha256_hex(encoding(canonical_form))
}

/// The digest of a protein sequence as 32 raw bytes.
pub open spec fn digest_bytes(canonical_form: Seq<u16>) -> Seq<u8> {
    hex_decoded(digest_hex(canonical_form))
}

/// A 256-bit digest, held both in its interchange form (64 hexadecimal
/// characters) and as raw bytes.
#[derive(Clone, Debug, PartialEq, Eq)]
pub struct Digest {
    pub hex: String,
    pub bytes: Vec<u8>,
}

/// `members_below` lists exactly the members below `hi`, each once and in
/// ascending order.
pub proof fn lemma_members_below(set: Set<u16>, hi: int)
    requires
        0 <= hi <= 65536,
    ensures
        forall|v: u16| #[trigger]
            members_below(set, hi).contains(v) <==> (set.contains(v) && v < hi),
        strictly_ascending(members_below(set, hi)),
        members_below(set, hi).len() <= hi,
    decreases hi,
{
    if hi > 0 {
        lemma_members_below(set, hi - 1);
        let prev = members_below(set, hi - 1);
        let top = (hi - 1) as u16;
        let cur = members_below(set, hi);
        if set.contains(top) {
            assert(cur == prev.push(top));
            assert forall|v: u16| #[trigger] cur.contains(v) <==> (set.contains(v) && v < hi) by {
                if cur.contains(v) {
                    let i = choose|i: int| 0 <= i < cur.len() && cur[i] == v;
                    if i < prev.len() {
                        assert(prev[i] == v);
                        assert(prev.contains(v));
                    }
                }
                if set.contains(v) && v < hi {
                    if v == top {
                        assert(cur[prev.len() as int] == v);
                    } else {
                        assert(prev.contains(v));
                        let i = choose|i: int| 0 <= i < prev.len() && prev[i] == v;
                        assert(cur[i] == v);
                    }
                }
            }
            assert forall|i: int, j: int| 0 <= i < j < cur.len() implies cur[i] < cur[j] by {
                let a = prev[i];
                assert(cur[i] == a);
                assert(prev.contains(a));
                assert(a < hi - 1);
                if j < prev.len() {
                    assert(prev[i] < prev[j]);
                } else {
                    assert(cur[j] == top);
                }
            }
        }
    }
}

/// The canonical form is strictly ascending and holds exactly the elements
/// of the list it was made from.
pub proof fn lemma_canonical(proteins: Seq<u16>)
    ensures
        strictly_ascending(canonical(proteins)),
        forall|v: u16| canonical(proteins).contains(v) <==> proteins.contains(v),
        canonical(proteins).len() <= 65536,
        proteins.len() > 0 ==> canonical(proteins).len() > 0,
{
    let set = proteins.to_set();
    lemma_members_below(set, 65536);
    assert forall|v: u16| canonical(proteins).contains(v) <==> proteins.contains(v) by {
        assert(set.contains(v) <==> proteins.contains(v));
        assert(members_below(set, 65536).contains(v) <==> (set.contains(v) && v < 65536));
    }
    if proteins.len() > 0 {
        assert(proteins.contains(proteins[0]));
        assert(canonical(proteins).contains(proteins[0]));
    }
}

/// Two lists with the same elements have the same canonical form.
pub proof fn lemma_canonical_of_same_elements(a: Seq<u16>, b: Seq<u16>)
    requires
        forall|v: u16| a.contains(v) <==> b.contains(v),
    ensures
        canonical(a) == canonical(b),
{
    assert(a.to_set() =~= b.to_set());
}

/// A canonical form is its own canonical form.
pub proof fn lemma_canonical_is_fixed(a: Seq<u16>)
    ensures
        canonical(canonical(a)) == canonical(a),
{
    lemma_canonical(a);
    lemma_canonical_of_same_elements(canonical(a), a);
}

/// A table of 65536 flags: the flag at `v` tells whether `v` occurs in the
/// list.
pub fn presence(proteins: &Vec<Protein>) -> (marks: Vec<bool>)
    ensures
        marks@.len() == 65536,
        forall|v: u16| #[trigger] marks@[v as int] == proteins@.contains(v),
{
    let mut marks: Vec<bool> = Vec::new();
    let mut k: usize = 0;
    while k < 65536
        invariant
            k <= 65536,
            marks@.len() == k,
            forall|i: int| 0 <= i < k ==> !marks@[i],
        decreases 65536 - k,
    {
        marks.push(false);
        k += 1;
    }
    let mut n: usize = 0;
    while n < proteins.len()
        invariant
            n <= proteins@.len(),
            marks@.len() == 65536,
            forall|v: u16| #[trigger]
                marks@[v as int] == (exists|j: int| 0 <= j < n && proteins@[j] == v),
        decreases proteins@.len() - n,
    {
        let p: u16 = proteins[n];
        let ghost before = marks@;
        marks.set(p as usize, true);
        proof {
            assert forall|v: u16| #[trigger]
                marks@[v as int] == (exists|j: int| 0 <= j < n + 1 && proteins@[j] == v) by {
                if v == p {
                    assert(proteins@[n as int] == v);
                } else {
                    assert(marks@[v as int] == before[v as int]);
                }
            }
        }
        n += 1;
    }
    marks
}

/// Deduplicates and sorts ascending; an empty list gives an empty form.
pub fn canonical_form(proteins: &Vec<Protein>) -> (out: Vec<Protein>)
    ensures
        out@ == canonical(proteins@),
        strictly_ascending(out@),
        forall|v: u16| out@.contains(v) <==> proteins@.contains(v),
        out@.len() <= 65536,
{
    let marks = presence(proteins);
    let mut out: Vec<Protein> = Vec::new();
    let mut v: usize = 0;
    while v < 65536
        invariant
            v <= 65536,
            marks@.len() == 65536,
            forall|w: u16| #[trigger] marks@[w as int] == proteins@.contains(w),
            out@ == members_below(proteins@.to_set(), v as int),
        decreases 65536 - v,
    {
        let p: u16 = v as u16;
        assert(marks@[p as int] == proteins@.contains(p));
        assert(proteins@.to_set().contains(p) == proteins@.contains(p));
        if marks[v] {
            out.push(p);
        }
        v += 1;
    }
    proof {
        lemma_canonical(proteins@);
    }
    out
}

/// Brings a protein list into canonical form: deduplicated and sorted
/// ascending by numeric value. An empty list is rejected.
pub fn canonicalize(proteins: &Vec<Protein>) -> (res: Result<Vec<Protein>, GeneticsError>)
    ensures
        proteins@.len() == 0 ==> res matches Err(GeneticsError::EmptyProteinSet),
        proteins@.len() > 0 ==> (res matches Ok(c) && c@ == canonical(proteins@)
            && strictly_ascending(c@) && 0 < c@.len() <= 65536
            && forall|v: u16| c@.contains(v) <==> proteins@.contains(v)),
{
    if proteins.len() == 0 {
        return Err(GeneticsError::EmptyProteinSet);
    }
    let out = canonical_form(proteins);
    proof {
        lemma_canonical(proteins@);
    }
    Ok(out)
}

/// Serializes a protein sequence: two bytes per value, big-endian, in the
/// order given.
pub fn encode(proteins: &Vec<Protein>) -> (bytes: Vec<u8>)
    requires
        2 * proteins@.len() <= usize::MAX,
    ensures
        bytes@ == encoding(proteins@),
{
    let mut bytes: Vec<u8> = Vec::new();
    let mut n: usize = 0;
    while n < proteins.len()
        invariant
            n <= proteins@.len(),
            2 * proteins@.len() <= usize::MAX,
            bytes@.len() == 2 * n,
            forall|j: int| 0 <= j < n ==> bytes@[2 * j] == high_byte(#[trigger] proteins@[j])
                && bytes@[2 * j + 1] == low_byte(proteins@[j]),
        decreases proteins@.len() - n,
    {
        let p: u16 = proteins[n];
        bytes.push((p / 256) as u8);
        bytes.push((p % 256) as u8);
        n += 1;
    }
    proof {
        assert forall|i: int| 0 <= i < bytes@.len() implies bytes@[i] == encoding(proteins@)[i] by {
            let j = i / 2;
            assert(0 <= j < proteins@.len());
            assert(bytes@[2 * j] == high_byte(proteins@[j]));
            assert(i == 2 * j || i == 2 * j + 1);
        }
        assert(bytes@ =~= encoding(proteins@));
    }
    bytes
}

/// The value of one lowercase hexadecimal digit.
pub fn hex_digit(c: char) -> (v: u8)
    requires
        is_hex_digit(c),
    ensures
        v == hex_value(c),
{
    if c == '0' { 0 } else if c == '1' { 1 } else if c == '2' { 2 } else if c == '3' { 3 }
    else if c == '4' { 4 } else if c == '5' { 5 } else if c == '6' { 6 } else if c == '7' { 7 }
    else if c == '8' { 8 } else if c == '9' { 9 } else if c == 'a' { 10 } else if c == 'b' { 11 }
    else if c == 'c' { 12 } else if c == 'd' { 13 } else if c == 'e' { 14 } else { 15 }
}

/// Calls `sha256::digest` on the bytes. The crate hashes them with SHA-256
/// and returns the 32-byte result in lowercase hexadecimal, so the string has
/// 64 characters, all of them hexadecimal digits; which digits is left to the
/// name `sha256_hex`.
#[verifier::external_body]
fn sha256_of(bytes: &Vec<u8>) -> (hex: String)
    ensures
        hex@ == sha256_hex(bytes@),
        hex@.len() == 64,
        forall|i: int| 0 <= i < 64 ==> is_hex_digit(#[trigger] hex@[i]),
{
    sha256::digest(bytes)
}

/// Reads 64 hexadecimal digits as 32 bytes.
pub fn decode_digest(hex: &String) -> (bytes: Vec<u8>)
    requires
        hex@.len() == 64,
        forall|i: int| 0 <= i < 64 ==> is_hex_digit(#[trigger] hex@[i]),
    ensures
        bytes@ == hex_decoded(hex@),
        bytes@.len() == 32,
{
    let mut bytes: Vec<u8> = Vec::new();
    let mut n: usize = 0;
    while n < 32
        invariant
            n <= 32,
            hex@.len() == 64,
            forall|i: int| 0 <= i < 64 ==> is_hex_digit(#[trigger] hex@[i]),
            bytes@.len() == n,
            forall|j: int| 0 <= j < n ==> #[trigger] bytes@[j] == hex_decoded(hex@)[j],
        decreases 32 - n,
    {
        let hi: u8 = hex_digit(hex.as_str().get_char(2 * n));
        let lo: u8 = hex_digit(hex.as_str().get_char(2 * n + 1));
        bytes.push(16 * hi + lo);
        n += 1;
    }
    assert(bytes@ =~= hex_decoded(hex@));
    bytes
}

/// The digest of a canonical form: SHA-256 over its byte serialization.
pub fn digest(canonical_form: &Vec<Protein>) -> (d: Digest)
    requires
        2 * canonical_form@.len() <= usize::MAX,
    ensures
        d.hex@ == digest_hex(canonical_form@),
        d.bytes@ == digest_bytes(canonical_form@),
        d.bytes@.len() == 32,
{
    let bytes = encode(canonical_form);
    let hex = sha256_of(&bytes);
    let raw = decode_digest(&hex);
    Digest { hex, bytes: raw }
}

/// The hexadecimal digest of a protein list, taken over its canonical form.
/// An empty list is rejected.
pub fn hash_proteins(proteins: &Vec<Protein>) -> (res: Result<String, GeneticsError>)
    ensures
        proteins@.len() == 0 ==> res matches Err(GeneticsError::EmptyProteinSet),
        proteins@.len() > 0 ==> (res matches Ok(hex) && hex@ == digest_hex(canonical(proteins@))),
{
    match canonicalize(proteins) {
        Ok(c) => Ok(digest(&c).hex),
        Err(e) => Err(e),
    }
}

} // verus!
