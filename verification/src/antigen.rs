use vstd::prelude::*;
use crate::codec::{canonical, canonical_form, digest, digest_bytes, presence, Protein};
use crate::curves::{
    accepts, fit_to_field, fitted, scalar_len, scalar_width, signature_len, verify_prehash,
    Category,
};
use crate::error::GeneticsError;
use crate::identity::{PublicKey, PublicKeyView};

verus! {

/// A signed presentation of a protein set. The proteins stand in the order
/// in which they were presented; the signature covers the digest of their
/// canonical form, so neither order nor repetition matters to it.
#[derive(Clone, Debug, PartialEq, Eq)]
pub struct Antigen {
    pub proteins: Vec<Protein>,
    pub signature: Vec<u8>,
}

/// An antigen as plain sequences.
pub struct AntigenView {
    pub proteins: Seq<u16>,
    pub signature: Seq<u8>,
}

impl View for Antigen {
    type V = AntigenView;

    open spec fn view(&self) -> AntigenView {
        AntigenView { proteins: self.proteins@, signature: self.signature@ }
    }
}

/// The outcome of recognition.
#[derive(Clone, Copy, Debug, PartialEq, Eq, Structural)]
pub enum Verdict {
    /// Validly signed, and every protein is in the self catalog.
    IsSelf,
    /// Validly signed, but some protein is not in the self catalog.
    NonSelf,
    /// Not validly signed: untrustworthy, whatever its proteins are.
    Rejected(GeneticsError),
}

/// What is signed for a protein list on a category's curve: the digest of
/// the canonical form, brought to the width of a field element.
pub open spec fn prehash_of(category: Category, proteins: Seq<u16>) -> Seq<u8> {
    fitted(digest_bytes(canonical(proteins)), scalar_len(category))
}

/// The result of verification. An antigen without proteins is malformed; a
/// signature whose width is not that of the key's category belongs to
/// another curve and is never checked mathematically; otherwise the curve
/// decides.
pub open spec fn verify_spec(
    antigen: AntigenView,
    key: PublicKeyView,
) -> Result<(), GeneticsError> {
    if antigen.proteins.len() == 0 {
        Err(GeneticsError::EmptyProteinSet)
    } else if antigen.signature.len() != signature_len(key.category) {
        Err(GeneticsError::CurveMismatch)
    } else if accepts(
        key.category,
        key.point,
        prehash_of(key.category, antigen.proteins),
        antigen.signature,
    ) {
        Ok(())
    } else {
        Err(GeneticsError::SignatureInvalid)
    }
}

/// The verdict on an antigen: rejected with the verifier's error where the
/// signature is not valid, and only then a matter of the catalog.
pub open spec fn classify_spec(
    antigen: AntigenView,
    key: PublicKeyView,
    catalog: Set<u16>,
) -> Verdict {
    match verify_spec(antigen, key) {
        Err(e) => Verdict::Rejected(e),
        Ok(_) => if antigen.proteins.to_set().subset_of(catalog) {
            Verdict::IsSelf
        } else {
            Verdict::NonSelf
        },
    }
}

/// The width in bytes of a signature of the category's curve.
pub fn signature_width(category: Category) -> (n: usize)
    ensures
        n == signature_len(category),
{
    2 * scalar_width(category)
}

/// Checks an antigen's signature against a public key. The digest is
/// recomputed from the canonical form of the presented proteins; no private
/// key is needed.
pub fn verify(antigen: &Antigen, public_key: &PublicKey) -> (res: Result<(), GeneticsError>)
    ensures
        res == verify_spec(antigen@, public_key@),
{
    if antigen.proteins.len() == 0 {
        return Err(GeneticsError::EmptyProteinSet);
    }
    let category = public_key.category;
    if antigen.signature.len() != signature_width(category) {
        return Err(GeneticsError::CurveMismatch);
    }
    let form = canonical_form(&antigen.proteins);
    let d = digest(&form);
    let prehash = fit_to_field(&d.bytes, scalar_width(category));
    if verify_prehash(category, &public_key.point, &prehash, &antigen.signature) {
        Ok(())
    } else {
        Err(GeneticsError::SignatureInvalid)
    }
}

/// Whether every protein of the list occurs in the catalog.
pub fn all_in_catalog(proteins: &Vec<Protein>, self_catalog: &Vec<Protein>) -> (all: bool)
    ensures
        all == proteins@.to_set().subset_of(self_catalog@.to_set()),
{
    let marks = presence(self_catalog);
    let form = canonical_form(proteins);
    let mut i: usize = 0;
    while i < form.len()
        invariant
            i <= form@.len(),
            marks@.len() == 65536,
            forall|v: u16| #[trigger] marks@[v as int] == self_catalog@.contains(v),
            forall|v: u16| form@.contains(v) <==> proteins@.contains(v),
            forall|j: int| 0 <= j < i ==> self_catalog@.contains(#[trigger] form@[j]),
        decreases form@.len() - i,
    {
        let p: u16 = form[i];
        assert(marks@[p as int] == self_catalog@.contains(p));
        if !marks[p as usize] {
            proof {
                assert(form@.contains(p));
                assert(proteins@.to_set().contains(p));
                assert(!self_catalog@.to_set().contains(p));
            }
            return false;
        }
        i += 1;
    }
    proof {
        assert forall|v: u16| proteins@.to_set().contains(v) implies self_catalog@.to_set().contains(
            v,
        ) by {
            assert(form@.contains(v));
            let j = choose|j: int| 0 <= j < form@.len() && form@[j] == v;
            assert(self_catalog@.contains(form@[j]));
        }
    }
    true
}

/// Decides whether an antigen is self. The signature is checked first, and
/// the catalog is consulted only for a valid one: an antigen that fails
/// verification is rejected with the verifier's error and never called
/// foreign.
pub fn classify(
    antigen: &Antigen,
    public_key: &PublicKey,
    self_catalog: &Vec<Protein>,
) -> (verdict: Verdict)
    ensures
        verdict == classify_spec(antigen@, public_key@, self_catalog@.to_set()),
{
    match verify(antigen, public_key) {
        Err(e) => Verdict::Rejected(e),
        Ok(_) => {
            if all_in_catalog(&antigen.proteins, self_catalog) {
                Verdict::IsSelf
            } else {
                Verdict::NonSelf
            }
        },
    }
}

} // verus!
