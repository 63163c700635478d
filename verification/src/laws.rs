use vstd::prelude::*;
use crate::antigen::{classify_spec, verify_spec, AntigenView, Verdict};
use crate::codec::{
    canonical, digest_bytes, digest_hex, lemma_canonical_is_fixed,
    lemma_canonical_of_same_elements,
};
use crate::curves::{point_len, signature_len};
use crate::error::GeneticsError;
use crate::identity::{exported, parsed, sign_spec, IdentityView, PublicKeyView};

verus! {

/// Whatever an identity signs, its own public key verifies, and the antigen
/// carries the proteins as they were presented.
pub proof fn law_signed_antigen_verifies(
    identity: IdentityView,
    proteins: Seq<u16>,
    drawn: Option<Seq<u8>>,
)
    requires
        sign_spec(identity, proteins, drawn) is Ok,
    ensures
        proteins.len() > 0,
        sign_spec(identity, proteins, drawn)->Ok_0.proteins == proteins,
        verify_spec(sign_spec(identity, proteins, drawn)->Ok_0, identity.public_key) == Ok::<
            (),
            GeneticsError,
        >(()),
{
}

/// An antigen that an identity signed over proteins that all lie in a
/// catalog is classified as self under the identity's public key.
pub proof fn law_signed_subset_is_self(
    identity: IdentityView,
    proteins: Seq<u16>,
    drawn: Option<Seq<u8>>,
    catalog: Set<u16>,
)
    requires
        sign_spec(identity, proteins, drawn) is Ok,
        proteins.to_set().subset_of(catalog),
    ensures
        classify_spec(sign_spec(identity, proteins, drawn)->Ok_0, identity.public_key, catalog)
            == Verdict::IsSelf,
{
}

/// An antigen that an identity signed over proteins of which at least one
/// is missing from a catalog is classified as non-self: validly signed, but
/// foreign.
pub proof fn law_signed_foreign_is_non_self(
    identity: IdentityView,
    proteins: Seq<u16>,
    drawn: Option<Seq<u8>>,
    catalog: Set<u16>,
    foreign: u16,
)
    requires
        sign_spec(identity, proteins, drawn) is Ok,
        proteins.contains(foreign),
        !catalog.contains(foreign),
    ensures
        classify_spec(sign_spec(identity, proteins, drawn)->Ok_0, identity.public_key, catalog)
            == Verdict::NonSelf,
{
    assert(proteins.to_set().contains(foreign));
}

/// Whenever verification succeeds, the verdict is a matter of the catalog
/// alone: self exactly if every presented protein is in it.
pub proof fn law_valid_is_self_or_non_self(
    antigen: AntigenView,
    key: PublicKeyView,
    catalog: Set<u16>,
)
    requires
        verify_spec(antigen, key) is Ok,
    ensures
        classify_spec(antigen, key, catalog) == Verdict::IsSelf <==> forall|v: u16|
            antigen.proteins.contains(v) ==> catalog.contains(v),
        classify_spec(antigen, key, catalog) == Verdict::NonSelf <==> exists|v: u16|
            antigen.proteins.contains(v) && !catalog.contains(v),
{
    let set = antigen.proteins.to_set();
    if set.subset_of(catalog) {
        assert forall|v: u16| antigen.proteins.contains(v) implies catalog.contains(v) by {
            assert(set.contains(v));
        }
    } else {
        let v = choose|v: u16| set.contains(v) && !catalog.contains(v);
        assert(antigen.proteins.contains(v) && !catalog.contains(v));
    }
}

/// Two protein lists with the same elements, in whatever order and however
/// often repeated, have the same canonical form and the same digest.
pub proof fn law_digest_ignores_order_and_repeats(a: Seq<u16>, b: Seq<u16>)
    requires
        forall|v: u16| a.contains(v) <==> b.contains(v),
    ensures
        canonical(a) == canonical(b),
        digest_hex(canonical(a)) == digest_hex(canonical(b)),
        digest_bytes(canonical(a)) == digest_bytes(canonical(b)),
{
    lemma_canonical_of_same_elements(a, b);
}

/// A permutation of a protein list has the same canonical form and digest.
pub proof fn law_digest_ignores_permutation(a: Seq<u16>, b: Seq<u16>)
    requires
        a.to_multiset() == b.to_multiset(),
    ensures
        canonical(a) == canonical(b),
        digest_hex(canonical(a)) == digest_hex(canonical(b)),
{
    broadcast use vstd::seq_lib::group_to_multiset_ensures;

    assert forall|v: u16| a.contains(v) <==> b.contains(v) by {
        assert(a.contains(v) <==> a.to_multiset().count(v) > 0);
        assert(b.contains(v) <==> b.to_multiset().count(v) > 0);
    }
    law_digest_ignores_order_and_repeats(a, b);
}

/// Canonicalizing twice changes nothing.
pub proof fn law_canonical_is_idempotent(a: Seq<u16>)
    ensures
        canonical(canonical(a)) == canonical(a),
{
    lemma_canonical_is_fixed(a);
}

/// An antigen that an identity of one category signed is never verified
/// against a key of another category: the answer is a curve mismatch, and
/// the classifier rejects with it whatever the catalog holds.
pub proof fn law_other_category_is_mismatch(
    identity: IdentityView,
    proteins: Seq<u16>,
    drawn: Option<Seq<u8>>,
    key: PublicKeyView,
    catalog: Set<u16>,
)
    requires
        sign_spec(identity, proteins, drawn) is Ok,
        key.category != identity.public_key.category,
    ensures
        verify_spec(sign_spec(identity, proteins, drawn)->Ok_0, key) == Err::<(), GeneticsError>(
            GeneticsError::CurveMismatch,
        ),
        classify_spec(sign_spec(identity, proteins, drawn)->Ok_0, key, catalog)
            == Verdict::Rejected(GeneticsError::CurveMismatch),
{
    let antigen = sign_spec(identity, proteins, drawn)->Ok_0;
    assert(antigen.signature.len() == signature_len(identity.public_key.category));
}

/// Signing an empty protein list fails as an empty protein set, whoever
/// signs and whatever was drawn; an antigen without proteins is rejected
/// for the same reason, whatever its signature.
pub proof fn law_empty_is_refused(
    identity: IdentityView,
    drawn: Option<Seq<u8>>,
    antigen: AntigenView,
    key: PublicKeyView,
    catalog: Set<u16>,
)
    requires
        antigen.proteins.len() == 0,
    ensures
        sign_spec(identity, Seq::<u16>::empty(), drawn) == Err::<AntigenView, GeneticsError>(
            GeneticsError::EmptyProteinSet,
        ),
        classify_spec(antigen, key, catalog) == Verdict::Rejected(GeneticsError::EmptyProteinSet),
{
}

/// A retired identity signs nothing.
pub proof fn law_retired_signs_nothing(
    identity: IdentityView,
    proteins: Seq<u16>,
    drawn: Option<Seq<u8>>,
)
    requires
        identity.retired,
    ensures
        sign_spec(identity, proteins, drawn) is Err,
        proteins.len() > 0 ==> sign_spec(identity, proteins, drawn) == Err::<
            AntigenView,
            GeneticsError,
        >(GeneticsError::IdentityRetired),
{
}

/// A key whose point has the width of its category reads back from its
/// exported form as itself.
pub proof fn law_export_then_parse(key: PublicKeyView)
    requires
        key.point.len() == point_len(key.category),
    ensures
        parsed(exported(key)) == Ok::<PublicKeyView, GeneticsError>(key),
{
    assert(exported(key).skip(1) =~= key.point);
}

} // verus!
