use vstd::prelude::*;
use crate::antigen::{prehash_of, verify, verify_spec, Antigen, AntigenView};
use crate::codec::{canonical, canonical_form, digest, lemma_canonical_is_fixed, Protein};
use crate::curves::{
    clamp, clamped, derive_public, fit_to_field, point_len, public_point, scalar_len,
    scalar_width, sign_prehash, signature_over, Category,
};
use crate::entropy::EntropySource;
use crate::error::GeneticsError;

verus! {

/// A public key: the category it belongs to and the uncompressed encoding
/// of its curve point.
#[derive(Clone, Debug, PartialEq, Eq)]
pub struct PublicKey {
    pub category: Category,
    pub point: Vec<u8>,
}

/// A public key as plain values.
pub struct PublicKeyView {
    pub category: Category,
    pub point: Seq<u8>,
}

impl View for PublicKey {
    type V = PublicKeyView;

    open spec fn view(&self) -> PublicKeyView {
        PublicKeyView { category: self.category, point: self.point@ }
    }
}

/// The byte that names a category in an exported key.
pub open spec fn category_tag(category: Category) -> u8 {
    match category {
        Category::Human => 0,
        Category::Bacteria => 1,
        Category::Virus => 2,
    }
}

/// The category that a tag byte names, if any.
pub open spec fn tag_category(tag: u8) -> Option<Category> {
    if tag == 0 {
        Some(Category::Human)
    } else if tag == 1 {
        Some(Category::Bacteria)
    } else if tag == 2 {
        Some(Category::Virus)
    } else {
        None
    }
}

/// The exported form of a key: the category's tag, then the point.
pub open spec fn exported(key: PublicKeyView) -> Seq<u8> {
    seq![category_tag(key.category)] + key.point
}

/// What an exported key reads back as. The bytes must start with a known
/// tag and go on with exactly as many bytes as a point of that category
/// has.
pub open spec fn parsed(bytes: Seq<u8>) -> Result<PublicKeyView, GeneticsError> {
    if bytes.len() == 0 {
        Err(GeneticsError::MalformedEncoding)
    } else {
        match tag_category(bytes[0]) {
            None => Err(GeneticsError::MalformedEncoding),
            Some(category) => if bytes.len() == 1 + point_len(category) {
                Ok(PublicKeyView { category, point: bytes.skip(1) })
            } else {
                Err(GeneticsError::MalformedEncoding)
            },
        }
    }
}

/// The width in bytes of an uncompressed point of the category's curve.
pub fn point_width(category: Category) -> (n: usize)
    ensures
        n == point_len(category),
{
    1 + 2 * scalar_width(category)
}

impl PublicKey {
    /// The key in a form fit for transmission: one byte for the category,
    /// then the point.
    pub fn export(&self) -> (bytes: Vec<u8>)
        ensures
            bytes@ == exported(self@),
    {
        let tag: u8 = match self.category {
            Category::Human => 0,
            Category::Bacteria => 1,
            Category::Virus => 2,
        };
        let mut bytes: Vec<u8> = Vec::new();
        bytes.push(tag);
        let mut i: usize = 0;
        while i < self.point.len()
            invariant
                i <= self.point@.len(),
                bytes@ == seq![tag] + self.point@.take(i as int),
            decreases self.point@.len() - i,
        {
            bytes.push(self.point[i]);
            assert(bytes@ =~= seq![tag] + self.point@.take(i + 1));
            i += 1;
        }
        assert(bytes@ =~= exported(self@));
        bytes
    }

    /// Reads an exported key back.
    pub fn parse(bytes: &Vec<u8>) -> (res: Result<PublicKey, GeneticsError>)
        ensures
            match res {
                Ok(key) => parsed(bytes@) == Ok::<PublicKeyView, GeneticsError>(key@),
                Err(e) => parsed(bytes@) == Err::<PublicKeyView, GeneticsError>(e),
            },
    {
        if bytes.len() == 0 {
            return Err(GeneticsError::MalformedEncoding);
        }
        let tag: u8 = bytes[0];
        let category = if tag == 0 {
            Category::Human
        } else if tag == 1 {
            Category::Bacteria
        } else if tag == 2 {
            Category::Virus
        } else {
            return Err(GeneticsError::MalformedEncoding);
        };
        if bytes.len() != 1 + point_width(category) {
            return Err(GeneticsError::MalformedEncoding);
        }
        let mut point: Vec<u8> = Vec::new();
        let mut i: usize = 1;
        while i < bytes.len()
            invariant
                1 <= i <= bytes@.len(),
                point@ == bytes@.subrange(1, i as int),
            decreases bytes@.len() - i,
        {
            point.push(bytes[i]);
            assert(point@ =~= bytes@.subrange(1, i + 1));
            i += 1;
        }
        assert(point@ =~= bytes@.skip(1));
        Ok(PublicKey { category, point })
    }
}

/// A genetic identity: a name, a key pair on the curve of its category, and
/// the catalog of proteins it recognises as its own. The private scalar
/// leaves the identity only inside a signature.
pub struct SpeciesIdentity {
    name: String,
    secret: Vec<u8>,
    public_key: PublicKey,
    self_proteins: Vec<Protein>,
    retired: bool,
}

/// An identity as plain values. Its category is that of its public key.
pub struct IdentityView {
    pub name: Seq<char>,
    pub secret: Seq<u8>,
    pub public_key: PublicKeyView,
    pub self_proteins: Seq<u16>,
    pub retired: bool,
}

impl View for SpeciesIdentity {
    type V = IdentityView;

    closed spec fn view(&self) -> IdentityView {
        IdentityView {
            name: self.name@,
            secret: self.secret@,
            public_key: self.public_key@,
            self_proteins: self.self_proteins@,
            retired: self.retired,
        }
    }
}

/// Whether an identity is sound. Its catalog is in canonical form and its
/// public point has the width of its category. While it is in use, the
/// public point is the one that belongs to its private scalar on the curve of
/// its category; once it is retired, the private scalar is all zero.
pub open spec fn sound(identity: IdentityView) -> bool {
    &&& canonical(identity.self_proteins) == identity.self_proteins
    &&& identity.public_key.point.len() == point_len(identity.public_key.category)
    &&& !identity.retired ==> public_point(identity.public_key.category, identity.secret)
        == Some(identity.public_key.point)
    &&& identity.retired ==> forall|i: int|
        0 <= i < identity.secret.len() ==> identity.secret[i] == 0
}

/// Drawn bytes as a plain value.
pub open spec fn drawn_view(drawn: Option<Vec<u8>>) -> Option<Seq<u8>> {
    match drawn {
        Some(bytes) => Some(bytes@),
        None => None,
    }
}

/// The identity that key material gives. Without material, or with
/// material that the curve refuses as a secret scalar, there is none.
pub open spec fn create_spec(
    category: Category,
    name: Seq<char>,
    self_proteins: Seq<u16>,
    drawn: Option<Seq<u8>>,
) -> Result<IdentityView, GeneticsError> {
    match drawn {
        None => Err(GeneticsError::RandomnessUnavailable),
        Some(bytes) => match public_point(category, clamped(category, bytes)) {
            None => Err(GeneticsError::RandomnessUnavailable),
            Some(point) => Ok(
                IdentityView {
                    name,
                    secret: clamped(category, bytes),
                    public_key: PublicKeyView { category, point },
                    self_proteins: canonical(self_proteins),
                    retired: false,
                },
            ),
        },
    }
}

/// The antigen that signing gives with the bytes drawn for the ephemeral
/// scalar. Signing checks its own work: an antigen is handed out only if
/// the identity's public key accepts it.
pub open spec fn sign_spec(
    identity: IdentityView,
    proteins: Seq<u16>,
    drawn: Option<Seq<u8>>,
) -> Result<AntigenView, GeneticsError> {
    let category = identity.public_key.category;
    if proteins.len() == 0 {
        Err(GeneticsError::EmptyProteinSet)
    } else if identity.retired {
        Err(GeneticsError::IdentityRetired)
    } else {
        match drawn {
            None => Err(GeneticsError::RandomnessUnavailable),
            Some(bytes) => match signature_over(
                category,
                identity.secret,
                clamped(category, bytes),
                prehash_of(category, proteins),
            ) {
                None => Err(GeneticsError::RandomnessUnavailable),
                Some(signature) => if verify_spec(
                    AntigenView { proteins, signature },
                    identity.public_key,
                ) is Ok {
                    Ok(AntigenView { proteins, signature })
                } else {
                    Err(GeneticsError::SignatureInvalid)
                },
            },
        }
    }
}

/// Whether a creation gave what `expected` says.
pub open spec fn created_as(
    res: Result<SpeciesIdentity, GeneticsError>,
    expected: Result<IdentityView, GeneticsError>,
) -> bool {
    match res {
        Ok(identity) => expected == Ok::<IdentityView, GeneticsError>(identity@),
        Err(e) => expected == Err::<IdentityView, GeneticsError>(e),
    }
}

/// Whether a signing gave what `expected` says.
pub open spec fn signed_as(
    res: Result<Antigen, GeneticsError>,
    expected: Result<AntigenView, GeneticsError>,
) -> bool {
    match res {
        Ok(antigen) => expected == Ok::<AntigenView, GeneticsError>(antigen@),
        Err(e) => expected == Err::<AntigenView, GeneticsError>(e),
    }
}

impl SpeciesIdentity {
    /// Makes an identity from key material that was drawn for it, or reports
    /// that none was drawn. The catalog is kept in canonical form; it may be
    /// empty.
    pub fn from_seed(
        category: Category,
        name: String,
        self_proteins: &Vec<Protein>,
        seed: Option<Vec<u8>>,
    ) -> (res: Result<SpeciesIdentity, GeneticsError>)
        ensures
            created_as(res, create_spec(category, name@, self_proteins@, drawn_view(seed))),
            res matches Ok(identity) ==> sound(identity@),
    {
        proof {
            lemma_canonical_is_fixed(self_proteins@);
        }
        match seed {
            None => Err(GeneticsError::RandomnessUnavailable),
            Some(bytes) => {
                let secret = clamp(category, bytes);
                match derive_public(category, &secret) {
                    None => Err(GeneticsError::RandomnessUnavailable),
                    Some(point) => Ok(
                        SpeciesIdentity {
                            name,
                            secret,
                            public_key: PublicKey { category, point },
                            self_proteins: canonical_form(self_proteins),
                            retired: false,
                        },
                    ),
                }
            },
        }
    }

    /// Creates an identity of the given category with fresh key material
    /// from the entropy source: as many bytes as a scalar of the curve has.
    /// With a fixed reserve the outcome is the one its next bytes give;
    /// whatever the source, the outcome is the one that some draw gives.
    pub fn create(
        category: Category,
        name: String,
        self_proteins: &Vec<Protein>,
        entropy: &mut EntropySource,
    ) -> (res: Result<SpeciesIdentity, GeneticsError>)
        ensures
            old(entropy).after_draw(scalar_len(category), final(entropy)),
            *old(entropy) is Fixed ==> created_as(
                res,
                create_spec(
                    category,
                    name@,
                    self_proteins@,
                    old(entropy).preview(scalar_len(category)),
                ),
            ),
            exists|drawn: Option<Seq<u8>>|
                created_as(res, #[trigger] create_spec(category, name@, self_proteins@, drawn)),
            res matches Ok(identity) ==> sound(identity@),
    {
        let seed = entropy.draw(scalar_width(category));
        let ghost drawn = drawn_view(seed);
        let res = SpeciesIdentity::from_seed(category, name, self_proteins, seed);
        assert(created_as(res, create_spec(category, name@, self_proteins@, drawn)));
        res
    }

    /// An identity of the highest tier.
    pub fn human(
        name: String,
        self_proteins: &Vec<Protein>,
        entropy: &mut EntropySource,
    ) -> (res: Result<SpeciesIdentity, GeneticsError>)
        ensures
            old(entropy).after_draw(scalar_len(Category::Human), final(entropy)),
            *old(entropy) is Fixed ==> created_as(
                res,
                create_spec(
                    Category::Human,
                    name@,
                    self_proteins@,
                    old(entropy).preview(scalar_len(Category::Human)),
                ),
            ),
            exists|drawn: Option<Seq<u8>>|
                created_as(
                    res,
                    #[trigger] create_spec(Category::Human, name@, self_proteins@, drawn),
                ),
            res matches Ok(identity) ==> sound(identity@),
    {
        SpeciesIdentity::create(Category::Human, name, self_proteins, entropy)
    }

    /// An identity of the middle tier.
    pub fn bacteria(
        name: String,
        self_proteins: &Vec<Protein>,
        entropy: &mut EntropySource,
    ) -> (res: Result<SpeciesIdentity, GeneticsError>)
        ensures
            old(entropy).after_draw(scalar_len(Category::Bacteria), final(entropy)),
            *old(entropy) is Fixed ==> created_as(
                res,
                create_spec(
                    Category::Bacteria,
                    name@,
                    self_proteins@,
                    old(entropy).preview(scalar_len(Category::Bacteria)),
                ),
            ),
            exists|drawn: Option<Seq<u8>>|
                created_as(
                    res,
                    #[trigger] create_spec(Category::Bacteria, name@, self_proteins@, drawn),
                ),
            res matches Ok(identity) ==> sound(identity@),
    {
        SpeciesIdentity::create(Category::Bacteria, name, self_proteins, entropy)
    }

    /// An identity of the lowest tier.
    pub fn virus(
        name: String,
        self_proteins: &Vec<Protein>,
        entropy: &mut EntropySource,
    ) -> (res: Result<SpeciesIdentity, GeneticsError>)
        ensures
            old(entropy).after_draw(scalar_len(Category::Virus), final(entropy)),
            *old(entropy) is Fixed ==> created_as(
                res,
                create_spec(
                    Category::Virus,
                    name@,
                    self_proteins@,
                    old(entropy).preview(scalar_len(Category::Virus)),
                ),
            ),
            exists|drawn: Option<Seq<u8>>|
                created_as(
                    res,
                    #[trigger] create_spec(Category::Virus, name@, self_proteins@, drawn),
                ),
            res matches Ok(identity) ==> sound(identity@),
    {
        SpeciesIdentity::create(Category::Virus, name, self_proteins, entropy)
    }

    /// The identity's label.
    pub fn name(&self) -> (name: &String)
        ensures
            name@ == self@.name,
    {
        &self.name
    }

    /// The identity's category.
    pub fn category(&self) -> (category: Category)
        ensures
            category == self@.public_key.category,
    {
        self.public_key.category
    }

    /// The identity's public key.
    pub fn public_key(&self) -> (key: &PublicKey)
        ensures
            key@ == self@.public_key,
    {
        &self.public_key
    }

    /// The identity's public key in its exported form.
    pub fn export_public_key(&self) -> (bytes: Vec<u8>)
        ensures
            bytes@ == exported(self@.public_key),
    {
        self.public_key.export()
    }

    /// The proteins that the identity recognises as its own, in canonical
    /// form.
    pub fn self_proteins(&self) -> (catalog: &Vec<Protein>)
        ensures
            catalog@ == self@.self_proteins,
    {
        &self.self_proteins
    }

    /// Whether the identity has been retired.
    pub fn is_retired(&self) -> (retired: bool)
        ensures
            retired == self@.retired,
    {
        self.retired
    }

    /// Retires the identity: every byte of the private scalar is set to
    /// zero, for good. Name, public key and catalog stay.
    pub fn retire(&mut self)
        ensures
            final(self)@.retired,
            final(self)@.secret == Seq::new(old(self)@.secret.len(), |i: int| 0u8),
            final(self)@.name == old(self)@.name,
            final(self)@.public_key == old(self)@.public_key,
            final(self)@.self_proteins == old(self)@.self_proteins,
            sound(old(self)@) ==> sound(final(self)@),
    {
        let n: usize = self.secret.len();
        let mut zeros: Vec<u8> = Vec::new();
        let mut i: usize = 0;
        while i < n
            invariant
                i <= n,
                zeros@ == Seq::new(i as nat, |k: int| 0u8),
            decreases n - i,
        {
            zeros.push(0u8);
            assert(zeros@ =~= Seq::new((i + 1) as nat, |k: int| 0u8));
            i += 1;
        }
        self.secret = zeros;
        self.retired = true;
    }

    /// Signs a protein list with the bytes that were drawn for the ephemeral
    /// scalar, or reports that none were drawn. The antigen carries the
    /// proteins as presented; the signature is over the digest of their
    /// canonical form. The identity is not changed.
    pub fn sign_with_nonce(
        &self,
        proteins: &Vec<Protein>,
        nonce: Option<Vec<u8>>,
    ) -> (res: Result<Antigen, GeneticsError>)
        ensures
            signed_as(res, sign_spec(self@, proteins@, drawn_view(nonce))),
    {
        if proteins.len() == 0 {
            return Err(GeneticsError::EmptyProteinSet);
        }
        if self.retired {
            return Err(GeneticsError::IdentityRetired);
        }
        let category = self.public_key.category;
        match nonce {
            None => Err(GeneticsError::RandomnessUnavailable),
            Some(bytes) => {
                let k = clamp(category, bytes);
                let form = canonical_form(proteins);
                let d = digest(&form);
                let prehash = fit_to_field(&d.bytes, scalar_width(category));
                match sign_prehash(category, &self.secret, &k, &prehash) {
                    None => Err(GeneticsError::RandomnessUnavailable),
                    Some(signature) => {
                        let antigen = Antigen { proteins: proteins.clone(), signature };
                        assert(antigen.proteins@ == proteins@);
                        match verify(&antigen, &self.public_key) {
                            Ok(_) => Ok(antigen),
                            Err(_) => Err(GeneticsError::SignatureInvalid),
                        }
                    },
                }
            },
        }
    }

    /// Signs a protein list, drawing the ephemeral scalar from the entropy
    /// source. An empty list and a retired identity are refused before
    /// anything is drawn. With a fixed reserve the outcome is the one its
    /// next bytes give; whatever the source, the outcome is the one that
    /// some draw gives.
    pub fn sign(
        &self,
        proteins: &Vec<Protein>,
        entropy: &mut EntropySource,
    ) -> (res: Result<Antigen, GeneticsError>)
        ensures
            proteins@.len() == 0 ==> res matches Err(GeneticsError::EmptyProteinSet),
            proteins@.len() > 0 && self@.retired ==> res matches Err(
                GeneticsError::IdentityRetired,
            ),
            proteins@.len() == 0 || self@.retired ==> *final(entropy) == *old(entropy),
            proteins@.len() > 0 && !self@.retired ==> old(entropy).after_draw(
                scalar_len(self@.public_key.category),
                final(entropy),
            ),
            *old(entropy) is Fixed ==> signed_as(
                res,
                sign_spec(
                    self@,
                    proteins@,
                    old(entropy).preview(scalar_len(self@.public_key.category)),
                ),
            ),
            exists|drawn: Option<Seq<u8>>|
                signed_as(res, #[trigger] sign_spec(self@, proteins@, drawn)),
            res matches Ok(antigen) ==> antigen@.proteins == proteins@ && verify_spec(
                antigen@,
                self@.public_key,
            ) is Ok,
    {
        if proteins.len() == 0 {
            assert(signed_as(
                Err(GeneticsError::EmptyProteinSet),
                sign_spec(self@, proteins@, None),
            ));
            return Err(GeneticsError::EmptyProteinSet);
        }
        if self.retired {
            assert(signed_as(
                Err(GeneticsError::IdentityRetired),
                sign_spec(self@, proteins@, None),
            ));
            return Err(GeneticsError::IdentityRetired);
        }
        let nonce = entropy.draw(scalar_width(self.public_key.category));
        let ghost drawn = drawn_view(nonce);
        let res = self.sign_with_nonce(proteins, nonce);
        assert(signed_as(res, sign_spec(self@, proteins@, drawn)));
        res
    }
}

} // verus!
