use vstd::prelude::*;
use ecdsa::signature::hazmat::PrehashVerifier;

verus! {

/// The category of a species. Each is bound to one elliptic curve, of
/// decreasing key strength, and is fixed when an identity is created.
#[derive(Clone, Copy, Debug, PartialEq, Eq, Structural)]
pub enum Category {
    /// The highest tier, signing on NIST P-521.
    Human,
    /// The middle tier, signing on NIST P-384.
    Bacteria,
    /// The lowest tier, signing on NIST P-224.
    Virus,
}

/// The width in bytes of a scalar, and of a field element, of the category's
/// curve.
pub open spec fn scalar_len(category: Category) -> nat {
    match category {
        Category::Human => 66,
        Category::Bacteria => 48,
        Category::Virus => 28,
    }
}

/// The width of a signature: the two integers `r` and `s`, each as wide as a
/// scalar.
pub open spec fn signature_len(category: Category) -> nat {
    2 * scalar_len(category)
}

/// The width of an uncompressed curve point: a tag byte and two coordinates.
pub open spec fn point_len(category: Category) -> nat {
    1 + 2 * scalar_len(category)
}

/// The width in bytes of a scalar of the category's curve.
pub fn scalar_width(category: Category) -> (n: usize)
    ensures
        n == scalar_len(category),
{
    match category {
        Category::Human => 66,
        Category::Bacteria => 48,
        Category::Virus => 28,
    }
}

/// A digest brought to the width of a field element: the leftmost bytes of a
/// longer one, a shorter one padded with zero bytes on the left.
pub open spec fn fitted(digest: Seq<u8>, width: nat) -> Seq<u8> {
    if digest.len() >= width {
        digest.take(width as int)
    } else {
        Seq::new((width - digest.len()) as nat, |i: int| 0u8) + digest
    }
}

/// Brings a digest to the width of a field element.
pub fn fit_to_field(digest: &Vec<u8>, width: usize) -> (out: Vec<u8>)
    ensures
        out@ == fitted(digest@, width as nat),
        out@.len() == width,
{
    let mut out: Vec<u8> = Vec::new();
    let mut i: usize = 0;
    while i < width
        invariant
            i <= width,
            out@ == fitted(digest@, width as nat).take(i as int),
            fitted(digest@, width as nat).len() == width,
        decreases width - i,
    {
        if digest.len() >= width {
            out.push(digest[i]);
        } else if i < width - digest.len() {
            out.push(0u8);
        } else {
            out.push(digest[i - (width - digest.len())]);
        }
        assert(out@ =~= fitted(digest@, width as nat).take(i + 1));
        i += 1;
    }
    assert(out@ =~= fitted(digest@, width as nat));
    out
}

/// Drawn bytes as they are offered to the curve as a scalar. The order of
/// P-521 has 521 bits, so the seven unused bits of the leading byte are
/// cleared for the highest tier; the other curves fill their bytes.
pub open spec fn clamped(category: Category, bytes: Seq<u8>) -> Seq<u8> {
    if category == Category::Human && bytes.len() > 0 {
        bytes.update(0, bytes[0] % 2)
    } else {
        bytes
    }
}

/// Clears the bits of drawn bytes that the category's scalars do not use.
pub fn clamp(category: Category, bytes: Vec<u8>) -> (out: Vec<u8>)
    ensures
        out@ == clamped(category, bytes@),
        out@.len() == bytes@.len(),
{
    let mut out = bytes;
    match category {
        Category::Human => {
            if out.len() > 0 {
                let lead: u8 = out[0] % 2;
                out.set(0, lead);
            }
        },
        _ => {},
    }
    out
}

/// The uncompressed SEC1 encoding of the public point that belongs to a
/// secret scalar on NIST P-521, where the bytes are accepted as a secret key.
pub uninterp spec fn p521_public_point(secret: Seq<u8>) -> Option<Seq<u8>>;

/// The signature, as `r` and `s` side by side, that ECDSA on NIST P-521 gives
/// for a secret scalar, an ephemeral scalar and a field-wide digest, where
/// it gives one.
pub uninterp spec fn p521_signature(secret: Seq<u8>, nonce: Seq<u8>, prehash: Seq<u8>) -> Option<Seq<u8>>;

/// Whether ECDSA on NIST P-521 accepts a signature for a digest under a
/// public point.
pub uninterp spec fn p521_accepts(point: Seq<u8>, prehash: Seq<u8>, signature: Seq<u8>) -> bool;

/// Reads the secret with `p521::ecdsa::SigningKey::from_slice`, which refuses
/// zero and anything not below the curve's order, and encodes the matching
/// verifying key with `to_encoded_point(false)`: the tag byte and both
/// coordinates, 133 bytes.
#[verifier::external_body]
fn p521_derive(secret: &Vec<u8>) -> (res: Option<Vec<u8>>)
    ensures
        match res {
            Some(p) => p521_public_point(secret@) == Some(p@),
            None => p521_public_point(secret@) is None,
        },
        res matches Some(p) ==> p@.len() == 133,
{
    let key = p521::ecdsa::SigningKey::from_slice(secret).ok()?;
    let public = p521::ecdsa::VerifyingKey::from(&key);
    Some(public.to_encoded_point(false).as_bytes().to_vec())
}

/// Signs with `ecdsa::hazmat::sign_prehashed` on NIST P-521. The secret is
/// read with `SigningKey::from_slice`, the ephemeral scalar with
/// `NonZeroScalar::try_from`; either may refuse its bytes, and the signing
/// itself refuses a zero `r` or `s`. The signature comes back through
/// `to_bytes`, which is always 132 bytes. The digest must be as wide as a
/// field element, as `clone_from_slice` demands.
#[verifier::external_body]
fn p521_sign(secret: &Vec<u8>, nonce: &Vec<u8>, prehash: &Vec<u8>) -> (res: Option<Vec<u8>>)
    requires
        prehash@.len() == 66,
    ensures
        match res {
            Some(s) => p521_signature(secret@, nonce@, prehash@) == Some(s@),
            None => p521_signature(secret@, nonce@, prehash@) is None,
        },
        res matches Some(s) ==> s@.len() == 132,
{
    let key = p521::ecdsa::SigningKey::from_slice(secret).ok()?;
    let k = p521::NonZeroScalar::try_from(nonce.as_slice()).ok()?;
    let z = p521::FieldBytes::clone_from_slice(prehash);
    let d = key.as_nonzero_scalar();
    let signed = ecdsa::hazmat::sign_prehashed::<p521::NistP521, p521::Scalar>(d.as_ref(), *k.as_ref(), &z).ok()?;
    Some(signed.0.to_bytes().to_vec())
}

/// Verifies on NIST P-521: the point is read with
/// `VerifyingKey::from_sec1_bytes`, the signature with
/// `Signature::from_slice`, and `verify_prehash` decides. Bytes that either
/// parser refuses are not accepted.
#[verifier::external_body]
fn p521_verify(point: &Vec<u8>, prehash: &Vec<u8>, signature: &Vec<u8>) -> (ok: bool)
    ensures
        ok == p521_accepts(point@, prehash@, signature@),
{
    let key = p521::ecdsa::VerifyingKey::from_sec1_bytes(point);
    let sig = p521::ecdsa::Signature::from_slice(signature);
    match (key, sig) {
        (Ok(key), Ok(sig)) => key.verify_prehash(prehash, &sig).is_ok(),
        _ => false,
    }
}

/// The uncompressed SEC1 encoding of the public point that belongs to a
/// secret scalar on NIST P-384, where the bytes are accepted as a secret key.
pub uninterp spec fn p384_public_point(secret: Seq<u8>) -> Option<Seq<u8>>;

/// The signature, as `r` and `s` side by side, that ECDSA on NIST P-384 gives
/// for a secret scalar, an ephemeral scalar and a field-wide digest, where
/// it gives one.
pub uninterp spec fn p384_signature(secret: Seq<u8>, nonce: Seq<u8>, prehash: Seq<u8>) -> Option<Seq<u8>>;

/// Whether ECDSA on NIST P-384 accepts a signature for a digest under a
/// public point.
pub uninterp spec fn p384_accepts(point: Seq<u8>, prehash: Seq<u8>, signature: Seq<u8>) -> bool;

/// Reads the secret with `p384::ecdsa::SigningKey::from_slice`, which refuses
/// zero and anything not below the curve's order, and encodes the matching
/// verifying key with `to_encoded_point(false)`: the tag byte and both
/// coordinates, 97 bytes.
#[verifier::external_body]
fn p384_derive(secret: &Vec<u8>) -> (res: Option<Vec<u8>>)
    ensures
        match res {
            Some(p) => p384_public_point(secret@) == Some(p@),
            None => p384_public_point(secret@) is None,
        },
        res matches Some(p) ==> p@.len() == 97,
{
    let key = p384::ecdsa::SigningKey::from_slice(secret).ok()?;
    let public = p384::ecdsa::VerifyingKey::from(&key);
    Some(public.to_encoded_point(false).as_bytes().to_vec())
}

/// Signs with `ecdsa::hazmat::sign_prehashed` on NIST P-384. The secret is
/// read with `SigningKey::from_slice`, the ephemeral scalar with
/// `NonZeroScalar::try_from`; either may refuse its bytes, and the signing
/// itself refuses a zero `r` or `s`. The signature comes back through
/// `to_bytes`, which is always 96 bytes. The digest must be as wide as a
/// field element, as `clone_from_slice` demands.
#[verifier::external_body]
fn p384_sign(secret: &Vec<u8>, nonce: &Vec<u8>, prehash: &Vec<u8>) -> (res: Option<Vec<u8>>)
    requires
        prehash@.len() == 48,
    ensures
        match res {
            Some(s) => p384_signature(secret@, nonce@, prehash@) == Some(s@),
            None => p384_signature(secret@, nonce@, prehash@) is None,
        },
        res matches Some(s) ==> s@.len() == 96,
{
    let key = p384::ecdsa::SigningKey::from_slice(secret).ok()?;
    let k = p384::NonZeroScalar::try_from(nonce.as_slice()).ok()?;
    let z = p384::FieldBytes::clone_from_slice(prehash);
    let d = key.as_nonzero_scalar();
    let signed = ecdsa::hazmat::sign_prehashed::<p384::NistP384, p384::Scalar>(d.as_ref(), *k.as_ref(), &z).ok()?;
    Some(signed.0.to_bytes().to_vec())
}

/// Verifies on NIST P-384: the point is read with
/// `VerifyingKey::from_sec1_bytes`, the signature with
/// `Signature::from_slice`, and `verify_prehash` decides. Bytes that either
/// parser refuses are not accepted.
#[verifier::external_body]
fn p384_verify(point: &Vec<u8>, prehash: &Vec<u8>, signature: &Vec<u8>) -> (ok: bool)
    ensures
        ok == p384_accepts(point@, prehash@, signature@),
{
    let key = p384::ecdsa::VerifyingKey::from_sec1_bytes(point);
    let sig = p384::ecdsa::Signature::from_slice(signature);
    match (key, sig) {
        (Ok(key), Ok(sig)) => key.verify_prehash(prehash, &sig).is_ok(),
        _ => false,
    }
}

/// The uncompressed SEC1 encoding of the public point that belongs to a
/// secret scalar on NIST P-224, where the bytes are accepted as a secret key.
pub uninterp spec fn p224_public_point(secret: Seq<u8>) -> Option<Seq<u8>>;

/// The signature, as `r` and `s` side by side, that ECDSA on NIST P-224 gives
/// for a secret scalar, an ephemeral scalar and a field-wide digest, where
/// it gives one.
pub uninterp spec fn p224_signature(secret: Seq<u8>, nonce: Seq<u8>, prehash: Seq<u8>) -> Option<Seq<u8>>;

/// Whether ECDSA on NIST P-224 accepts a signature for a digest under a
/// public point.
pub uninterp spec fn p224_accepts(point: Seq<u8>, prehash: Seq<u8>, signature: Seq<u8>) -> bool;

/// Reads the secret with `p224::ecdsa::SigningKey::from_slice`, which refuses
/// zero and anything not below the curve's order, and encodes the matching
/// verifying key with `to_encoded_point(false)`: the tag byte and both
/// coordinates, 57 bytes.
#[verifier::external_body]
fn p224_derive(secret: &Vec<u8>) -> (res: Option<Vec<u8>>)
    ensures
        match res {
            Some(p) => p224_public_point(secret@) == Some(p@),
            None => p224_public_point(secret@) is None,
        },
        res matches Some(p) ==> p@.len() == 57,
{
    let key = p224::ecdsa::SigningKey::from_slice(secret).ok()?;
    let public = p224::ecdsa::VerifyingKey::from(&key);
    Some(public.to_encoded_point(false).as_bytes().to_vec())
}

/// Signs with `ecdsa::hazmat::sign_prehashed` on NIST P-224. The secret is
/// read with `SigningKey::from_slice`, the ephemeral scalar with
/// `NonZeroScalar::try_from`; either may refuse its bytes, and the signing
/// itself refuses a zero `r` or `s`. The signature comes back through
/// `to_bytes`, which is always 56 bytes. The digest must be as wide as a
/// field element, as `clone_from_slice` demands.
#[verifier::external_body]
fn p224_sign(secret: &Vec<u8>, nonce: &Vec<u8>, prehash: &Vec<u8>) -> (res: Option<Vec<u8>>)
    requires
        prehash@.len() == 28,
    ensures
        match res {
            Some(s) => p224_signature(secret@, nonce@, prehash@) == Some(s@),
            None => p224_signature(secret@, nonce@, prehash@) is None,
        },
        res matches Some(s) ==> s@.len() == 56,
{
    let key = p224::ecdsa::SigningKey::from_slice(secret).ok()?;
    let k = p224::NonZeroScalar::try_from(nonce.as_slice()).ok()?;
    let z = p224::FieldBytes::clone_from_slice(prehash);
    let d = key.as_nonzero_scalar();
    let signed = ecdsa::hazmat::sign_prehashed::<p224::NistP224, p224::Scalar>(d.as_ref(), *k.as_ref(), &z).ok()?;
    Some(signed.0.to_bytes().to_vec())
}

/// Verifies on NIST P-224: the point is read with
/// `VerifyingKey::from_sec1_bytes`, the signature with
/// `Signature::from_slice`, and `verify_prehash` decides. Bytes that either
/// parser refuses are not accepted.
#[verifier::external_body]
fn p224_verify(point: &Vec<u8>, prehash: &Vec<u8>, signature: &Vec<u8>) -> (ok: bool)
    ensures
        ok == p224_accepts(point@, prehash@, signature@),
{
    let key = p224::ecdsa::VerifyingKey::from_sec1_bytes(point);
    let sig = p224::ecdsa::Signature::from_slice(signature);
    match (key, sig) {
        (Ok(key), Ok(sig)) => key.verify_prehash(prehash, &sig).is_ok(),
        _ => false,
    }
}

/// The public point that belongs to a secret scalar of the category's curve.
pub open spec fn public_point(category: Category, secret: Seq<u8>) -> Option<Seq<u8>> {
    match category {
        Category::Human => p521_public_point(secret),
        Category::Bacteria => p384_public_point(secret),
        Category::Virus => p224_public_point(secret),
    }
}

/// The signature that the category's curve gives over a field-wide digest.
pub open spec fn signature_over(
    category: Category,
    secret: Seq<u8>,
    nonce: Seq<u8>,
    prehash: Seq<u8>,
) -> Option<Seq<u8>> {
    match category {
        Category::Human => p521_signature(secret, nonce, prehash),
        Category::Bacteria => p384_signature(secret, nonce, prehash),
        Category::Virus => p224_signature(secret, nonce, prehash),
    }
}

/// Whether the category's curve accepts the signature.
pub open spec fn accepts(
    category: Category,
    point: Seq<u8>,
    prehash: Seq<u8>,
    signature: Seq<u8>,
) -> bool {
    match category {
        Category::Human => p521_accepts(point, prehash, signature),
        Category::Bacteria => p384_accepts(point, prehash, signature),
        Category::Virus => p224_accepts(point, prehash, signature),
    }
}

/// Derives the public point of a secret scalar on the category's curve.
/// There is none where the curve refuses the bytes as a secret key.
pub fn derive_public(category: Category, secret: &Vec<u8>) -> (res: Option<Vec<u8>>)
    ensures
        match res {
            Some(p) => public_point(category, secret@) == Some(p@),
            None => public_point(category, secret@) is None,
        },
        res matches Some(p) ==> p@.len() == point_len(category),
{
    match category {
        Category::Human => p521_derive(secret),
        Category::Bacteria => p384_derive(secret),
        Category::Virus => p224_derive(secret),
    }
}

/// Signs a field-wide digest on the category's curve.
pub fn sign_prehash(
    category: Category,
    secret: &Vec<u8>,
    nonce: &Vec<u8>,
    prehash: &Vec<u8>,
) -> (res: Option<Vec<u8>>)
    requires
        prehash@.len() == scalar_len(category),
    ensures
        match res {
            Some(s) => signature_over(category, secret@, nonce@, prehash@) == Some(s@),
            None => signature_over(category, secret@, nonce@, prehash@) is None,
        },
        res matches Some(s) ==> s@.len() == signature_len(category),
{
    match category {
        Category::Human => p521_sign(secret, nonce, prehash),
        Category::Bacteria => p384_sign(secret, nonce, prehash),
        Category::Virus => p224_sign(secret, nonce, prehash),
    }
}

/// Checks a signature over a field-wide digest on the category's curve.
pub fn verify_prehash(
    category: Category,
    point: &Vec<u8>,
    prehash: &Vec<u8>,
    signature: &Vec<u8>,
) -> (ok: bool)
    ensures
        ok == accepts(category, point@, prehash@, signature@),
{
    match category {
        Category::Human => p521_verify(point, prehash, signature),
        Category::Bacteria => p384_verify(point, prehash, signature),
        Category::Virus => p224_verify(point, prehash, signature),
    }
}

} // verus!
