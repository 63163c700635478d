use genetics::antigen::{all_in_catalog, classify, signature_width, verify, Antigen, Verdict};
use genetics::curves::{derive_public, sign_prehash, verify_prehash, Category};
use genetics::entropy::EntropySource;
use genetics::error::GeneticsError;
use genetics::identity::{point_width, PublicKey, SpeciesIdentity};

fn seeded(category: Category, name: &str, catalog: &[u16], fill: u8) -> SpeciesIdentity {
    let width: usize = genetics::curves::scalar_width(category);
    match SpeciesIdentity::from_seed(
        category,
        String::from(name),
        &catalog.to_vec(),
        Some(vec![fill; width]),
    ) {
        Ok(identity) => identity,
        Err(e) => panic!("no identity: {:?}", e),
    }
}

fn error_of<T>(res: Result<T, GeneticsError>) -> GeneticsError {
    match res {
        Ok(_) => panic!("expected an error"),
        Err(e) => e,
    }
}

fn nonce(category: Category, fill: u8) -> Option<Vec<u8>> {
    Some(vec![fill; genetics::curves::scalar_width(category)])
}

#[test]
fn alice_signs_self_proteins() {
    let alice = seeded(Category::Human, "Alice", &[10, 20, 30], 7);
    let antigen = alice.sign_with_nonce(&vec![10u16, 20], nonce(Category::Human, 5)).unwrap();
    assert_eq!(antigen.proteins, vec![10u16, 20]);
    assert_eq!(antigen.signature.len(), 132);
    assert_eq!(verify(&antigen, alice.public_key()), Ok(()));
    assert_eq!(classify(&antigen, alice.public_key(), alice.self_proteins()), Verdict::IsSelf);
}

#[test]
fn alice_signs_a_foreign_protein() {
    let alice = seeded(Category::Human, "Alice", &[10, 20, 30], 7);
    let antigen = alice.sign_with_nonce(&vec![10u16, 99], nonce(Category::Human, 5)).unwrap();
    assert_eq!(verify(&antigen, alice.public_key()), Ok(()));
    assert_eq!(classify(&antigen, alice.public_key(), alice.self_proteins()), Verdict::NonSelf);
    let mut corrupted = antigen.clone();
    corrupted.signature[40] ^= 0xff;
    assert_eq!(verify(&corrupted, alice.public_key()), Err(GeneticsError::SignatureInvalid));
    assert_eq!(
        classify(&corrupted, alice.public_key(), alice.self_proteins()),
        Verdict::Rejected(GeneticsError::SignatureInvalid)
    );
}

#[test]
fn every_category_signs_and_verifies() {
    for (category, width) in
        [(Category::Human, 132usize), (Category::Bacteria, 96), (Category::Virus, 56)]
    {
        let identity = seeded(category, "cell", &[1, 2, 3], 9);
        assert_eq!(identity.category(), category);
        let antigen = identity.sign_with_nonce(&vec![3u16, 1], nonce(category, 4)).unwrap();
        assert_eq!(antigen.signature.len(), width);
        assert_eq!(signature_width(category), width);
        assert_eq!(verify(&antigen, identity.public_key()), Ok(()));
        assert_eq!(
            classify(&antigen, identity.public_key(), identity.self_proteins()),
            Verdict::IsSelf
        );
    }
}

#[test]
fn signature_covers_the_canonical_form() {
    let identity = seeded(Category::Bacteria, "cell", &[1, 2, 3], 9);
    let antigen = identity.sign_with_nonce(&vec![3u16, 1, 2], nonce(Category::Bacteria, 4)).unwrap();
    let reordered = Antigen { proteins: vec![1u16, 1, 2, 3, 3], signature: antigen.signature.clone() };
    assert_eq!(verify(&reordered, identity.public_key()), Ok(()));
    let other = Antigen { proteins: vec![1u16, 2], signature: antigen.signature.clone() };
    assert_eq!(verify(&other, identity.public_key()), Err(GeneticsError::SignatureInvalid));
}

#[test]
fn two_signatures_differ_and_both_verify() {
    let identity = seeded(Category::Virus, "phage", &[5], 3);
    let mut entropy = EntropySource::System;
    let first = identity.sign(&vec![5u16], &mut entropy).unwrap();
    let second = identity.sign(&vec![5u16], &mut entropy).unwrap();
    assert_ne!(first.signature, second.signature);
    assert_eq!(verify(&first, identity.public_key()), Ok(()));
    assert_eq!(verify(&second, identity.public_key()), Ok(()));
}

#[test]
fn fixed_reserve_makes_signing_repeatable() {
    let identity = seeded(Category::Virus, "phage", &[5], 3);
    let mut one = EntropySource::Fixed(vec![8u8; 56]);
    let a = identity.sign(&vec![5u16], &mut one).unwrap();
    let b = identity.sign(&vec![5u16], &mut one).unwrap();
    assert_eq!(a, b);
    assert_eq!(error_of(identity.sign(&vec![5u16], &mut one)), GeneticsError::RandomnessUnavailable);
    let c = identity.sign_with_nonce(&vec![5u16], Some(vec![8u8; 28])).unwrap();
    assert_eq!(a, c);
    let d = identity.sign_with_nonce(&vec![5u16], Some(vec![6u8; 28])).unwrap();
    assert_ne!(a.signature, d.signature);
    assert_eq!(verify(&d, identity.public_key()), Ok(()));
}

#[test]
fn flipping_a_signature_bit_invalidates() {
    let identity = seeded(Category::Virus, "phage", &[5, 6], 3);
    let antigen = identity.sign_with_nonce(&vec![6u16, 5], nonce(Category::Virus, 2)).unwrap();
    for position in 0usize..56 {
        let mut tampered = antigen.clone();
        tampered.signature[position] ^= 1u8 << (position % 8);
        assert_eq!(
            verify(&tampered, identity.public_key()),
            Err(GeneticsError::SignatureInvalid)
        );
    }
}

#[test]
fn high_tier_antigen_against_mid_tier_key_is_a_mismatch() {
    let human = seeded(Category::Human, "Alice", &[10, 20], 7);
    let bacterium = seeded(Category::Bacteria, "coli", &[10, 20], 7);
    let antigen = human.sign_with_nonce(&vec![10u16], nonce(Category::Human, 5)).unwrap();
    assert_eq!(verify(&antigen, bacterium.public_key()), Err(GeneticsError::CurveMismatch));
    assert_eq!(
        classify(&antigen, bacterium.public_key(), bacterium.self_proteins()),
        Verdict::Rejected(GeneticsError::CurveMismatch)
    );
    let back = bacterium.sign_with_nonce(&vec![10u16], nonce(Category::Bacteria, 5)).unwrap();
    assert_eq!(verify(&back, human.public_key()), Err(GeneticsError::CurveMismatch));
}

#[test]
fn another_identity_of_the_same_category_does_not_verify() {
    let one = seeded(Category::Bacteria, "one", &[1], 7);
    let two = seeded(Category::Bacteria, "two", &[1], 8);
    let antigen = one.sign_with_nonce(&vec![1u16], nonce(Category::Bacteria, 5)).unwrap();
    assert_eq!(verify(&antigen, two.public_key()), Err(GeneticsError::SignatureInvalid));
}

#[test]
fn empty_protein_list_is_refused() {
    let identity = seeded(Category::Virus, "phage", &[5], 3);
    let mut entropy = EntropySource::Fixed(vec![8u8; 28]);
    assert_eq!(error_of(identity.sign(&Vec::new(), &mut entropy)), GeneticsError::EmptyProteinSet);
    assert_eq!(entropy.draw(28), Some(vec![8u8; 28]));
    assert_eq!(
        error_of(identity.sign_with_nonce(&Vec::new(), None)),
        GeneticsError::EmptyProteinSet
    );
    let antigen = Antigen { proteins: Vec::new(), signature: vec![0u8; 56] };
    assert_eq!(verify(&antigen, identity.public_key()), Err(GeneticsError::EmptyProteinSet));
    assert_eq!(
        classify(&antigen, identity.public_key(), identity.self_proteins()),
        Verdict::Rejected(GeneticsError::EmptyProteinSet)
    );
}

#[test]
fn retired_identity_does_not_sign() {
    let mut identity = seeded(Category::Virus, "phage", &[5], 3);
    let before = identity.public_key().clone();
    assert!(!identity.is_retired());
    identity.retire();
    assert!(identity.is_retired());
    assert_eq!(identity.public_key(), &before);
    assert_eq!(identity.self_proteins(), &vec![5u16]);
    let mut entropy = EntropySource::Fixed(vec![8u8; 28]);
    assert_eq!(error_of(identity.sign(&vec![5u16], &mut entropy)), GeneticsError::IdentityRetired);
    assert_eq!(entropy.draw(28), Some(vec![8u8; 28]));
    assert_eq!(
        error_of(identity.sign_with_nonce(&vec![5u16], nonce(Category::Virus, 2))),
        GeneticsError::IdentityRetired
    );
    assert_eq!(
        error_of(identity.sign_with_nonce(&Vec::new(), nonce(Category::Virus, 2))),
        GeneticsError::EmptyProteinSet
    );
}

#[test]
fn signing_without_randomness_fails() {
    let identity = seeded(Category::Bacteria, "coli", &[5], 3);
    let mut short = EntropySource::Fixed(vec![8u8; 47]);
    assert_eq!(error_of(identity.sign(&vec![5u16], &mut short)), GeneticsError::RandomnessUnavailable);
    assert_eq!(
        error_of(identity.sign_with_nonce(&vec![5u16], None)),
        GeneticsError::RandomnessUnavailable
    );
    assert_eq!(
        error_of(identity.sign_with_nonce(&vec![5u16], Some(vec![0u8; 48]))),
        GeneticsError::RandomnessUnavailable
    );
}

#[test]
fn creation_needs_usable_key_material() {
    let catalog: Vec<u16> = vec![1, 2];
    let mut short = EntropySource::Fixed(vec![1u8; 65]);
    assert_eq!(
        error_of(SpeciesIdentity::create(Category::Human, String::from("x"), &catalog, &mut short)),
        GeneticsError::RandomnessUnavailable
    );
    assert_eq!(
        error_of(SpeciesIdentity::from_seed(Category::Virus, String::from("x"), &catalog, None)),
        GeneticsError::RandomnessUnavailable
    );
    assert_eq!(
        error_of(SpeciesIdentity::from_seed(
            Category::Virus,
            String::from("x"),
            &catalog,
            Some(vec![0u8; 28])
        )),
        GeneticsError::RandomnessUnavailable
    );
    assert_eq!(
        error_of(SpeciesIdentity::from_seed(
            Category::Bacteria,
            String::from("x"),
            &catalog,
            Some(vec![0xffu8; 48])
        )),
        GeneticsError::RandomnessUnavailable
    );
}

#[test]
fn creation_draws_one_scalar_from_the_source() {
    let mut reserve: Vec<u8> = vec![7u8; 66];
    reserve.extend_from_slice(&[1, 2, 3]);
    let mut entropy = EntropySource::Fixed(reserve);
    let alice =
        SpeciesIdentity::human(String::from("Alice"), &vec![30u16, 10, 20, 10], &mut entropy).unwrap_or_else(|e| panic!("{:?}", e));
    assert_eq!(entropy.draw(3), Some(vec![1u8, 2, 3]));
    assert_eq!(alice.name(), "Alice");
    assert_eq!(alice.category(), Category::Human);
    assert_eq!(alice.self_proteins(), &vec![10u16, 20, 30]);
    assert!(!alice.is_retired());
    let same = seeded(Category::Human, "Alice", &[10, 20, 30], 7);
    assert_eq!(alice.public_key(), same.public_key());
}

#[test]
fn system_entropy_creates_each_category() {
    let mut entropy = EntropySource::System;
    let catalog: Vec<u16> = vec![4, 2];
    let b = SpeciesIdentity::bacteria(String::from("coli"), &catalog, &mut entropy).unwrap_or_else(|e| panic!("{:?}", e));
    let v = SpeciesIdentity::virus(String::from("phage"), &catalog, &mut entropy).unwrap_or_else(|e| panic!("{:?}", e));
    assert_eq!(b.category(), Category::Bacteria);
    assert_eq!(v.category(), Category::Virus);
    assert_eq!(b.public_key().point.len(), 97);
    assert_eq!(v.public_key().point.len(), 57);
    let antigen = b.sign(&vec![2u16], &mut entropy).unwrap();
    assert_eq!(classify(&antigen, b.public_key(), b.self_proteins()), Verdict::IsSelf);
    assert_eq!(
        classify(&antigen, v.public_key(), v.self_proteins()),
        Verdict::Rejected(GeneticsError::CurveMismatch)
    );
}

#[test]
fn public_point_of_the_unit_scalar_is_the_generator() {
    let mut one: Vec<u8> = vec![0u8; 48];
    one[47] = 1;
    let point: Vec<u8> = derive_public(Category::Bacteria, &one).expect("a valid scalar");
    assert_eq!(point.len(), 97);
    assert_eq!(point[0], 4);
    let gx: [u8; 48] = [
        0xaa, 0x87, 0xca, 0x22, 0xbe, 0x8b, 0x05, 0x37, 0x8e, 0xb1, 0xc7, 0x1e, 0xf3, 0x20, 0xad,
        0x74, 0x6e, 0x1d, 0x3b, 0x62, 0x8b, 0xa7, 0x9b, 0x98, 0x59, 0xf7, 0x41, 0xe0, 0x82, 0x54,
        0x2a, 0x38, 0x55, 0x02, 0xf2, 0x5d, 0xbf, 0x55, 0x29, 0x6c, 0x3a, 0x54, 0x5e, 0x38, 0x72,
        0x76, 0x0a, 0xb7,
    ];
    assert_eq!(&point[1..49], &gx[..]);
    assert_eq!(derive_public(Category::Bacteria, &vec![0u8; 48]), None);
    assert_eq!(derive_public(Category::Human, &vec![1u8; 66]).map(|p| p.len()), Some(133));
    assert_eq!(derive_public(Category::Virus, &vec![1u8; 28]).map(|p| p.len()), Some(57));
}

#[test]
fn curve_level_sign_and_verify() {
    let secret: Vec<u8> = vec![3u8; 28];
    let point: Vec<u8> = derive_public(Category::Virus, &secret).expect("a valid scalar");
    let prehash: Vec<u8> = vec![0x5au8; 28];
    let signature: Vec<u8> =
        sign_prehash(Category::Virus, &secret, &vec![2u8; 28], &prehash).expect("a signature");
    assert_eq!(signature.len(), 56);
    assert_ne!(signature[..28], prehash[..]);
    assert!(verify_prehash(Category::Virus, &point, &prehash, &signature));
    assert!(!verify_prehash(Category::Virus, &point, &vec![0x5bu8; 28], &signature));
    assert!(!verify_prehash(Category::Virus, &point, &prehash, &signature[..55].to_vec()));
    assert!(!verify_prehash(Category::Virus, &vec![4u8; 57], &prehash, &signature));
    assert_eq!(sign_prehash(Category::Virus, &secret, &vec![0u8; 28], &prehash), None);
    assert_eq!(sign_prehash(Category::Virus, &vec![0u8; 28], &vec![2u8; 28], &prehash), None);
}

#[test]
fn export_then_parse_gives_the_key_back() {
    for category in [Category::Human, Category::Bacteria, Category::Virus] {
        let identity = seeded(category, "cell", &[1], 9);
        let bytes: Vec<u8> = identity.export_public_key();
        assert_eq!(bytes.len(), 1 + point_width(category));
        assert_eq!(&bytes[1..], &identity.public_key().point[..]);
        assert_eq!(PublicKey::parse(&bytes).as_ref(), Ok(identity.public_key()));
    }
    let human = seeded(Category::Human, "cell", &[1], 9);
    assert_eq!(human.export_public_key()[0], 0);
    assert_eq!(human.public_key().export(), human.export_public_key());
    assert_eq!(seeded(Category::Bacteria, "cell", &[1], 9).export_public_key()[0], 1);
    assert_eq!(seeded(Category::Virus, "cell", &[1], 9).export_public_key()[0], 2);
}

#[test]
fn malformed_exports_are_refused() {
    assert_eq!(PublicKey::parse(&Vec::new()), Err(GeneticsError::MalformedEncoding));
    assert_eq!(PublicKey::parse(&vec![3u8; 58]), Err(GeneticsError::MalformedEncoding));
    let mut short: Vec<u8> = vec![4u8; 57];
    short[0] = 2;
    assert_eq!(PublicKey::parse(&short), Err(GeneticsError::MalformedEncoding));
    let mut long: Vec<u8> = vec![4u8; 59];
    long[0] = 2;
    assert_eq!(PublicKey::parse(&long), Err(GeneticsError::MalformedEncoding));
    let mut exact: Vec<u8> = vec![4u8; 58];
    exact[0] = 2;
    assert_eq!(
        PublicKey::parse(&exact),
        Ok(PublicKey { category: Category::Virus, point: vec![4u8; 57] })
    );
}

#[test]
fn a_parsed_key_that_is_no_point_verifies_nothing() {
    let identity = seeded(Category::Virus, "phage", &[5], 3);
    let antigen = identity.sign_with_nonce(&vec![5u16], nonce(Category::Virus, 2)).unwrap();
    let bogus = PublicKey { category: Category::Virus, point: vec![4u8; 57] };
    assert_eq!(verify(&antigen, &bogus), Err(GeneticsError::SignatureInvalid));
}

#[test]
fn catalog_membership() {
    assert!(all_in_catalog(&vec![2u16, 1, 2], &vec![1u16, 2, 3]));
    assert!(!all_in_catalog(&vec![2u16, 4], &vec![1u16, 2, 3]));
    assert!(all_in_catalog(&Vec::new(), &Vec::new()));
    assert!(!all_in_catalog(&vec![0u16], &Vec::new()));
}

#[test]
fn classification_uses_the_catalog_it_is_given() {
    let identity = seeded(Category::Virus, "phage", &[5, 6], 3);
    let antigen = identity.sign_with_nonce(&vec![6u16, 5, 6], nonce(Category::Virus, 2)).unwrap();
    assert_eq!(classify(&antigen, identity.public_key(), &vec![6u16, 5]), Verdict::IsSelf);
    assert_eq!(classify(&antigen, identity.public_key(), &vec![6u16]), Verdict::NonSelf);
    assert_eq!(classify(&antigen, identity.public_key(), &Vec::new()), Verdict::NonSelf);
}
