use anchor_lang::prelude::Pubkey;
use std::str::FromStr;
use vault_ledger::resolver::{
    claimed_discriminant, resolve, same_bytes, vault_label, verify, Capability, Identity,
    VaultAddress, PROGRAM_ID, VAULT_LABEL,
};

fn identity(seed: u8) -> Identity {
    Identity { bytes: [seed; 32] }
}

#[test]
fn program_id_is_the_declared_address() {
    let declared = Pubkey::from_str("A9Lef4z6JBNzZoaQJT722eVuJR8GK5WqSLmgbNaJsacX").unwrap();
    assert_eq!(declared.to_bytes(), PROGRAM_ID);
}

#[test]
fn vault_label_spells_vault() {
    assert_eq!(&VAULT_LABEL[..], "vault".as_bytes());
    assert_eq!(vault_label(), "vault".as_bytes().to_vec());
}

#[test]
fn resolve_gives_the_known_address_and_discriminant() {
    let (address, discriminant) = resolve(&identity(1), &VAULT_LABEL).unwrap();
    assert_eq!(
        address.bytes,
        [
            160, 248, 27, 184, 86, 29, 253, 167, 154, 66, 99, 31, 68, 87, 138, 130, 234, 37, 151,
            95, 77, 43, 123, 147, 153, 139, 178, 166, 1, 234, 142, 113
        ]
    );
    assert_eq!(discriminant, 255);

    let (address, discriminant) = resolve(&identity(2), &VAULT_LABEL).unwrap();
    assert_eq!(
        address.bytes,
        [
            117, 60, 247, 58, 60, 67, 171, 34, 125, 107, 238, 218, 56, 145, 223, 236, 211, 253,
            174, 79, 130, 58, 232, 86, 145, 215, 175, 61, 65, 1, 215, 1
        ]
    );
    assert_eq!(discriminant, 254);

    let mut counting = [0u8; 32];
    for (i, byte) in counting.iter_mut().enumerate() {
        *byte = i as u8;
    }
    let (address, discriminant) = resolve(&Identity { bytes: counting }, &VAULT_LABEL).unwrap();
    assert_eq!(
        address.bytes,
        [
            126, 66, 200, 170, 87, 31, 133, 216, 80, 61, 99, 107, 166, 197, 251, 131, 216, 47, 49,
            45, 196, 7, 33, 68, 35, 234, 177, 137, 235, 51, 2, 38
        ]
    );
    assert_eq!(discriminant, 252);
}

#[test]
fn resolve_agrees_with_the_program_address_search() {
    let program = Pubkey::new_from_array(PROGRAM_ID);
    for seed in 0..40u8 {
        let user = identity(seed);
        let (expected, bump) =
            Pubkey::find_program_address(&["vault".as_bytes(), &user.bytes[..]], &program);
        let (address, discriminant) = resolve(&user, &VAULT_LABEL).unwrap();
        assert_eq!(address.bytes, expected.to_bytes());
        assert_eq!(discriminant, bump);
        assert_ne!(address.bytes, user.bytes);
    }
}

#[test]
fn resolved_address_is_off_the_curve() {
    for seed in 0..40u8 {
        let (address, _) = resolve(&identity(seed), &VAULT_LABEL).unwrap();
        assert!(!Pubkey::new_from_array(address.bytes).is_on_curve());
    }
}

#[test]
fn resolve_is_repeatable() {
    for seed in 0..40u8 {
        let user = identity(seed);
        let first = resolve(&user, &VAULT_LABEL);
        let second = resolve(&user, &VAULT_LABEL);
        assert!(first.is_some());
        assert_eq!(first, second);
    }
    let first = resolve(&identity(9), "other".as_bytes());
    let second = resolve(&identity(9), "other".as_bytes());
    assert_eq!(first, second);
}

#[test]
fn resolve_depends_on_the_label() {
    let user = identity(5);
    let under_vault = resolve(&user, &VAULT_LABEL).unwrap();
    let under_other = resolve(&user, "user_vault".as_bytes()).unwrap();
    assert_ne!(under_vault.0, under_other.0);
}

#[test]
fn resolve_finds_nothing_under_a_label_that_is_too_long() {
    let label = [7u8; 33];
    assert_eq!(resolve(&identity(1), &label), None);
    assert!(resolve(&identity(1), &label[..32]).is_some());
    assert!(resolve(&identity(1), &[]).is_some());
}

#[test]
fn distinct_identities_resolve_to_distinct_addresses() {
    let mut seen: Vec<[u8; 32]> = Vec::new();
    for high in 0..8u8 {
        for low in 0..=255u8 {
            let mut bytes = [0u8; 32];
            bytes[0] = low;
            bytes[31] = high;
            let (address, _) = resolve(&Identity { bytes }, &VAULT_LABEL).unwrap();
            seen.push(address.bytes);
        }
    }
    assert_eq!(seen.len(), 2048);
    seen.sort();
    for pair in seen.windows(2) {
        assert_ne!(pair[0], pair[1]);
    }
}

#[test]
fn verify_accepts_the_derived_address_only() {
    let user = identity(1);
    let other = identity(2);
    let (address, _) = resolve(&user, &VAULT_LABEL).unwrap();
    let (other_address, _) = resolve(&other, &VAULT_LABEL).unwrap();
    assert!(verify(&address, &user, &VAULT_LABEL));
    assert!(!verify(&other_address, &user, &VAULT_LABEL));
    assert!(!verify(&address, &other, &VAULT_LABEL));
    assert!(!verify(&VaultAddress { bytes: user.bytes }, &user, &VAULT_LABEL));
    assert!(!verify(&address, &user, "user_vault".as_bytes()));
    assert!(!verify(&address, &user, &[7u8; 33]));

    let mut flipped = address;
    flipped.bytes[31] ^= 1;
    assert!(!verify(&flipped, &user, &VAULT_LABEL));
}

#[test]
fn same_bytes_compares_every_byte() {
    let a = [3u8; 32];
    let mut b = [3u8; 32];
    assert!(same_bytes(&a, &b));
    b[31] = 4;
    assert!(!same_bytes(&a, &b));
    b[31] = 3;
    b[0] = 4;
    assert!(!same_bytes(&a, &b));
}

#[test]
fn capability_proves_its_own_vault_only() {
    let user = identity(2);
    let (address, discriminant) = resolve(&user, &VAULT_LABEL).unwrap();
    assert_eq!(discriminant, 254);
    let capability = Capability { label: vault_label(), identity: user, discriminant };
    assert!(capability.proves(&address));

    let (other_address, _) = resolve(&identity(1), &VAULT_LABEL).unwrap();
    assert!(!capability.proves(&other_address));

    let wrong_discriminant = Capability { label: vault_label(), identity: user, discriminant: 255 };
    assert!(!wrong_discriminant.proves(&address));

    let wrong_label =
        Capability { label: "user_vault".as_bytes().to_vec(), identity: user, discriminant };
    assert!(!wrong_label.proves(&address));

    let wrong_identity = Capability { label: vault_label(), identity: identity(3), discriminant };
    assert!(!wrong_identity.proves(&address));
}

#[test]
fn claimed_discriminant_is_given_for_the_same_address_only() {
    let address = VaultAddress { bytes: [8; 32] };
    let mut other = address;
    other.bytes[17] = 9;
    assert_eq!(claimed_discriminant(&Some((address, 201)), &address), Some(201));
    assert_eq!(claimed_discriminant(&Some((address, 0)), &address), Some(0));
    assert_eq!(claimed_discriminant(&Some((address, 201)), &other), None);
    assert_eq!(claimed_discriminant(&Some((other, 201)), &address), None);
    assert_eq!(claimed_discriminant(&None, &address), None);
}

#[test]
fn capability_matches_address_and_discriminant() {
    let address = VaultAddress { bytes: [8; 32] };
    let other = VaultAddress { bytes: [9; 32] };
    let capability = Capability { label: vault_label(), identity: identity(1), discriminant: 77 };
    assert!(capability.matches(&Some((address, 77)), &address));
    assert!(!capability.matches(&Some((address, 78)), &address));
    assert!(!capability.matches(&Some((other, 77)), &address));
    assert!(!capability.matches(&Some((address, 77)), &other));
    assert!(!capability.matches(&None, &address));
}
