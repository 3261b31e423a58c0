use anchor_lang::prelude::Pubkey;
use wager::identity::{derive_game_identity, derive_round_identity, Identity};

fn ident(b: u8) -> Identity {
    Identity { bytes: [b; 32] }
}

#[test]
fn equals_compares_all_bytes() {
    let a = ident(5);
    let b = ident(5);
    let c = ident(6);
    assert!(a.equals(&b));
    assert!(!a.equals(&c));
    let mut d = ident(5);
    d.bytes[31] = 0;
    assert!(!a.equals(&d));
}

#[test]
fn default_identity_is_all_zero() {
    assert_eq!(Identity::default().bytes, [0u8; 32]);
}

#[test]
fn game_identity_matches_the_host_derivation() {
    let admin = ident(3);
    let program = ident(11);
    let (gid, bump) = derive_game_identity(&admin, &program).expect("viable bump");
    let program_key = Pubkey::new_from_array(program.bytes);
    let (expected, expected_bump) =
        Pubkey::try_find_program_address(&[b"game", &admin.bytes], &program_key)
            .expect("viable bump");
    assert_eq!(gid.bytes, expected.to_bytes());
    assert_eq!(bump, expected_bump);
    // The derivation is a hash, not the admin handed back.
    assert_ne!(gid.bytes, admin.bytes);
    // It is deterministic.
    let (again, again_bump) = derive_game_identity(&admin, &program).expect("viable bump");
    assert!(gid.equals(&again));
    assert_eq!(bump, again_bump);
}

#[test]
fn round_identity_matches_the_host_derivation() {
    let game = ident(9);
    let program = ident(11);
    let (rid, bump) = derive_round_identity(&game, 1, &program).expect("viable bump");
    let program_key = Pubkey::new_from_array(program.bytes);
    let (expected, expected_bump) = Pubkey::try_find_program_address(
        &[b"round", &game.bytes, &1u64.to_le_bytes()],
        &program_key,
    )
    .expect("viable bump");
    assert_eq!(rid.bytes, expected.to_bytes());
    assert_eq!(bump, expected_bump);
}

#[test]
fn round_identities_differ_by_round_number() {
    let game = ident(9);
    let program = ident(11);
    let (first, _) = derive_round_identity(&game, 1, &program).expect("viable bump");
    let (second, _) = derive_round_identity(&game, 2, &program).expect("viable bump");
    assert!(!first.equals(&second));
}

#[test]
fn game_identities_differ_by_admin() {
    let program = ident(11);
    let (a, _) = derive_game_identity(&ident(3), &program).expect("viable bump");
    let (b, _) = derive_game_identity(&ident(4), &program).expect("viable bump");
    assert_ne!(a.bytes, b.bytes);
}
