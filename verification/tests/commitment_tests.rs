use rps_game::commitment::check_commitment;
use rps_game::commitment::commitment_hash;
use rps_game::commitment::commitment_preimage_bytes;
use rps_game::commitment::verify_commitment;
use rps_game::commitment::PREIMAGE_LEN;
use rps_game::identity::bytes32_eq;
use rps_game::identity::Identity;
use rps_game::state::RpsError;
use sha2::Digest;

fn counting_from(start: u8) -> [u8; 32] {
    let mut out = [0u8; 32];
    let mut i = 0;
    while i < 32 {
        out[i] = start + i as u8;
        i += 1;
    }
    out
}

#[test]
fn preimage_lays_the_fields_out_in_order() {
    let nonce = counting_from(0);
    let game_id = counting_from(32);
    let player = Identity::new(counting_from(64));
    let bytes = commitment_preimage_bytes(2, &nonce, &game_id, 4, &player);
    assert_eq!(bytes.len(), PREIMAGE_LEN);
    assert_eq!(bytes.len(), 98);
    assert_eq!(bytes[0], 2);
    assert_eq!(&bytes[1..33], &nonce[..]);
    assert_eq!(&bytes[33..65], &game_id[..]);
    assert_eq!(bytes[65], 4);
    assert_eq!(&bytes[66..98], &player.bytes[..]);
}

#[test]
fn commitment_hash_is_sha256_of_the_preimage() {
    let digest = commitment_hash(0, &[1u8; 32], &[2u8; 32], 3, &Identity::new([4u8; 32]));
    let expected: [u8; 32] = [
        249, 121, 99, 6, 127, 170, 153, 145, 58, 212, 223, 138, 171, 30, 108, 6, 148, 162, 163, 81,
        245, 238, 124, 48, 195, 48, 225, 5, 109, 148, 241, 204,
    ];
    assert_eq!(digest, expected);
}

#[test]
fn commitment_hash_second_known_value() {
    let digest = commitment_hash(
        2,
        &counting_from(0),
        &counting_from(32),
        4,
        &Identity::new(counting_from(64)),
    );
    let expected: [u8; 32] = [
        167, 159, 167, 193, 91, 207, 12, 245, 48, 245, 70, 176, 90, 65, 109, 246, 222, 217, 170,
        201, 104, 57, 212, 234, 229, 123, 211, 126, 103, 48, 184, 68,
    ];
    assert_eq!(digest, expected);
}

#[test]
fn commitment_hash_agrees_with_streamed_hashing() {
    let nonce = counting_from(7);
    let game_id = counting_from(100);
    let player = Identity::new(counting_from(200));
    let mut hasher = sha2::Sha256::new();
    hasher.update([1u8]);
    hasher.update(nonce);
    hasher.update(game_id);
    hasher.update([2u8]);
    hasher.update(player.bytes);
    let streamed: [u8; 32] = hasher.finalize().into();
    assert_eq!(commitment_hash(1, &nonce, &game_id, 2, &player), streamed);
}

#[test]
fn commitment_hash_is_not_its_input() {
    let nonce = [5u8; 32];
    let digest = commitment_hash(1, &nonce, &[6u8; 32], 0, &Identity::new([7u8; 32]));
    assert_ne!(digest, nonce);
    assert_ne!(digest, [6u8; 32]);
    assert_ne!(digest, [7u8; 32]);
    assert_ne!(digest, [0u8; 32]);
}

#[test]
fn verify_commitment_accepts_the_committed_fields() {
    let nonce = [11u8; 32];
    let game_id = [12u8; 32];
    let player = Identity::new([13u8; 32]);
    let stored = commitment_hash(1, &nonce, &game_id, 2, &player);
    assert_eq!(verify_commitment(&stored, 1, &nonce, &game_id, 2, &player), Ok(()));
}

#[test]
fn verify_commitment_rejects_any_changed_field() {
    let nonce = [11u8; 32];
    let game_id = [12u8; 32];
    let player = Identity::new([13u8; 32]);
    let stored = commitment_hash(1, &nonce, &game_id, 2, &player);
    let mismatch = Err(RpsError::CommitmentMismatch);

    assert_eq!(verify_commitment(&stored, 0, &nonce, &game_id, 2, &player), mismatch);
    assert_eq!(verify_commitment(&stored, 1, &nonce, &game_id, 3, &player), mismatch);

    let mut other_nonce = nonce;
    other_nonce[31] ^= 1;
    assert_eq!(verify_commitment(&stored, 1, &other_nonce, &game_id, 2, &player), mismatch);

    let mut other_id = game_id;
    other_id[0] ^= 0x80;
    assert_eq!(verify_commitment(&stored, 1, &nonce, &other_id, 2, &player), mismatch);

    let mut other_player = player;
    other_player.bytes[16] ^= 0x10;
    assert_eq!(verify_commitment(&stored, 1, &nonce, &game_id, 2, &other_player), mismatch);
}

#[test]
fn every_single_bit_of_the_nonce_matters() {
    let nonce = [0xa5u8; 32];
    let game_id = [1u8; 32];
    let player = Identity::new([2u8; 32]);
    let stored = commitment_hash(2, &nonce, &game_id, 0, &player);
    for byte in 0..32 {
        for bit in 0..8 {
            let mut changed = nonce;
            changed[byte] ^= 1 << bit;
            assert_eq!(
                verify_commitment(&stored, 2, &changed, &game_id, 0, &player),
                Err(RpsError::CommitmentMismatch)
            );
        }
    }
}

#[test]
fn every_single_bit_of_move_and_round_matters() {
    let nonce = [3u8; 32];
    let game_id = [4u8; 32];
    let player = Identity::new([5u8; 32]);
    let stored = commitment_hash(1, &nonce, &game_id, 2, &player);
    for bit in 0..8 {
        assert_eq!(
            verify_commitment(&stored, 1 ^ (1 << bit), &nonce, &game_id, 2, &player),
            Err(RpsError::CommitmentMismatch)
        );
        assert_eq!(
            verify_commitment(&stored, 1, &nonce, &game_id, 2 ^ (1 << bit), &player),
            Err(RpsError::CommitmentMismatch)
        );
    }
}

#[test]
fn check_commitment_compares_every_byte() {
    let stored = [9u8; 32];
    assert_eq!(check_commitment(&stored, &[9u8; 32]), Ok(()));
    for byte in 0..32 {
        let mut other = stored;
        other[byte] = 8;
        assert_eq!(check_commitment(&stored, &other), Err(RpsError::CommitmentMismatch));
    }
}

#[test]
fn bytes32_eq_is_exact() {
    let a = counting_from(1);
    let mut b = a;
    assert!(bytes32_eq(&a, &b));
    b[31] = b[31].wrapping_add(1);
    assert!(!bytes32_eq(&a, &b));
    b = a;
    b[0] = 0;
    assert!(!bytes32_eq(&a, &b));
}

#[test]
fn identity_equality_and_unset() {
    let a = Identity::new([1u8; 32]);
    let b = Identity::new([1u8; 32]);
    let mut c = a;
    c.bytes[5] = 2;
    assert!(a == b);
    assert!(a != c);
    assert!(Identity::unset().is_unset());
    assert_eq!(Identity::unset().bytes, [0u8; 32]);
    assert!(!a.is_unset());
    let mut nearly = Identity::unset();
    nearly.bytes[31] = 1;
    assert!(!nearly.is_unset());
}
