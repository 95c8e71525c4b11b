//! Commitments: the hash that binds a hidden move.
//!
//! A player commits to a move by publishing the SHA-256 digest of the move, a
//! random nonce, the match identifier, the round index and the player's own
//! persistent key, in that order. The reveal is accepted only if the same
//! fields hash to the stored digest, byte for byte.

use vstd::prelude::*;
use sha2::Digest;
use crate::identity::Identity;
use crate::identity::bytes32_eq;
use crate::state::RpsError;

verus! {

/// The SHA-256 digest of a byte string.
pub uninterp spec fn sha256(data: Seq<u8>) -> Seq<u8>;

/// Calls `sha2::Sha256::digest`, which feeds `data` to a fresh SHA-256 hasher
/// and finalizes it. Trusted, not proved: the 32 bytes returned are the
/// SHA-256 digest of `data`, a function of `data` alone.
#[verifier::external_body]
fn sha256_digest(data: &[u8]) -> (digest: [u8; 32])
    ensures
        digest@ == sha256(data@),
{
    sha2::Sha256::digest(data).into()
}

/// Length of the byte string that is hashed into a commitment.
pub const PREIMAGE_LEN: usize = 98;

/// The byte string that is hashed into a commitment: the move, the nonce, the
/// match identifier, the round index, and the committing player's key.
pub open spec fn commitment_preimage(
    move_value: u8,
    nonce: Seq<u8>,
    game_id: Seq<u8>,
    round_index: u8,
    player: Seq<u8>,
) -> Seq<u8> {
    seq![move_value] + nonce + game_id + seq![round_index] + player
}

/// The commitment that binds `move_value` for `player` in round `round_index`
/// of match `game_id` under `nonce`.
pub open spec fn commitment_digest(
    move_value: u8,
    nonce: [u8; 32],
    game_id: [u8; 32],
    round_index: u8,
    player: Identity,
) -> Seq<u8> {
    sha256(commitment_preimage(move_value, nonce@, game_id@, round_index, player.bytes@))
}

/// Appends the 32 bytes of `part` to `out`.
fn push_bytes32(out: &mut Vec<u8>, part: &[u8; 32])
    ensures
        final(out)@ == old(out)@ + part@,
{
    let ghost before = out@;
    let mut i: usize = 0;
    while i < 32
        invariant
            i <= 32,
            out@ == before + part@.subrange(0, i as int),
        decreases 32 - i,
    {
        out.push(part[i]);
        i = i + 1;
    }
}

/// Lays out the fields of a commitment in the order in which they are hashed.
pub fn commitment_preimage_bytes(
    move_value: u8,
    nonce: &[u8; 32],
    game_id: &[u8; 32],
    round_index: u8,
    player: &Identity,
) -> (bytes: Vec<u8>)
    ensures
        bytes@ == commitment_preimage(move_value, nonce@, game_id@, round_index, player.bytes@),
        bytes@.len() == PREIMAGE_LEN,
{
    let mut bytes: Vec<u8> = Vec::new();
    bytes.push(move_value);
    push_bytes32(&mut bytes, nonce);
    push_bytes32(&mut bytes, game_id);
    bytes.push(round_index);
    push_bytes32(&mut bytes, &player.bytes);
    bytes
}

/// Computes the commitment for a move.
pub fn commitment_hash(
    move_value: u8,
    nonce: &[u8; 32],
    game_id: &[u8; 32],
    round_index: u8,
    player: &Identity,
) -> (digest: [u8; 32])
    ensures
        digest@ == commitment_digest(move_value, *nonce, *game_id, round_index, *player),
{
    let bytes = commitment_preimage_bytes(move_value, nonce, game_id, round_index, player);
    sha256_digest(bytes.as_slice())
}

/// Accepts `digest` against the stored commitment only if every byte agrees.
pub fn check_commitment(stored: &[u8; 32], digest: &[u8; 32]) -> (result: Result<(), RpsError>)
    ensures
        *stored == *digest ==> result == Ok::<(), RpsError>(()),
        *stored != *digest ==> result == Err::<(), RpsError>(RpsError::CommitmentMismatch),
{
    if bytes32_eq(stored, digest) {
        Ok(())
    } else {
        Err(RpsError::CommitmentMismatch)
    }
}

/// Checks a revealed move against the commitment stored for it.
pub fn verify_commitment(
    stored: &[u8; 32],
    move_value: u8,
    nonce: &[u8; 32],
    game_id: &[u8; 32],
    round_index: u8,
    player: &Identity,
) -> (result: Result<(), RpsError>)
    ensures
        stored@ == commitment_digest(move_value, *nonce, *game_id, round_index, *player)
            ==> result == Ok::<(), RpsError>(()),
        stored@ != commitment_digest(move_value, *nonce, *game_id, round_index, *player)
            ==> result == Err::<(), RpsError>(RpsError::CommitmentMismatch),
{
    let digest = commitment_hash(move_value, nonce, game_id, round_index, player);
    proof {
        if stored@ == digest@ {
            assert(*stored =~= digest);
        }
    }
    check_commitment(stored, &digest)
}

/// SHA-256 tells the two byte strings apart: if their digests agree, so do
/// they. Of no two given strings is this proved here; it is what the scheme
/// rests on.
pub open spec fn no_collision(a: Seq<u8>, b: Seq<u8>) -> bool {
    sha256(a) == sha256(b) ==> a == b
}

/// Two commitments are made from the same byte string only if they agree in
/// every field: the layout leaves no room for one field's bytes to pass as
/// another's.
pub proof fn lemma_preimage_injective(
    move_a: u8,
    nonce_a: [u8; 32],
    game_id_a: [u8; 32],
    round_a: u8,
    player_a: Identity,
    move_b: u8,
    nonce_b: [u8; 32],
    game_id_b: [u8; 32],
    round_b: u8,
    player_b: Identity,
)
    ensures
        commitment_preimage(move_a, nonce_a@, game_id_a@, round_a, player_a.bytes@)
            == commitment_preimage(move_b, nonce_b@, game_id_b@, round_b, player_b.bytes@) <==> {
            &&& move_a == move_b
            &&& nonce_a == nonce_b
            &&& game_id_a == game_id_b
            &&& round_a == round_b
            &&& player_a == player_b
        },
{
    let a = commitment_preimage(move_a, nonce_a@, game_id_a@, round_a, player_a.bytes@);
    let b = commitment_preimage(move_b, nonce_b@, game_id_b@, round_b, player_b.bytes@);
    if a == b {
        assert(a[0] == move_a && b[0] == move_b);
        assert(a[65] == round_a && b[65] == round_b);
        assert forall|i: int| 0 <= i < 32 implies nonce_a[i] == nonce_b[i] by {
            assert(a[1 + i] == nonce_a@[i]);
            assert(b[1 + i] == nonce_b@[i]);
        }
        assert forall|i: int| 0 <= i < 32 implies game_id_a[i] == game_id_b[i] by {
            assert(a[33 + i] == game_id_a@[i]);
            assert(b[33 + i] == game_id_b@[i]);
        }
        assert forall|i: int| 0 <= i < 32 implies player_a.bytes[i] == player_b.bytes[i] by {
            assert(a[66 + i] == player_a.bytes@[i]);
            assert(b[66 + i] == player_b.bytes@[i]);
        }
        assert(nonce_a =~= nonce_b);
        assert(game_id_a =~= game_id_b);
        assert(player_a.bytes =~= player_b.bytes);
    }
}

} // verus!
