//! Account identities and deterministic identity derivation.
//!
//! An identity is a stable 32-byte account address. Records of the protocol
//! live at identities derived from a namespace tag and a seed tuple: a game
//! from its admin, a round from its game and round number. The derivation
//! itself is the hash the host chain uses for program-derived addresses; the
//! seed layout around it is this crate's own and is verified.

use vstd::prelude::*;

verus! {

/// A 32-byte account identity.
#[derive(Clone, Copy, Debug, PartialEq, Eq, Hash)]
pub struct Identity {
    pub bytes: [u8; 32],
}

impl View for Identity {
    type V = Seq<u8>;

    open spec fn view(&self) -> Seq<u8> {
        self.bytes@
    }
}

/// The identity whose bytes are all zero; it marks an unset winner.
pub open spec fn unset_identity() -> Seq<u8> {
    Seq::new(32, |i: int| 0u8)
}

impl Default for Identity {
    /// The all-zero identity.
    fn default() -> (r: Identity)
        ensures
            r@ == unset_identity(),
    {
        let r = Identity { bytes: [0u8; 32] };
        proof {
            assert(r@ =~= unset_identity());
        }
        r
    }
}

impl Identity {
    /// Byte-for-byte equality of two identities.
    pub fn equals(&self, other: &Identity) -> (r: bool)
        ensures
            r == (self@ == other@),
    {
        let mut i: usize = 0;
        while i < 32
            invariant
                0 <= i <= 32,
                forall|j: int| 0 <= j < i ==> self@[j] == other@[j],
            decreases 32 - i,
        {
            if self.bytes[i] != other.bytes[i] {
                return false;
            }
            i += 1;
        }
        proof {
            assert(self@ =~= other@);
        }
        true
    }

    /// The identity's bytes as an owned vector, for use as a derivation seed.
    pub fn to_seed(&self) -> (r: Vec<u8>)
        ensures
            r@ == self@,
    {
        vstd::slice::slice_to_vec(self.bytes.as_slice())
    }
}

/// The namespace tag of game records: the ASCII bytes of "game".
pub open spec fn game_tag() -> Seq<u8> {
    seq![0x67u8, 0x61u8, 0x6du8, 0x65u8]
}

/// The namespace tag of round records: the ASCII bytes of "round".
pub open spec fn round_tag() -> Seq<u8> {
    seq![0x72u8, 0x6fu8, 0x75u8, 0x6eu8, 0x64u8]
}

/// The seed tuple a game record is derived from: the tag and the admin.
pub open spec fn game_seeds(admin: Seq<u8>) -> Seq<Seq<u8>> {
    seq![game_tag(), admin]
}

/// The seed tuple a round record is derived from: the tag, the game, and the
/// round number in little-endian bytes.
pub open spec fn round_seeds(game: Seq<u8>, round_number: u64) -> Seq<Seq<u8>> {
    seq![round_tag(), game, vstd::bytes::spec_u64_to_le_bytes(round_number)]
}

/// What the host chain's program-derived-address hash returns for a seed
/// tuple and a program identity: the derived identity and its bump byte, or
/// nothing when no bump makes the seeds viable.
pub uninterp spec fn derived_identity(seeds: Seq<Seq<u8>>, program: Seq<u8>) -> Option<(Seq<u8>, u8)>;

/// Relies on `anchor_lang::prelude::Pubkey::try_find_program_address`
/// (`solana_address::Address::try_find_program_address`) for the
/// program-derived-address hash: its result depends on the seeds and the
/// program identity alone, and it returns `None` rather than panicking when
/// the seeds admit no bump.
#[verifier::external_body]
fn find_derived(seeds: &Vec<Vec<u8>>, program: &Identity) -> (r: Option<(Identity, u8)>)
    ensures
        (match r {
            Some(p) => derived_identity(seeds.deep_view(), program@) == Some((p.0@, p.1)),
            None => derived_identity(seeds.deep_view(), program@) is None,
        }),
{
    let seed_slices: Vec<&[u8]> = seeds.iter().map(|s| s.as_slice()).collect();
    let program_key = anchor_lang::prelude::Pubkey::new_from_array(program.bytes);
    anchor_lang::prelude::Pubkey::try_find_program_address(&seed_slices, &program_key)
        .map(|(key, bump)| (Identity { bytes: key.to_bytes() }, bump))
}

/// The identity of the game record owned by `admin`, with its bump byte.
pub fn derive_game_identity(admin: &Identity, program: &Identity) -> (r: Option<(Identity, u8)>)
    ensures
        (match r {
            Some(p) => derived_identity(game_seeds(admin@), program@) == Some((p.0@, p.1)),
            None => derived_identity(game_seeds(admin@), program@) is None,
        }),
{
    let mut seeds: Vec<Vec<u8>> = Vec::new();
    seeds.push(vec![0x67u8, 0x61u8, 0x6du8, 0x65u8]);
    seeds.push(admin.to_seed());
    proof {
        assert(seeds.deep_view() =~~= game_seeds(admin@));
    }
    find_derived(&seeds, program)
}

/// The identity of round `round_number` of the game record at `game`, with
/// its bump byte.
pub fn derive_round_identity(game: &Identity, round_number: u64, program: &Identity) -> (r: Option<
    (Identity, u8),
>)
    ensures
        (match r {
            Some(p) => derived_identity(round_seeds(game@, round_number), program@) == Some(
                (p.0@, p.1),
            ),
            None => derived_identity(round_seeds(game@, round_number), program@) is None,
        }),
{
    let mut seeds: Vec<Vec<u8>> = Vec::new();
    seeds.push(vec![0x72u8, 0x6fu8, 0x75u8, 0x6eu8, 0x64u8]);
    seeds.push(game.to_seed());
    seeds.push(vstd::bytes::u64_to_le_bytes(round_number));
    proof {
        assert(seeds.deep_view() =~~= round_seeds(game@, round_number));
    }
    find_derived(&seeds, program)
}

} // verus!
