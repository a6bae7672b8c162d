//! Digests of game states. The digest of a game is the SHA-256 digest of its
//! canonical bytes; a chain of such digests ties each state to the one it
//! came from.

use vstd::prelude::*;
use risc0_zkvm::sha::{Impl, Sha256};
use crate::board::TicTacToe;
use crate::encoding::encoding;
use crate::rules::initial_game;

verus! {

/// The 32 bytes of the SHA-256 digest of `bytes`.
pub uninterp spec fn sha256(bytes: Seq<u8>) -> Seq<u8>;

/// Calls `risc0_zkvm::sha::Impl::hash_bytes`, the SHA-256 implementation of
/// the zkVM's host side, and hands the digest back as its 32 bytes. The
/// contract is not proved: it claims only that these bytes are the function
/// `sha256` of the bytes given, that is, that equal inputs give equal digests.
#[verifier::external_body]
fn hash_bytes(bytes: &[u8]) -> (digest: [u8; 32])
    ensures
        digest@ == sha256(bytes@),
{
    let digest = Impl::hash_bytes(bytes);
    (*digest).into()
}

/// The digest of a game state.
#[derive(Clone, Copy, Debug)]
pub struct StateHash {
    bytes: [u8; 32],
}

impl View for StateHash {
    type V = Seq<u8>;

    closed spec fn view(&self) -> Seq<u8> {
        self.bytes@
    }
}

impl StateHash {
    /// The digest whose 32 bytes are `bytes`.
    pub fn from_bytes(bytes: [u8; 32]) -> (hash: Self)
        ensures
            hash@ == bytes@,
    {
        Self { bytes }
    }

    /// The 32 bytes of the digest.
    pub fn to_bytes(&self) -> (bytes: [u8; 32])
        ensures
            bytes@ == self@,
    {
        self.bytes
    }

    /// The SHA-256 digest of `bytes`.
    pub fn of(bytes: &[u8]) -> (hash: Self)
        ensures
            hash@ == sha256(bytes@),
    {
        Self { bytes: hash_bytes(bytes) }
    }

    /// Whether two digests hold the same bytes.
    pub fn matches(&self, other: &StateHash) -> (same: bool)
        ensures
            same == (self@ == other@),
    {
        let mut i: usize = 0;
        while i < 32
            invariant
                i <= 32,
                forall|k: int| 0 <= k < i ==> self.bytes@[k] == other.bytes@[k],
            decreases 32 - i,
        {
            if self.bytes[i] != other.bytes[i] {
                return false;
            }
            i += 1;
        }
        assert(self@ =~= other@);
        true
    }
}

impl PartialEq for StateHash {
    fn eq(&self, other: &Self) -> (same: bool) {
        self.matches(other)
    }
}

impl vstd::std_specs::cmp::PartialEqSpecImpl for StateHash {
    open spec fn obeys_eq_spec() -> bool {
        true
    }

    open spec fn eq_spec(&self, other: &Self) -> bool {
        self@ == other@
    }
}

impl TicTacToe {
    /// The digest of this game: the SHA-256 digest of its canonical bytes.
    pub fn state_hash(&self) -> (hash: StateHash)
        ensures
            hash@ == sha256(encoding(self@)),
    {
        let bytes = self.as_bytes();
        StateHash::of(bytes.as_slice())
    }

    /// The digest of a game before its first move.
    pub fn initial_hash() -> (hash: StateHash)
        ensures
            hash@ == sha256(encoding(initial_game())),
    {
        Self::new().state_hash()
    }
}

} // verus!
