//! Block hashes and block pointers.

use crate::error::{ErrorKind, StoreError};
use vstd::prelude::*;
use vstd::slice::*;

verus! {

/// The number of a block, as handed out to readers.
pub type BlockNumber = i32;

/// The number of bytes in a block hash.
pub const BLOCK_HASH_LEN: usize = 32;

/// The largest block number a pointer may carry.
pub const MAX_BLOCK_NUMBER: u64 = 2147483647;

/// The hash of a block: exactly 32 bytes.
#[derive(Debug, Clone, Copy, PartialEq, Eq, Hash)]
pub struct BlockHash(pub [u8; 32]);

impl View for BlockHash {
    type V = Seq<u8>;

    open spec fn view(&self) -> Seq<u8> {
        self.0@
    }
}

impl BlockHash {
    /// The hash made of the 32 bytes of `bytes`.
    pub fn from_slice(bytes: &[u8]) -> (r: BlockHash)
        requires
            bytes@.len() == BLOCK_HASH_LEN,
        ensures
            r@ == bytes@,
    {
        let mut out: [u8; 32] = [0u8; 32];
        let mut i: usize = 0;
        while i < 32
            invariant
                i <= 32,
                bytes@.len() == 32,
                forall|j: int| 0 <= j < i ==> out@[j] == bytes@[j],
            decreases 32 - i,
        {
            out[i] = bytes[i];
            i = i + 1;
        }
        BlockHash(out)
    }

    /// The 32 bytes of the hash.
    pub fn as_bytes(&self) -> (r: &[u8])
        ensures
            r@ == self@,
            r@.len() == BLOCK_HASH_LEN,
    {
        self.0.as_slice()
    }

    /// The 32 bytes of the hash in a vector of their own.
    pub fn to_vec(&self) -> (r: Vec<u8>)
        ensures
            r@ == self@,
            r@.len() == BLOCK_HASH_LEN,
    {
        slice_to_vec(self.0.as_slice())
    }
}

/// A block of the chain: its hash and its number. The number of a pointer
/// always fits a signed 32-bit integer.
#[derive(Debug, Clone, Copy, PartialEq, Eq, Hash)]
pub struct EthereumBlockPointer {
    hash: BlockHash,
    number: u64,
}

/// The mathematical value of a block pointer.
pub struct BlockPointerView {
    pub hash: Seq<u8>,
    pub number: int,
}

impl View for EthereumBlockPointer {
    type V = BlockPointerView;

    closed spec fn view(&self) -> BlockPointerView {
        BlockPointerView { hash: self.hash@, number: self.number as int }
    }
}

impl BlockPointerView {
    /// A pointer is valid when it has a hash of 32 bytes and a number that
    /// fits a signed 32-bit integer.
    pub open spec fn valid(self) -> bool {
        self.hash.len() == BLOCK_HASH_LEN && 0 <= self.number <= MAX_BLOCK_NUMBER
    }
}

impl EthereumBlockPointer {
    #[verifier::type_invariant]
    spec fn well_formed(self) -> bool {
        self.number <= MAX_BLOCK_NUMBER
    }

    /// The pointer to the block with the given hash and number: a
    /// constraint violation where the number does not fit a signed 32-bit
    /// integer.
    pub fn new(hash: BlockHash, number: u64) -> (r: Result<EthereumBlockPointer, StoreError>)
        ensures
            match r {
                Ok(ptr) => number <= MAX_BLOCK_NUMBER && ptr@ == (BlockPointerView {
                    hash: hash@,
                    number: number as int,
                }),
                Err(e) => number > MAX_BLOCK_NUMBER && e.spec_kind()
                    == ErrorKind::ConstraintViolation && e.spec_message()
                    == "a block number must fit a signed 32-bit integer"@,
            },
    {
        if number <= MAX_BLOCK_NUMBER {
            Ok(EthereumBlockPointer { hash, number })
        } else {
            Err(
                StoreError::ConstraintViolation(
                    "a block number must fit a signed 32-bit integer".to_owned(),
                ),
            )
        }
    }

    /// The hash of the block.
    pub fn hash(&self) -> (r: BlockHash)
        ensures
            r@ == self@.hash,
            self@.valid(),
    {
        proof {
            use_type_invariant(self);
            lemma_hash_len(self.hash);
        }
        self.hash
    }

    /// The number of the block.
    pub fn number(&self) -> (r: u64)
        ensures
            r == self@.number,
            self@.valid(),
    {
        proof {
            use_type_invariant(self);
            lemma_hash_len(self.hash);
        }
        self.number
    }
}

/// A block hash has 32 bytes.
pub proof fn lemma_hash_len(hash: BlockHash)
    ensures
        hash@.len() == BLOCK_HASH_LEN,
{
    vstd::array::array_len_matches_n(&hash.0);
}

} // verus!
