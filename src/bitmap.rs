use vstd::prelude::*;

use crate::bytes::Key;
use crate::state::SharelyError;

verus! {

/// Whether bit `index` of a little-endian bit string is set.
pub open spec fn bit_of(bits: Seq<u8>, index: int) -> bool {
    bits[index / 8] & (1u8 << ((index % 8) as u8)) != 0
}

/// Number of bytes that hold one bit for each of `user_count` users.
pub open spec fn bitmap_len(user_count: u32) -> int {
    (user_count as int + 7) / 8
}

/// `bits` cut or zero-extended to `len` bytes.
pub open spec fn resized(bits: Seq<u8>, len: int) -> Seq<u8> {
    Seq::new(len as nat, |i: int| if i < bits.len() { bits[i] } else { 0u8 })
}

/// The record of which entitlement indices of a quest have been paid.
#[derive(Clone, Debug, PartialEq, Eq)]
pub struct ClaimBitmapShard {
    pub quest: Key,
    pub shard_id: u16,
    pub user_count: u32,
    pub bits: Vec<u8>,
}

proof fn lemma_set_bit(b: u8, k: u8, j: u8)
    requires
        k < 8,
        j < 8,
    ensures
        ((b | (1u8 << k)) & (1u8 << j) != 0) == (j == k || b & (1u8 << j) != 0),
{
    assert(((b | (1u8 << k)) & (1u8 << j) != 0) == (j == k || b & (1u8 << j) != 0))
        by (bit_vector)
        requires
            k < 8,
            j < 8,
    ;
}

proof fn lemma_zero_byte_has_no_bit(k: u8)
    requires
        k < 8,
    ensures
        0u8 & (1u8 << k) == 0,
{
    assert(0u8 & (1u8 << k) == 0) by (bit_vector)
        requires
            k < 8,
    ;
}

impl ClaimBitmapShard {
    /// The byte string holds exactly one bit per user.
    pub open spec fn wf(&self) -> bool {
        self.bits@.len() == bitmap_len(self.user_count)
    }

    /// Whether `index` can be looked up in this shard.
    pub open spec fn in_range(&self, index: u64) -> bool {
        index < self.user_count && index / 8 < self.bits@.len()
    }

    /// Whether no entitlement of the shard is marked as paid.
    pub open spec fn is_clear(&self) -> bool {
        forall|i: int| 0 <= i < 8 * self.bits@.len() ==> !#[trigger] self.is_set(i)
    }

    /// Whether entitlement `index` has been paid.
    pub open spec fn is_set(&self, index: int) -> bool {
        bit_of(self.bits@, index)
    }

    /// Reads the bit of entitlement `index`.
    pub fn is_set_at(&self, index: u64) -> (r: Result<bool, SharelyError>)
        ensures
            match r {
                Ok(b) => self.in_range(index) && b == self.is_set(index as int),
                Err(e) => !self.in_range(index) && e == SharelyError::BitmapIndexOutOfRange,
            },
    {
        if index >= self.user_count as u64 {
            return Err(SharelyError::BitmapIndexOutOfRange);
        }
        let byte_index = (index / 8) as usize;
        if byte_index >= self.bits.len() {
            return Err(SharelyError::BitmapIndexOutOfRange);
        }
        let bit_offset = (index % 8) as u8;
        let mask = 1u8 << bit_offset;
        Ok(self.bits[byte_index] & mask != 0)
    }

    /// Marks entitlement `index` as paid, unless it already is: the check and
    /// the write are one step.
    pub fn try_set(&mut self, index: u64) -> (r: Result<(), SharelyError>)
        ensures
            match r {
                Ok(()) => {
                    &&& old(self).in_range(index)
                    &&& !old(self).is_set(index as int)
                    &&& final(self).quest == old(self).quest
                    &&& final(self).shard_id == old(self).shard_id
                    &&& final(self).user_count == old(self).user_count
                    &&& final(self).bits@.len() == old(self).bits@.len()
                    &&& forall|j: int|
                        0 <= j < 8 * old(self).bits@.len() ==> #[trigger] final(self).is_set(j)
                            == (j == index || old(self).is_set(j))
                },
                Err(e) => {
                    &&& *final(self) == *old(self)
                    &&& e == if !old(self).in_range(index) {
                        SharelyError::BitmapIndexOutOfRange
                    } else {
                        SharelyError::AlreadyClaimed
                    }
                    &&& old(self).in_range(index) ==> old(self).is_set(index as int)
                },
            },
    {
        match self.is_set_at(index) {
            Err(e) => Err(e),
            Ok(true) => Err(SharelyError::AlreadyClaimed),
            Ok(false) => {
                let byte_index = (index / 8) as usize;
                let bit_offset = (index % 8) as u8;
                let mask = 1u8 << bit_offset;
                let ghost before = self.bits@;
                let b = self.bits[byte_index];
                self.bits.set(byte_index, b | mask);
                assert forall|j: int|
                    0 <= j < 8 * before.len() implies #[trigger] bit_of(self.bits@, j) == (j == index
                        || bit_of(before, j)) by {
                    if j / 8 == byte_index as int {
                        lemma_set_bit(b, bit_offset, (j % 8) as u8);
                    }
                }
                Ok(())
            },
        }
    }

    /// Sizes the shard for `user_count` users: bytes that stay keep their
    /// bits, new bytes are zero.
    pub fn resize(&mut self, user_count: u32)
        ensures
            final(self).quest == old(self).quest,
            final(self).shard_id == old(self).shard_id,
            final(self).user_count == user_count,
            final(self).bits@ == resized(old(self).bits@, bitmap_len(user_count)),
            final(self).wf(),
            old(self).is_clear() ==> final(self).is_clear(),
    {
        let len = ((user_count as u64 + 7) / 8) as usize;
        let mut bits: Vec<u8> = Vec::new();
        let mut i: usize = 0;
        while i < len
            invariant
                i <= len,
                len == bitmap_len(user_count),
                bits@ == resized(self.bits@, len as int).subrange(0, i as int),
            decreases len - i,
        {
            if i < self.bits.len() {
                bits.push(self.bits[i]);
            } else {
                bits.push(0u8);
            }
            assert(bits@ =~= resized(self.bits@, len as int).subrange(0, i + 1));
            i = i + 1;
        }
        assert(bits@ =~= resized(self.bits@, len as int));
        proof {
            if self.is_clear() {
                assert forall|i: int| 0 <= i < 8 * bits@.len() implies !#[trigger] bit_of(bits@, i) by {
                    if i / 8 < self.bits@.len() {
                        assert(!self.is_set(i));
                    } else {
                        lemma_zero_byte_has_no_bit((i % 8) as u8);
                    }
                }
            }
        }
        self.bits = bits;
        self.user_count = user_count;
    }
}

} // verus!
