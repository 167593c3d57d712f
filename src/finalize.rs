use crate::encoding::str_equal;
use crate::errors::BridgeError;
use vstd::prelude::*;

verus! {

/// A Merkle root finalized for a block height.
#[derive(Debug)]
pub struct FinalizationRecord {
    pub block_height: u64,
    pub merkle_root: String,
}

impl FinalizationRecord {
    pub fn duplicate(&self) -> (r: FinalizationRecord)
        ensures
            r == *self,
    {
        FinalizationRecord { block_height: self.block_height, merkle_root: self.merkle_root.clone() }
    }
}

pub open spec fn has_height(s: Seq<FinalizationRecord>, h: u64) -> bool {
    exists|i: int| 0 <= i < s.len() && #[trigger] s[i].block_height == h
}

/// The log after merging `records` in order: each one whose height is not
/// present yet is appended.
pub open spec fn merged(s: Seq<FinalizationRecord>, records: Seq<FinalizationRecord>) -> Seq<
    FinalizationRecord,
>
    decreases records.len(),
{
    if records.len() == 0 {
        s
    } else {
        let next = if has_height(s, records[0].block_height) {
            s
        } else {
            s.push(records[0])
        };
        merged(next, records.drop_first())
    }
}

/// Finalized roots, at most one per block height.
#[derive(Debug)]
pub struct FinalizedState {
    pub finalized_merkle_roots: Vec<FinalizationRecord>,
}

impl FinalizedState {
    pub fn new() -> (r: FinalizedState)
        ensures
            r.finalized_merkle_roots@.len() == 0,
    {
        FinalizedState { finalized_merkle_roots: Vec::new() }
    }

    fn holds_height(&self, h: u64) -> (r: bool)
        ensures
            r == has_height(self.finalized_merkle_roots@, h),
    {
        let mut i: usize = 0;
        while i < self.finalized_merkle_roots.len()
            invariant
                i <= self.finalized_merkle_roots.len(),
                forall|j: int| 0 <= j < i ==> self.finalized_merkle_roots@[j].block_height != h,
            decreases self.finalized_merkle_roots.len() - i,
        {
            if self.finalized_merkle_roots[i].block_height == h {
                return true;
            }
            i = i + 1;
        }
        false
    }

    /// Records a finalization; a second one for the same height is rejected.
    pub fn add_finalization(&mut self, record: FinalizationRecord) -> (r: Result<(), BridgeError>)
        ensures
            r is Err <==> has_height(old(self).finalized_merkle_roots@, record.block_height),
            r is Err ==> r == Err::<(), BridgeError>(BridgeError::DuplicateFinalization)
                && final(self).finalized_merkle_roots@ == old(self).finalized_merkle_roots@,
            r is Ok ==> final(self).finalized_merkle_roots@ == old(
                self,
            ).finalized_merkle_roots@.push(record),
    {
        if self.holds_height(record.block_height) {
            return Err(BridgeError::DuplicateFinalization);
        }
        self.finalized_merkle_roots.push(record);
        Ok(())
    }

    /// Every finalization, in the order recorded.
    pub fn get_finalizations(&self) -> (r: Vec<FinalizationRecord>)
        ensures
            r@ == self.finalized_merkle_roots@,
    {
        let mut out: Vec<FinalizationRecord> = Vec::new();
        let mut i: usize = 0;
        while i < self.finalized_merkle_roots.len()
            invariant
                i <= self.finalized_merkle_roots.len(),
                out@ == self.finalized_merkle_roots@.subrange(0, i as int),
            decreases self.finalized_merkle_roots.len() - i,
        {
            out.push(self.finalized_merkle_roots[i].duplicate());
            i = i + 1;
            assert(out@ =~= self.finalized_merkle_roots@.subrange(0, i as int));
        }
        assert(out@ =~= self.finalized_merkle_roots@);
        out
    }

    /// Whether this root was finalized for this height.
    pub fn validate_merkle_root(&self, block_height: u64, merkle_root: &str) -> (r: bool)
        ensures
            r == exists|i: int|
                0 <= i < self.finalized_merkle_roots@.len()
                    && #[trigger] self.finalized_merkle_roots@[i].block_height == block_height
                    && self.finalized_merkle_roots@[i].merkle_root@ == merkle_root@,
    {
        let mut i: usize = 0;
        while i < self.finalized_merkle_roots.len()
            invariant
                i <= self.finalized_merkle_roots.len(),
                forall|j: int|
                    0 <= j < i ==> !(self.finalized_merkle_roots@[j].block_height == block_height
                        && self.finalized_merkle_roots@[j].merkle_root@ == merkle_root@),
            decreases self.finalized_merkle_roots.len() - i,
        {
            let rec = &self.finalized_merkle_roots[i];
            if rec.block_height == block_height && str_equal(rec.merkle_root.as_str(), merkle_root) {
                return true;
            }
            i = i + 1;
        }
        false
    }

    /// Merges records from elsewhere, skipping heights already present.
    pub fn synchronize_finalization(&mut self, records: Vec<FinalizationRecord>) -> (r: Result<
        (),
        BridgeError,
    >)
        ensures
            r is Ok,
            final(self).finalized_merkle_roots@ == merged(
                old(self).finalized_merkle_roots@,
                records@,
            ),
    {
        let mut i: usize = 0;
        assert(records@.skip(0) =~= records@);
        while i < records.len()
            invariant
                i <= records.len(),
                merged(self.finalized_merkle_roots@, records@.skip(i as int)) == merged(
                    old(self).finalized_merkle_roots@,
                    records@,
                ),
            decreases records.len() - i,
        {
            assert(records@.skip(i as int).drop_first() =~= records@.skip(i + 1));
            let rec = records[i].duplicate();
            if !self.holds_height(rec.block_height) {
                self.finalized_merkle_roots.push(rec);
            }
            i = i + 1;
        }
        assert(records@.skip(i as int) =~= Seq::<FinalizationRecord>::empty());
        Ok(())
    }
}

} // verus!
