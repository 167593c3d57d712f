use crate::encoding::str_equal;
use crate::errors::BridgeError;
use vstd::prelude::*;

verus! {

/// A burn presented for settlement; `timestamp` is in seconds since the Unix epoch.
#[derive(Debug)]
pub struct BurnRecord {
    pub tx_id: String,
    pub amount: u64,
    pub timestamp: u64,
}

pub open spec fn contains_text(s: Seq<String>, t: Seq<char>) -> bool {
    exists|i: int| 0 <= i < s.len() && #[trigger] s[i]@ == t
}

/// The ids of the burns accepted so far.
#[derive(Debug)]
pub struct ValidatorState {
    pub processed_burns: Vec<String>,
}

/// No id occurs twice.
pub open spec fn distinct_texts(s: Seq<String>) -> bool {
    forall|i: int, j: int| 0 <= i < j < s.len() ==> #[trigger] s[i]@ != #[trigger] s[j]@
}

impl ValidatorState {
    /// Each accepted id is recorded once.
    pub open spec fn wf(&self) -> bool {
        distinct_texts(self.processed_burns@)
    }

    pub fn new() -> (r: ValidatorState)
        ensures
            r.wf(),
            r.processed_burns@.len() == 0,
    {
        ValidatorState { processed_burns: Vec::new() }
    }

    pub fn duplicate(&self) -> (r: ValidatorState)
        ensures
            r.processed_burns@ == self.processed_burns@,
    {
        let mut out: Vec<String> = Vec::new();
        let mut i: usize = 0;
        while i < self.processed_burns.len()
            invariant
                i <= self.processed_burns.len(),
                out@ == self.processed_burns@.subrange(0, i as int),
            decreases self.processed_burns.len() - i,
        {
            out.push(self.processed_burns[i].clone());
            i = i + 1;
            assert(out@ =~= self.processed_burns@.subrange(0, i as int));
        }
        assert(out@ =~= self.processed_burns@);
        ValidatorState { processed_burns: out }
    }

    /// Accepts a burn once: a repeated id is rejected first, then a zero amount.
    pub fn validate_burn(&mut self, record: &BurnRecord) -> (r: Result<(), BridgeError>)
        requires
            old(self).wf(),
        ensures
            final(self).wf(),
            r == Err::<(), BridgeError>(BridgeError::DuplicateTransaction) <==> contains_text(
                old(self).processed_burns@,
                record.tx_id@,
            ),
            r == Err::<(), BridgeError>(BridgeError::InvalidAmount) <==> !contains_text(
                old(self).processed_burns@,
                record.tx_id@,
            ) && record.amount == 0,
            r is Ok <==> !contains_text(old(self).processed_burns@, record.tx_id@) && record.amount
                > 0,
            r is Err ==> final(self).processed_burns@ == old(self).processed_burns@,
            r is Ok ==> final(self).processed_burns@ == old(self).processed_burns@.push(
                record.tx_id,
            ),
    {
        if self.validate_transaction(record.tx_id.as_str()) {
            return Err(BridgeError::DuplicateTransaction);
        }
        if record.amount == 0 {
            return Err(BridgeError::InvalidAmount);
        }
        let ghost before = self.processed_burns@;
        self.processed_burns.push(record.tx_id.clone());
        assert forall|i: int, j: int| 0 <= i < j < self.processed_burns@.len() implies #[trigger] self.processed_burns@[i]@
            != #[trigger] self.processed_burns@[j]@ by {
            if j < before.len() {
                assert(before[i]@ != before[j]@);
            } else {
                assert(before[i]@ != record.tx_id@);
            }
        }
        Ok(())
    }

    /// Whether a burn with this id was accepted.
    pub fn validate_transaction(&self, tx_id: &str) -> (r: bool)
        ensures
            r == contains_text(self.processed_burns@, tx_id@),
    {
        let mut i: usize = 0;
        while i < self.processed_burns.len()
            invariant
                i <= self.processed_burns.len(),
                forall|j: int| 0 <= j < i ==> self.processed_burns@[j]@ != tx_id@,
            decreases self.processed_burns.len() - i,
        {
            if str_equal(self.processed_burns[i].as_str(), tx_id) {
                return true;
            }
            i = i + 1;
        }
        false
    }

    /// The accepted ids, in the order they were accepted.
    pub fn get_processed_burns(&self) -> (r: Vec<String>)
        requires
            self.wf(),
        ensures
            r@ == self.processed_burns@,
            distinct_texts(r@),
    {
        self.duplicate().processed_burns
    }
}

} // verus!
