use crate::errors::BridgeError;
use vstd::prelude::*;

verus! {

/// A bridge event reported for synchronisation (`event_type` is "burn" or "mint").
#[derive(Debug)]
pub struct EventRecord {
    pub event_type: String,
    pub tx_id: String,
    pub amount: u64,
    pub merkle_root: Option<String>,
    pub block_height: Option<u64>,
}

impl EventRecord {
    pub fn duplicate(&self) -> (r: EventRecord)
        ensures
            r == *self,
    {
        EventRecord {
            event_type: self.event_type.clone(),
            tx_id: self.tx_id.clone(),
            amount: self.amount,
            merkle_root: match &self.merkle_root {
                Some(m) => Some(m.clone()),
                None => None,
            },
            block_height: self.block_height,
        }
    }
}

/// The events received so far, in arrival order.
#[derive(Debug)]
pub struct EventSyncState {
    pub events: Vec<EventRecord>,
}

impl EventSyncState {
    pub fn new() -> (r: EventSyncState)
        ensures
            r.events@.len() == 0,
    {
        EventSyncState { events: Vec::new() }
    }

    pub fn add_event(&mut self, event: EventRecord) -> (r: Result<(), BridgeError>)
        ensures
            r is Ok,
            final(self).events@ == old(self).events@.push(event),
    {
        self.events.push(event);
        Ok(())
    }

    pub fn get_events(&self) -> (r: Vec<EventRecord>)
        ensures
            r@ == self.events@,
    {
        let mut out: Vec<EventRecord> = Vec::new();
        let mut i: usize = 0;
        while i < self.events.len()
            invariant
                i <= self.events.len(),
                out@ == self.events@.subrange(0, i as int),
            decreases self.events.len() - i,
        {
            out.push(self.events[i].duplicate());
            i = i + 1;
            assert(out@ =~= self.events@.subrange(0, i as int));
        }
        assert(out@ =~= self.events@);
        out
    }
}

} // verus!
