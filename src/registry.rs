use crate::clock::unix_now;
use crate::errors::BridgeError;
use vstd::prelude::*;

verus! {

/// A staking validator. `registered_at` is in seconds since the Unix epoch.
#[derive(Debug)]
pub struct ValidatorNode {
    pub address: String,
    pub staked_btcz: u64,
    pub registered_at: i64,
    pub active: bool,
    pub activity_percentage: u64,
    pub compliance_percentage: u64,
    pub voting_power: u64,
}

impl ValidatorNode {
    pub fn duplicate(&self) -> (r: ValidatorNode)
        ensures
            r == *self,
    {
        ValidatorNode {
            address: self.address.clone(),
            staked_btcz: self.staked_btcz,
            registered_at: self.registered_at,
            active: self.active,
            activity_percentage: self.activity_percentage,
            compliance_percentage: self.compliance_percentage,
            voting_power: self.voting_power,
        }
    }
}

pub open spec fn unique_nodes(s: Seq<ValidatorNode>) -> bool {
    forall|i: int, j: int|
        0 <= i < j < s.len() ==> #[trigger] s[i].address@ != #[trigger] s[j].address@
}

/// Position `k` holds the node registered under `a`.
pub open spec fn node_at(s: Seq<ValidatorNode>, k: int, a: Seq<char>) -> bool {
    0 <= k < s.len() && s[k].address@ == a
}

pub open spec fn has_node(s: Seq<ValidatorNode>, a: Seq<char>) -> bool {
    exists|k: int| #[trigger] node_at(s, k, a)
}

/// The validator set, keyed by address, with the stake that registration asks.
#[derive(Debug)]
pub struct ValidatorRegistry {
    pub nodes: Vec<ValidatorNode>,
    pub minimum_stake: u64,
}

impl ValidatorRegistry {
    pub open spec fn wf(&self) -> bool {
        unique_nodes(self.nodes@)
    }

    pub fn new(minimum_stake: u64) -> (r: ValidatorRegistry)
        ensures
            r.wf(),
            r.nodes@.len() == 0,
            r.minimum_stake == minimum_stake,
    {
        ValidatorRegistry { nodes: Vec::new(), minimum_stake }
    }

    /// A registry over `nodes`: of several nodes with one address only the
    /// first is kept, so every address of `nodes` is registered once.
    pub fn from_nodes(minimum_stake: u64, nodes: Vec<ValidatorNode>) -> (r: ValidatorRegistry)
        ensures
            r.wf(),
            r.minimum_stake == minimum_stake,
            forall|i: int|
                0 <= i < nodes@.len() ==> has_node(r.nodes@, #[trigger] nodes@[i].address@),
            forall|k: int| 0 <= k < r.nodes@.len() ==> nodes@.contains(#[trigger] r.nodes@[k]),
    {
        let mut reg = ValidatorRegistry::new(minimum_stake);
        let mut i: usize = 0;
        while i < nodes.len()
            invariant
                i <= nodes.len(),
                reg.wf(),
                reg.minimum_stake == minimum_stake,
                forall|j: int| 0 <= j < i ==> has_node(reg.nodes@, #[trigger] nodes@[j].address@),
                forall|k: int| 0 <= k < reg.nodes@.len() ==> nodes@.contains(#[trigger] reg.nodes@[k]),
            decreases nodes.len() - i,
        {
            let node = nodes[i].duplicate();
            if reg.find(&node.address).is_none() {
                let ghost before = reg.nodes@;
                reg.nodes.push(node);
                assert(unique_nodes(reg.nodes@)) by {
                    assert forall|a: int, b: int| 0 <= a < b < reg.nodes@.len() implies #[trigger] reg.nodes@[a].address@
                        != #[trigger] reg.nodes@[b].address@ by {
                        if b == before.len() {
                            assert(!node_at(before, a, reg.nodes@[b].address@));
                        }
                    }
                }
                assert forall|j: int| 0 <= j <= i implies has_node(reg.nodes@, #[trigger] nodes@[j].address@) by {
                    if j == i {
                        assert(node_at(reg.nodes@, before.len() as int, nodes@[j].address@));
                    } else {
                        let k = choose|k: int| #[trigger] node_at(before, k, nodes@[j].address@);
                        assert(node_at(reg.nodes@, k, nodes@[j].address@));
                    }
                }
                assert forall|k: int| 0 <= k < reg.nodes@.len() implies nodes@.contains(
                    #[trigger] reg.nodes@[k],
                ) by {
                    if k == before.len() {
                        assert(nodes@[i as int] == reg.nodes@[k]);
                    } else {
                        assert(reg.nodes@[k] == before[k]);
                    }
                }
            }
            i = i + 1;
        }
        reg
    }

    fn find(&self, address: &String) -> (r: Option<usize>)
        ensures
            r matches Some(k) ==> node_at(self.nodes@, k as int, address@),
            r is None ==> !has_node(self.nodes@, address@),
    {
        let mut i: usize = 0;
        while i < self.nodes.len()
            invariant
                i <= self.nodes.len(),
                forall|j: int| 0 <= j < i ==> self.nodes@[j].address@ != address@,
            decreases self.nodes.len() - i,
        {
            if self.nodes[i].address == *address {
                return Some(i);
            }
            i = i + 1;
        }
        assert(!has_node(self.nodes@, address@)) by {
            if has_node(self.nodes@, address@) {
                let k = choose|k: int| #[trigger] node_at(self.nodes@, k, address@);
                assert(self.nodes@[k].address@ != address@);
            }
        }
        None
    }

    /// Registers a validator at the current time; see `register_node_at`.
    pub fn register_node(&mut self, address: String, staked_btcz: u64) -> (r: Result<
        (),
        BridgeError,
    >)
        requires
            old(self).wf(),
        ensures
            final(self).wf(),
            r == Err::<(), BridgeError>(BridgeError::InsufficientStake) <==> staked_btcz < old(
                self,
            ).minimum_stake,
            r == Err::<(), BridgeError>(BridgeError::ValidatorAlreadyRegistered) <==> staked_btcz
                >= old(self).minimum_stake && has_node(old(self).nodes@, address@),
            r is Ok <==> staked_btcz >= old(self).minimum_stake && !has_node(
                old(self).nodes@,
                address@,
            ),
            r is Err ==> *final(self) == *old(self),
            r is Ok ==> final(self).minimum_stake == old(self).minimum_stake
                && final(self).nodes@.len() == old(self).nodes@.len() + 1
                && final(self).nodes@.drop_last() == old(self).nodes@ && registered_fresh(
                final(self).nodes@.last(),
                address@,
                staked_btcz,
            ),
    {
        let now = unix_now();
        self.register_node_at(address, staked_btcz, now)
    }

    /// Registers a validator: a stake below the minimum and an address already
    /// present are rejected. A new node is active, at 100% activity and
    /// compliance, with voting power equal to its stake.
    pub fn register_node_at(&mut self, address: String, staked_btcz: u64, registered_at: i64) -> (r:
        Result<(), BridgeError>)
        requires
            old(self).wf(),
        ensures
            final(self).wf(),
            r == Err::<(), BridgeError>(BridgeError::InsufficientStake) <==> staked_btcz < old(
                self,
            ).minimum_stake,
            r == Err::<(), BridgeError>(BridgeError::ValidatorAlreadyRegistered) <==> staked_btcz
                >= old(self).minimum_stake && has_node(old(self).nodes@, address@),
            r is Ok <==> staked_btcz >= old(self).minimum_stake && !has_node(
                old(self).nodes@,
                address@,
            ),
            r is Err ==> *final(self) == *old(self),
            r is Ok ==> final(self).minimum_stake == old(self).minimum_stake
                && final(self).nodes@ == old(self).nodes@.push(
                ValidatorNode {
                    address,
                    staked_btcz,
                    registered_at,
                    active: true,
                    activity_percentage: 100,
                    compliance_percentage: 100,
                    voting_power: staked_btcz,
                },
            ),
    {
        if staked_btcz < self.minimum_stake {
            return Err(BridgeError::InsufficientStake);
        }
        if self.find(&address).is_some() {
            return Err(BridgeError::ValidatorAlreadyRegistered);
        }
        let node = ValidatorNode {
            address,
            staked_btcz,
            registered_at,
            active: true,
            activity_percentage: 100,
            compliance_percentage: 100,
            voting_power: staked_btcz,
        };
        let ghost before = self.nodes@;
        self.nodes.push(node);
        assert(unique_nodes(self.nodes@)) by {
            assert forall|i: int, j: int| 0 <= i < j < self.nodes@.len() implies #[trigger] self.nodes@[i].address@
                != #[trigger] self.nodes@[j].address@ by {
                if j == before.len() {
                    assert(!node_at(before, i, self.nodes@[j].address@));
                }
            }
        }
        Ok(())
    }

    /// Marks the validator at `address` inactive.
    pub fn deactivate_node(&mut self, address: &String) -> (r: Result<(), BridgeError>)
        requires
            old(self).wf(),
        ensures
            final(self).wf(),
            r is Err <==> !has_node(old(self).nodes@, address@),
            r is Err ==> r == Err::<(), BridgeError>(BridgeError::ValidatorNotFound) && *final(self)
                == *old(self),
            r is Ok ==> final(self).minimum_stake == old(self).minimum_stake && exists|k: int|
                #[trigger] node_at(old(self).nodes@, k, address@) && final(self).nodes@ == old(
                    self,
                ).nodes@.update(k, ValidatorNode { active: false, ..old(self).nodes@[k] }),
    {
        match self.find(address) {
            None => Err(BridgeError::ValidatorNotFound),
            Some(k) => {
                let mut node = self.nodes[k].duplicate();
                node.active = false;
                let ghost before = self.nodes@;
                self.nodes.set(k, node);
                assert(unique_nodes(self.nodes@)) by {
                    assert forall|i: int, j: int| 0 <= i < j < self.nodes@.len() implies #[trigger] self.nodes@[i].address@
                        != #[trigger] self.nodes@[j].address@ by {
                        assert(before[i].address@ != before[j].address@);
                    }
                }
                assert(node_at(before, k as int, address@));
                Ok(())
            },
        }
    }

    /// Adds `additional_stake` to the stake and to the voting power of the
    /// validator at `address`.
    pub fn update_stake(&mut self, address: &String, additional_stake: u64) -> (r: Result<
        (),
        BridgeError,
    >)
        requires
            old(self).wf(),
        ensures
            final(self).wf(),
            r == Err::<(), BridgeError>(BridgeError::ValidatorNotFound) <==> !has_node(
                old(self).nodes@,
                address@,
            ),
            r == Err::<(), BridgeError>(BridgeError::Overflow) <==> exists|k: int|
                #[trigger] node_at(old(self).nodes@, k, address@) && (old(self).nodes@[k].staked_btcz
                    + additional_stake > u64::MAX || old(self).nodes@[k].voting_power
                    + additional_stake > u64::MAX),
            r is Ok <==> has_node(old(self).nodes@, address@) && forall|k: int|
                #[trigger] node_at(old(self).nodes@, k, address@) ==> old(self).nodes@[k].staked_btcz
                    + additional_stake <= u64::MAX && old(self).nodes@[k].voting_power
                    + additional_stake <= u64::MAX,
            r is Err ==> *final(self) == *old(self),
            r is Ok ==> final(self).minimum_stake == old(self).minimum_stake && exists|k: int|
                #[trigger] node_at(old(self).nodes@, k, address@) && final(self).nodes@ == old(
                    self,
                ).nodes@.update(
                    k,
                    ValidatorNode {
                        staked_btcz: (old(self).nodes@[k].staked_btcz + additional_stake) as u64,
                        voting_power: (old(self).nodes@[k].voting_power + additional_stake) as u64,
                        ..old(self).nodes@[k]
                    },
                ),
    {
        match self.find(address) {
            None => Err(BridgeError::ValidatorNotFound),
            Some(k) => {
                let ghost before = self.nodes@;
                proof {
                    assert(node_at(before, k as int, address@));
                    assert forall|j: int| #[trigger] node_at(before, j, address@) implies j == k by {
                        if j < k {
                            assert(before[j].address@ != before[k as int].address@);
                        } else if j > k {
                            assert(before[k as int].address@ != before[j].address@);
                        }
                    }
                }
                if additional_stake > u64::MAX - self.nodes[k].staked_btcz || additional_stake
                    > u64::MAX - self.nodes[k].voting_power {
                    return Err(BridgeError::Overflow);
                }
                let mut node = self.nodes[k].duplicate();
                node.staked_btcz = node.staked_btcz + additional_stake;
                node.voting_power = node.voting_power + additional_stake;
                self.nodes.set(k, node);
                assert(unique_nodes(self.nodes@)) by {
                    assert forall|i: int, j: int| 0 <= i < j < self.nodes@.len() implies #[trigger] self.nodes@[i].address@
                        != #[trigger] self.nodes@[j].address@ by {
                        assert(before[i].address@ != before[j].address@);
                    }
                }
                Ok(())
            },
        }
    }

    /// Sets the activity and compliance percentages of the validator at `address`.
    pub fn update_activity_and_compliance(
        &mut self,
        address: &String,
        activity_percentage: u64,
        compliance_percentage: u64,
    ) -> (r: Result<(), BridgeError>)
        requires
            old(self).wf(),
        ensures
            final(self).wf(),
            r is Err <==> !has_node(old(self).nodes@, address@),
            r is Err ==> r == Err::<(), BridgeError>(BridgeError::ValidatorNotFound) && *final(self)
                == *old(self),
            r is Ok ==> final(self).minimum_stake == old(self).minimum_stake && exists|k: int|
                #[trigger] node_at(old(self).nodes@, k, address@) && final(self).nodes@ == old(
                    self,
                ).nodes@.update(
                    k,
                    ValidatorNode { activity_percentage, compliance_percentage, ..old(self).nodes@[k] },
                ),
    {
        match self.find(address) {
            None => Err(BridgeError::ValidatorNotFound),
            Some(k) => {
                let mut node = self.nodes[k].duplicate();
                node.activity_percentage = activity_percentage;
                node.compliance_percentage = compliance_percentage;
                let ghost before = self.nodes@;
                self.nodes.set(k, node);
                assert(unique_nodes(self.nodes@)) by {
                    assert forall|i: int, j: int| 0 <= i < j < self.nodes@.len() implies #[trigger] self.nodes@[i].address@
                        != #[trigger] self.nodes@[j].address@ by {
                        assert(before[i].address@ != before[j].address@);
                    }
                }
                assert(node_at(before, k as int, address@));
                Ok(())
            },
        }
    }

    /// Every registered validator, in registration order.
    pub fn list_nodes(&self) -> (r: Vec<ValidatorNode>)
        ensures
            r@ == self.nodes@,
    {
        let mut out: Vec<ValidatorNode> = Vec::new();
        let mut i: usize = 0;
        while i < self.nodes.len()
            invariant
                i <= self.nodes.len(),
                out@ == self.nodes@.subrange(0, i as int),
            decreases self.nodes.len() - i,
        {
            out.push(self.nodes[i].duplicate());
            i = i + 1;
            assert(out@ =~= self.nodes@.subrange(0, i as int));
        }
        assert(out@ =~= self.nodes@);
        out
    }

    /// The validator at `address`.
    pub fn get_node(&self, address: &String) -> (r: Result<ValidatorNode, BridgeError>)
        ensures
            r is Err <==> !has_node(self.nodes@, address@),
            r is Err ==> r == Err::<ValidatorNode, BridgeError>(BridgeError::ValidatorNotFound),
            r matches Ok(node) ==> exists|k: int|
                #[trigger] node_at(self.nodes@, k, address@) && node == self.nodes@[k],
    {
        match self.find(address) {
            None => Err(BridgeError::ValidatorNotFound),
            Some(k) => Ok(self.nodes[k].duplicate()),
        }
    }
}

/// A node as registration leaves it.
pub open spec fn registered_fresh(node: ValidatorNode, address: Seq<char>, stake: u64) -> bool {
    &&& node.address@ == address
    &&& node.staked_btcz == stake
    &&& node.active
    &&& node.activity_percentage == 100
    &&& node.compliance_percentage == 100
    &&& node.voting_power == stake
}

} // verus!
