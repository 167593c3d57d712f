use crate::governance::GovernanceProposal;
use crate::validator_rewards::ValidatorComplianceLog;
use vstd::prelude::*;

verus! {

/// A contract principal: an address on the secondary layer.
#[derive(Debug)]
pub struct Principal(pub String);

impl Principal {
    pub fn new(address: String) -> (r: Principal)
        ensures
            r.0 == address,
    {
        Principal(address)
    }
}

/// A request to burn wrapped tokens for a transaction.
#[derive(Debug)]
pub struct BurnRequest {
    pub address: String,
    pub amount: u64,
    pub transaction_hash: String,
}

/// A request to mint wrapped tokens.
#[derive(Debug)]
pub struct MintRequest {
    pub address: String,
    pub amount: u64,
}

/// A proposal as submitted through the request surface.
#[derive(Debug)]
pub struct ProposalRequest {
    pub description: String,
    pub param: String,
    pub value: u64,
}

#[derive(Debug)]
pub struct ProposalResponse {
    pub success: bool,
    pub proposal_id: Option<u64>,
    pub message: String,
}

#[derive(Debug)]
pub struct ProposalsListResponse {
    pub success: bool,
    pub proposals: Vec<GovernanceProposal>,
}

/// A validator registration as submitted through the request surface.
#[derive(Debug)]
pub struct RegisterNodeRequest {
    pub address: String,
    pub staked_btcz: u64,
}

#[derive(Debug)]
pub struct RegisterNodeResponse {
    pub success: bool,
    pub message: String,
}

#[derive(Debug)]
pub struct ComplianceLogsResponse {
    pub success: bool,
    pub logs: Vec<ValidatorComplianceLog>,
    pub message: String,
}

/// A request refused for want of valid credentials.
#[derive(Debug, Clone, Copy, PartialEq, Eq, Structural)]
pub struct Unauthorized;

} // verus!
