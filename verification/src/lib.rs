//! A small on-chain governance engine: a member registry, a proposal ledger
//! with vote accounting, an encoder for delegated and cross-chain proposals,
//! and a capability interface for the surrounding Super Organization.

pub mod account;
pub mod dao;
pub mod error;
pub mod message;

pub use account::AccountId;
pub use dao::{BasicProposal, Dao, DaoMessage, DaoView, Member, SuperDaoClient};
pub use error::{DaoError, SuperDaoError};
pub use message::{
    encode_chain_call, encode_contract_call, Asset, Call, ChainCall, ContractCall, Instruction,
    Junction, Location, OriginKind, Vote, Weight, WeightLimit,
};
