//! Tender provisioning and the trust registry behind it.
//!
//! A [`create_tender::TenderFactory`] reserves an account for each new tender and
//! describes the chain of operations that brings it into existence; once that chain
//! has settled, it either asks the registry to list the tender or releases the
//! reservation and hands the deposit back. A [`verify_tender::VerifyTenderContract`]
//! is that registry: the list of verified tenders, the list of factories allowed to
//! add to it, and the one account that manages both.
//!
//! Neither contract reads its surroundings. The caller, the contract's own account,
//! the attached deposit and the outcome of a settled chain are handed in as plain
//! values, and what has to happen next comes back as a value.

pub mod account_id;
pub mod account_set;
pub mod chain;
pub mod context;
pub mod create_tender;
pub mod decimal;
pub mod gas;
pub mod pipeline;
pub mod verify_tender;
