//! What a contract is told about the call it serves.

use vstd::prelude::*;

verus! {

/// The circumstances of one call to a contract.
#[derive(Clone, Debug, PartialEq, Eq)]
pub struct Context {
    /// The account of the contract that is being called.
    pub current_account_id: String,
    /// The account that makes the call.
    pub predecessor_account_id: String,
    /// The amount attached to the call.
    pub attached_deposit: u128,
}

/// A [`Context`] as text and numbers.
pub struct ContextView {
    pub current_account_id: Seq<char>,
    pub predecessor_account_id: Seq<char>,
    pub attached_deposit: u128,
}

impl View for Context {
    type V = ContextView;

    open spec fn view(&self) -> ContextView {
        ContextView {
            current_account_id: self.current_account_id@,
            predecessor_account_id: self.predecessor_account_id@,
            attached_deposit: self.attached_deposit,
        }
    }
}

impl ContextView {
    /// Whether the contract is calling itself.
    pub open spec fn is_self_call(self) -> bool {
        self.predecessor_account_id == self.current_account_id
    }
}

} // verus!
