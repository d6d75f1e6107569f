//! What a factory hands out: the chain of operations that provisions a tender, and
//! what is to happen once that chain has settled.

use vstd::prelude::*;
use vstd::string::StringExecFns;

use crate::create_tender::{TenderParameters, TenderParametersView};
use crate::decimal::{append_decimal, decimal};

verus! {

/// The amount attached to the outgoing calls that carry none.
pub const NO_DEPOSIT: u128 = 0;

/// What is remembered of a creation while its chain is under way, and handed to
/// [`TenderFactory::on_tender_create`] when the chain has settled.
#[derive(Clone, Debug, PartialEq, Eq)]
pub struct PendingCreation {
    /// The account reserved for the tender.
    pub tender_account_id: String,
    /// The amount that was attached to the creation.
    pub attached_deposit: u128,
    /// The account that asked for the creation, and gets the deposit back if the
    /// chain fails.
    pub predecessor_account_id: String,
}

/// A [`PendingCreation`] as text and numbers.
pub struct PendingCreationView {
    pub tender_account_id: Seq<char>,
    pub attached_deposit: u128,
    pub predecessor_account_id: Seq<char>,
}

impl View for PendingCreation {
    type V = PendingCreationView;

    open spec fn view(&self) -> PendingCreationView {
        PendingCreationView {
            tender_account_id: self.tender_account_id@,
            attached_deposit: self.attached_deposit,
            predecessor_account_id: self.predecessor_account_id@,
        }
    }
}

/// One step of a provisioning chain. Each step acts on the account that the chain
/// is about.
#[derive(Clone, Debug, PartialEq, Eq)]
pub enum ChainStep {
    /// The account is created.
    CreateAccount,
    /// `amount` is transferred to the account.
    Transfer { amount: u128 },
    /// The code of a tender is installed at the account.
    DeployContract,
    /// The method `method_name` of the account is called with `parameters`, with
    /// `amount` attached and `gas` to spend.
    FunctionCall { method_name: String, parameters: TenderParameters, amount: u128, gas: u64 },
}

/// A [`ChainStep`] as text, bytes and numbers.
pub enum ChainStepView {
    CreateAccount,
    Transfer { amount: u128 },
    DeployContract,
    FunctionCall { method_name: Seq<char>, parameters: TenderParametersView, amount: u128, gas: u64 },
}

impl View for ChainStep {
    type V = ChainStepView;

    open spec fn view(&self) -> ChainStepView {
        match *self {
            ChainStep::CreateAccount => ChainStepView::CreateAccount,
            ChainStep::Transfer { amount } => ChainStepView::Transfer { amount },
            ChainStep::DeployContract => ChainStepView::DeployContract,
            ChainStep::FunctionCall { method_name, parameters, amount, gas } => {
                ChainStepView::FunctionCall {
                    method_name: method_name@,
                    parameters: parameters@,
                    amount,
                    gas,
                }
            },
        }
    }
}

/// The chain of operations that provisions a tender. It is to be issued as one
/// request: `steps` act on the account `tender_account_id`, in their order, and
/// each of them only once the one before has succeeded. Whatever comes of them,
/// the factory is then to be called back with `callback`, with [`NO_DEPOSIT`]
/// attached and `callback_gas` to spend.
#[derive(Clone, Debug, PartialEq, Eq)]
pub struct ProvisioningChain {
    pub tender_account_id: String,
    pub steps: Vec<ChainStep>,
    pub callback: PendingCreation,
    pub callback_gas: u64,
}

/// A [`ProvisioningChain`] as text, bytes and numbers.
pub struct ProvisioningChainView {
    pub tender_account_id: Seq<char>,
    pub steps: Seq<ChainStepView>,
    pub callback: PendingCreationView,
    pub callback_gas: u64,
}

impl View for ProvisioningChain {
    type V = ProvisioningChainView;

    open spec fn view(&self) -> ProvisioningChainView {
        ProvisioningChainView {
            tender_account_id: self.tender_account_id@,
            steps: self.steps@.map_values(|step: ChainStep| step@),
            callback: self.callback@,
            callback_gas: self.callback_gas,
        }
    }
}

/// What is to happen once a provisioning chain has settled.
#[derive(Clone, Debug, PartialEq, Eq)]
pub enum Settlement {
    /// The chain succeeded and the reservation stands. The registry
    /// `verify_tender_account_id` is to be asked, with [`NO_DEPOSIT`] and `gas`, to
    /// add `tender_account_id`; its answer is the outcome of the creation.
    Committed { verify_tender_account_id: String, tender_account_id: String, gas: u64 },
    /// The chain failed and the reservation of `tender_account_id` is released.
    /// `attached_deposit` is to be transferred back to `predecessor_account_id`;
    /// the outcome of the creation is `false`.
    Compensated { tender_account_id: String, predecessor_account_id: String, attached_deposit: u128 },
}

/// A [`Settlement`] as text and numbers.
pub enum SettlementView {
    Committed { verify_tender_account_id: Seq<char>, tender_account_id: Seq<char>, gas: u64 },
    Compensated {
        tender_account_id: Seq<char>,
        predecessor_account_id: Seq<char>,
        attached_deposit: u128,
    },
}

impl View for Settlement {
    type V = SettlementView;

    open spec fn view(&self) -> SettlementView {
        match *self {
            Settlement::Committed { verify_tender_account_id, tender_account_id, gas } => {
                SettlementView::Committed {
                    verify_tender_account_id: verify_tender_account_id@,
                    tender_account_id: tender_account_id@,
                    gas,
                }
            },
            Settlement::Compensated {
                tender_account_id,
                predecessor_account_id,
                attached_deposit,
            } => SettlementView::Compensated {
                tender_account_id: tender_account_id@,
                predecessor_account_id: predecessor_account_id@,
                attached_deposit,
            },
        }
    }
}

impl SettlementView {
    /// The outcome of the creation, as far as it is known with the settlement: none
    /// yet after a success, which waits for the registry's answer, and `false`
    /// after a failure.
    pub open spec fn value(self) -> Option<bool> {
        match self {
            SettlementView::Committed { .. } => None,
            SettlementView::Compensated { .. } => Some(false),
        }
    }

    /// The line that records the settlement.
    pub open spec fn record(self) -> Seq<char> {
        match self {
            SettlementView::Committed { tender_account_id, .. } => "The tender @"@
                + tender_account_id + " was successfully created. Securing..."@,
            SettlementView::Compensated {
                tender_account_id,
                predecessor_account_id,
                attached_deposit,
            } => "The tender @"@ + tender_account_id
                + " creation process has failed. Returning attached deposit of "@ + decimal(
                attached_deposit as nat,
            ) + " to @"@ + predecessor_account_id,
        }
    }
}

impl Settlement {
    /// The outcome of the creation, as far as it is known with the settlement: none
    /// yet after a success, which waits for the registry's answer, and `false`
    /// after a failure.
    pub fn value(&self) -> (known: Option<bool>)
        ensures
            known == self@.value(),
    {
        match self {
            Settlement::Committed { .. } => None,
            Settlement::Compensated { .. } => Some(false),
        }
    }

    /// The line that records the settlement: which tender it is about, and after a
    /// failure how much goes back to whom.
    pub fn record(&self) -> (line: String)
        ensures
            line@ == self@.record(),
    {
        let mut line = String::from_str("The tender @");
        match self {
            Settlement::Committed { tender_account_id, .. } => {
                line.append(tender_account_id.as_str());
                line.append(" was successfully created. Securing...");
            },
            Settlement::Compensated {
                tender_account_id,
                predecessor_account_id,
                attached_deposit,
            } => {
                line.append(tender_account_id.as_str());
                line.append(" creation process has failed. Returning attached deposit of ");
                append_decimal(&mut line, *attached_deposit);
                line.append(" to @");
                line.append(predecessor_account_id.as_str());
            },
        }
        line
    }
}

} // verus!
