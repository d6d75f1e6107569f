//! The tender factory: it reserves an account for each new tender, describes the
//! chain of operations that provisions it, and settles the reservation once the
//! chain's outcome is known.

use vstd::prelude::*;
use vstd::string::StringExecFns;

use crate::account_id::{has_namespace_separator, is_account_id, is_well_formed, NAMESPACE_SEPARATOR};
use crate::account_set::{names_of, AccountSet};
use crate::chain::{
    ChainStep, ChainStepView, PendingCreation, PendingCreationView, ProvisioningChain,
    ProvisioningChainView, Settlement, SettlementView, NO_DEPOSIT,
};
use crate::context::{Context, ContextView};
use crate::gas;

verus! {

/// The least amount that has to be attached to the creation of a tender: 30 tokens,
/// in the smallest denomination, of which a token has 10^24.
pub const MIN_ATTACHED_BALANCE: u128 = 30_000_000_000_000_000_000_000_000;

/// Why the factory refused a call.
#[derive(Clone, Copy, Debug, PartialEq, Eq)]
pub enum FactoryError {
    /// The factory's state exists already.
    AlreadyInitialized,
    /// The account given for the registry is not well-formed.
    InvalidRegistry,
    /// Less than [`MIN_ATTACHED_BALANCE`] is attached.
    InsufficientDeposit,
    /// The registration identifier holds the namespace separator.
    InvalidIdentifierFormat,
    /// The tender's account, made of the registration identifier and the factory's
    /// account, is not well-formed.
    InvalidIdentifier,
    /// The owner's account is not well-formed.
    InvalidOwner,
    /// The tender's account is reserved already.
    IdentifierAlreadyReserved,
    /// The settlement of a chain was called by another account than the factory.
    ForgedContinuation,
}

impl FactoryError {
    /// The refusal in words.
    pub open spec fn text(self) -> Seq<char> {
        match self {
            FactoryError::AlreadyInitialized => "The contract is already initialized"@,
            FactoryError::InvalidRegistry => "The verify tender account ID is invalid"@,
            FactoryError::InsufficientDeposit => "Not enough attached deposit to issue the tender"@,
            FactoryError::InvalidIdentifierFormat => "The tender registration ID can't contain `.`"@,
            FactoryError::InvalidIdentifier => "The tender account ID is invalid"@,
            FactoryError::InvalidOwner => "The owner account ID is invalid"@,
            FactoryError::IdentifierAlreadyReserved => "The tender account ID already exists"@,
            FactoryError::ForgedContinuation => "Method is private"@,
        }
    }

    /// The refusal in words.
    pub fn message(&self) -> (words: &'static str)
        ensures
            words@ == self.text(),
    {
        match self {
            FactoryError::AlreadyInitialized => "The contract is already initialized",
            FactoryError::InvalidRegistry => "The verify tender account ID is invalid",
            FactoryError::InsufficientDeposit => "Not enough attached deposit to issue the tender",
            FactoryError::InvalidIdentifierFormat => "The tender registration ID can't contain `.`",
            FactoryError::InvalidIdentifier => "The tender account ID is invalid",
            FactoryError::InvalidOwner => "The owner account ID is invalid",
            FactoryError::IdentifierAlreadyReserved => "The tender account ID already exists",
            FactoryError::ForgedContinuation => "Method is private",
        }
    }
}

/// What a new tender is initialized with. The factory looks at the owner only; the
/// rest is handed through as it came.
#[derive(Clone, Debug, PartialEq, Eq)]
pub struct TenderParameters {
    /// The account that owns the tender.
    pub owner_id: String,
    /// The public key that secures the tender.
    pub tender_public_key: Vec<u8>,
    /// The proposal that the tender states.
    pub tender_proposal: String,
    /// The product or service that is asked for.
    pub product: String,
    /// The price of one unit of it.
    pub unitproductprice: u128,
    /// How many units are asked for.
    pub quantityproduct: u64,
    /// The industry of the tender's originator.
    pub industry: String,
    /// Where the product or service is to be delivered.
    pub location: String,
}

/// [`TenderParameters`] as text, bytes and numbers.
pub struct TenderParametersView {
    pub owner_id: Seq<char>,
    pub tender_public_key: Seq<u8>,
    pub tender_proposal: Seq<char>,
    pub product: Seq<char>,
    pub unitproductprice: u128,
    pub quantityproduct: u64,
    pub industry: Seq<char>,
    pub location: Seq<char>,
}

impl View for TenderParameters {
    type V = TenderParametersView;

    open spec fn view(&self) -> TenderParametersView {
        TenderParametersView {
            owner_id: self.owner_id@,
            tender_public_key: self.tender_public_key@,
            tender_proposal: self.tender_proposal@,
            product: self.product@,
            unitproductprice: self.unitproductprice,
            quantityproduct: self.quantityproduct,
            industry: self.industry@,
            location: self.location@,
        }
    }
}

/// What a factory holds: the accounts it has reserved, whether their chain is
/// still under way or has succeeded, and the account of the registry it reports to.
#[verifier::ext_equal]
pub struct FactoryState {
    pub tender_account_ids: Set<Seq<char>>,
    pub verify_tender_account_id: Seq<char>,
}

impl FactoryState {
    /// The state with `tender_account_id` among the reserved accounts.
    pub open spec fn reserve(self, tender_account_id: Seq<char>) -> FactoryState {
        FactoryState {
            tender_account_ids: self.tender_account_ids.insert(tender_account_id),
            ..self
        }
    }

    /// The state without `tender_account_id` among the reserved accounts.
    pub open spec fn release(self, tender_account_id: Seq<char>) -> FactoryState {
        FactoryState {
            tender_account_ids: self.tender_account_ids.remove(tender_account_id),
            ..self
        }
    }

    /// What the creation of a tender makes of this state, and what it answers: a
    /// refused call changes nothing, and any other reserves the tender's account
    /// and answers with the chain that provisions it.
    pub open spec fn create_tender(
        self,
        ctx: ContextView,
        registration_id: Seq<char>,
        parameters: TenderParametersView,
    ) -> (FactoryState, Result<ProvisioningChainView, FactoryError>) {
        match create_tender_refusal(self, ctx, registration_id, parameters.owner_id) {
            Some(e) => (self, Err(e)),
            None => (
                self.reserve(tender_account_id(registration_id, ctx.current_account_id)),
                Ok(provisioning_chain(ctx, registration_id, parameters)),
            ),
        }
    }

    /// What the settlement of the chain of `pending` makes of this state, and what
    /// it answers. A caller other than the factory itself is refused and changes
    /// nothing. After a success the state stays as it is, and the tender is
    /// forwarded to the registry. After a failure the tender's reservation is
    /// released, and the whole deposit goes back to the one who attached it.
    pub open spec fn on_tender_create(
        self,
        ctx: ContextView,
        tender_created: bool,
        pending: PendingCreationView,
    ) -> (FactoryState, Result<SettlementView, FactoryError>) {
        if !ctx.is_self_call() {
            (self, Err(FactoryError::ForgedContinuation))
        } else if tender_created {
            (
                self,
                Ok(
                    SettlementView::Committed {
                        verify_tender_account_id: self.verify_tender_account_id,
                        tender_account_id: pending.tender_account_id,
                        gas: gas::VERIFY_TENDER,
                    },
                ),
            )
        } else {
            (
                self.release(pending.tender_account_id),
                Ok(
                    SettlementView::Compensated {
                        tender_account_id: pending.tender_account_id,
                        predecessor_account_id: pending.predecessor_account_id,
                        attached_deposit: pending.attached_deposit,
                    },
                ),
            )
        }
    }
}

/// The account of the tender that `factory` creates under `registration_id`.
pub open spec fn tender_account_id(registration_id: Seq<char>, factory: Seq<char>) -> Seq<char> {
    registration_id + seq![NAMESPACE_SEPARATOR] + factory
}

/// Why a factory in `state` refuses to create a tender, if it does. The checks are
/// made in this order, and the first that fails decides.
pub open spec fn create_tender_refusal(
    state: FactoryState,
    ctx: ContextView,
    registration_id: Seq<char>,
    owner_id: Seq<char>,
) -> Option<FactoryError> {
    let id = tender_account_id(registration_id, ctx.current_account_id);
    if ctx.attached_deposit < MIN_ATTACHED_BALANCE {
        Some(FactoryError::InsufficientDeposit)
    } else if registration_id.contains(NAMESPACE_SEPARATOR) {
        Some(FactoryError::InvalidIdentifierFormat)
    } else if !is_account_id(id) {
        Some(FactoryError::InvalidIdentifier)
    } else if !is_account_id(owner_id) {
        Some(FactoryError::InvalidOwner)
    } else if state.tender_account_ids.contains(id) {
        Some(FactoryError::IdentifierAlreadyReserved)
    } else {
        None
    }
}

/// The name of the method that initializes a tender.
pub open spec fn initializer() -> Seq<char> {
    "new"@
}

/// The chain that provisions the tender asked for in `ctx` under
/// `registration_id`. The account is created, the whole attached deposit is
/// transferred to it, the tender's code is installed, and the tender is
/// initialized with `parameters`; the caller is remembered as the one to refund.
pub open spec fn provisioning_chain(
    ctx: ContextView,
    registration_id: Seq<char>,
    parameters: TenderParametersView,
) -> ProvisioningChainView {
    let id = tender_account_id(registration_id, ctx.current_account_id);
    ProvisioningChainView {
        tender_account_id: id,
        steps: seq![
            ChainStepView::CreateAccount,
            ChainStepView::Transfer { amount: ctx.attached_deposit },
            ChainStepView::DeployContract,
            ChainStepView::FunctionCall {
                method_name: initializer(),
                parameters,
                amount: NO_DEPOSIT,
                gas: gas::TENDER_NEW,
            },
        ],
        callback: PendingCreationView {
            tender_account_id: id,
            attached_deposit: ctx.attached_deposit,
            predecessor_account_id: ctx.predecessor_account_id,
        },
        callback_gas: gas::CALLBACK,
    }
}

/// Why a factory refuses to be constructed, if it does.
pub open spec fn new_refusal(state_exists: bool, verify_tender_account_id: Seq<char>) -> Option<
    FactoryError,
> {
    if state_exists {
        Some(FactoryError::AlreadyInitialized)
    } else if !is_account_id(verify_tender_account_id) {
        Some(FactoryError::InvalidRegistry)
    } else {
        None
    }
}

/// Lets the call through if the contract is calling itself.
pub fn assert_self(ctx: &Context) -> (let_through: Result<(), FactoryError>)
    ensures
        let_through == if ctx@.is_self_call() {
            Ok::<(), FactoryError>(())
        } else {
            Err::<(), FactoryError>(FactoryError::ForgedContinuation)
        },
{
    if ctx.predecessor_account_id == ctx.current_account_id {
        Ok(())
    } else {
        Err(FactoryError::ForgedContinuation)
    }
}

/// A tender factory.
pub struct TenderFactory {
    /// The accounts of the tenders created.
    tender_account_ids: AccountSet,
    /// The account of the registry that verifies them.
    verify_tender_account_id: String,
}

impl View for TenderFactory {
    type V = FactoryState;

    closed spec fn view(&self) -> FactoryState {
        FactoryState {
            tender_account_ids: self.tender_account_ids@,
            verify_tender_account_id: self.verify_tender_account_id@,
        }
    }
}

impl TenderFactory {
    /// A factory that reports to the registry `verify_tender_account_id` and has
    /// created no tender yet. `state_exists` says whether a factory's state is
    /// stored already.
    pub fn new(state_exists: bool, verify_tender_account_id: String) -> (made: Result<
        Self,
        FactoryError,
    >)
        ensures
            match new_refusal(state_exists, verify_tender_account_id@) {
                Some(e) => made matches Err(refusal) && refusal == e,
                None => {
                    &&& made matches Ok(factory)
                    &&& factory@ == (FactoryState {
                        tender_account_ids: Set::empty(),
                        verify_tender_account_id: verify_tender_account_id@,
                    })
                },
            },
    {
        if state_exists {
            return Err(FactoryError::AlreadyInitialized);
        }
        if !is_well_formed(verify_tender_account_id.as_str()) {
            return Err(FactoryError::InvalidRegistry);
        }
        Ok(TenderFactory { verify_tender_account_id, tender_account_ids: AccountSet::new() })
    }

    /// The least amount that has to be attached to the creation of a tender.
    pub fn get_min_attached_balance(&self) -> (min: u128)
        ensures
            min == MIN_ATTACHED_BALANCE,
    {
        MIN_ATTACHED_BALANCE
    }

    /// The number of accounts that the factory holds reserved.
    pub fn get_number_of_tenders_created(&self) -> (n: u64)
        ensures
            self@.tender_account_ids.finite(),
            n == self@.tender_account_ids.len(),
    {
        self.tender_account_ids.len() as u64
    }

    /// The account of the registry that the factory reports to.
    pub fn verify_tender_account_id(&self) -> (id: &String)
        ensures
            id@ == self@.verify_tender_account_id,
    {
        &self.verify_tender_account_id
    }

    /// The accounts that the factory holds reserved, each once, in no particular
    /// order.
    pub fn tender_account_ids(&self) -> (ids: Vec<String>)
        ensures
            names_of(ids@).no_duplicates(),
            names_of(ids@).to_set() == self@.tender_account_ids,
    {
        self.tender_account_ids.to_vec()
    }

    /// The factory that reports to `verify_tender_account_id` and holds the
    /// accounts in `tender_account_ids` reserved: a factory as it was stored
    /// before. Nothing is checked.
    pub fn restore(verify_tender_account_id: String, tender_account_ids: Vec<String>) -> (factory:
        Self)
        ensures
            factory@ == (FactoryState {
                tender_account_ids: names_of(tender_account_ids@).to_set(),
                verify_tender_account_id: verify_tender_account_id@,
            }),
    {
        TenderFactory {
            tender_account_ids: AccountSet::from_vec(tender_account_ids),
            verify_tender_account_id,
        }
    }

    /// Creates a new tender: checks the call, reserves the tender's account, and
    /// returns the chain of operations that provisions it.
    ///
    /// A refused call changes nothing. A call that is not refused reserves exactly
    /// the account `<tender_registration_id>.<factory>`, before the chain is
    /// handed out.
    pub fn create_tender(
        &mut self,
        ctx: &Context,
        tender_registration_id: String,
        owner_id: String,
        tender_public_key: Vec<u8>,
        tender_proposal: String,
        product: String,
        unitproductprice: u128,
        quantityproduct: u64,
        industry: String,
        location: String,
    ) -> (outcome: Result<ProvisioningChain, FactoryError>)
        ensures
            ({
                let (reserved, answer) = old(self)@.create_tender(
                    ctx@,
                    tender_registration_id@,
                    (TenderParameters {
                        owner_id,
                        tender_public_key,
                        tender_proposal,
                        product,
                        unitproductprice,
                        quantityproduct,
                        industry,
                        location,
                    })@,
                );
                &&& final(self)@ == reserved
                &&& match answer {
                    Ok(chain) => outcome matches Ok(issued) && issued@ == chain,
                    Err(e) => outcome == Err::<ProvisioningChain, FactoryError>(e),
                }
            }),
    {
        if ctx.attached_deposit < MIN_ATTACHED_BALANCE {
            return Err(FactoryError::InsufficientDeposit);
        }
        if has_namespace_separator(tender_registration_id.as_str()) {
            return Err(FactoryError::InvalidIdentifierFormat);
        }
        let mut account_id = tender_registration_id;
        account_id.append(".");
        account_id.append(ctx.current_account_id.as_str());
        proof {
            reveal_strlit(".");
            assert("."@ =~= seq![NAMESPACE_SEPARATOR]);
            assert(account_id@ =~= tender_account_id(
                tender_registration_id@,
                ctx@.current_account_id,
            ));
        }
        if !is_well_formed(account_id.as_str()) {
            return Err(FactoryError::InvalidIdentifier);
        }
        if !is_well_formed(owner_id.as_str()) {
            return Err(FactoryError::InvalidOwner);
        }
        if !self.tender_account_ids.insert(&account_id) {
            assert(self@ =~= old(self)@);
            return Err(FactoryError::IdentifierAlreadyReserved);
        }
        let parameters = TenderParameters {
            owner_id,
            tender_public_key,
            tender_proposal,
            product,
            unitproductprice,
            quantityproduct,
            industry,
            location,
        };
        let mut steps: Vec<ChainStep> = Vec::new();
        steps.push(ChainStep::CreateAccount);
        steps.push(ChainStep::Transfer { amount: ctx.attached_deposit });
        steps.push(ChainStep::DeployContract);
        steps.push(
            ChainStep::FunctionCall {
                method_name: String::from_str("new"),
                parameters,
                amount: NO_DEPOSIT,
                gas: gas::TENDER_NEW,
            },
        );
        let chain = ProvisioningChain {
            tender_account_id: account_id.clone(),
            steps,
            callback: PendingCreation {
                tender_account_id: account_id,
                attached_deposit: ctx.attached_deposit,
                predecessor_account_id: ctx.predecessor_account_id.clone(),
            },
            callback_gas: gas::CALLBACK,
        };
        assert(chain@.steps =~= provisioning_chain(
            ctx@,
            tender_registration_id@,
            parameters@,
        ).steps);
        Ok(chain)
    }

    /// Settles a creation whose chain has come to an end: `tender_created` says
    /// whether every step of it succeeded, and the other arguments are what the
    /// chain carried as its [`PendingCreation`].
    ///
    /// Only the factory itself may call this, as the continuation of a chain that
    /// it issued; any other caller is refused and nothing changes. After a success
    /// the reservation stays as it is, and after a failure it is released.
    pub fn on_tender_create(
        &mut self,
        ctx: &Context,
        tender_created: bool,
        tender_account_id: String,
        attached_deposit: u128,
        predecessor_account_id: String,
    ) -> (outcome: Result<Settlement, FactoryError>)
        ensures
            ({
                let (settled, answer) = old(self)@.on_tender_create(
                    ctx@,
                    tender_created,
                    (PendingCreation {
                        tender_account_id,
                        attached_deposit,
                        predecessor_account_id,
                    })@,
                );
                &&& final(self)@ == settled
                &&& match answer {
                    Ok(settlement) => outcome matches Ok(decided) && decided@ == settlement,
                    Err(e) => outcome == Err::<Settlement, FactoryError>(e),
                }
            }),
    {
        if let Err(e) = assert_self(ctx) {
            return Err(e);
        }
        if tender_created {
            Ok(
                Settlement::Committed {
                    verify_tender_account_id: self.verify_tender_account_id.clone(),
                    tender_account_id,
                    gas: gas::VERIFY_TENDER,
                },
            )
        } else {
            self.tender_account_ids.remove(&tender_account_id);
            Ok(
                Settlement::Compensated {
                    tender_account_id,
                    predecessor_account_id,
                    attached_deposit,
                },
            )
        }
    }
}

/// A creation that comes with the minimum deposit or more, under a registration
/// identifier without the separator, for an account that is well-formed and not
/// reserved yet and for a well-formed owner, is not refused. It adds exactly that
/// one account to the reserved ones, and leaves the factory's registry as it was.
pub proof fn create_reserves_exactly_one(
    state: FactoryState,
    ctx: ContextView,
    registration_id: Seq<char>,
    parameters: TenderParametersView,
)
    requires
        state.tender_account_ids.finite(),
        ctx.attached_deposit >= MIN_ATTACHED_BALANCE,
        !registration_id.contains(NAMESPACE_SEPARATOR),
        is_account_id(tender_account_id(registration_id, ctx.current_account_id)),
        !state.tender_account_ids.contains(
            tender_account_id(registration_id, ctx.current_account_id),
        ),
        is_account_id(parameters.owner_id),
    ensures
        ({
            let (reserved, outcome) = state.create_tender(ctx, registration_id, parameters);
            let id = tender_account_id(registration_id, ctx.current_account_id);
            &&& outcome is Ok
            &&& reserved.tender_account_ids == state.tender_account_ids.insert(id)
            &&& reserved.tender_account_ids.len() == state.tender_account_ids.len() + 1
            &&& reserved.verify_tender_account_id == state.verify_tender_account_id
        }),
{
}

/// A creation whose chain fails leaves no trace: once the factory has settled the
/// failure, it holds the reservations that it held before the creation, so as many
/// as before, and the settlement sends exactly the deposit that was attached to
/// the creation back to the account that asked for it.
pub proof fn failed_chain_is_undone(
    state: FactoryState,
    ctx: ContextView,
    registration_id: Seq<char>,
    parameters: TenderParametersView,
    settling: ContextView,
)
    requires
        state.create_tender(ctx, registration_id, parameters).1 is Ok,
        settling.is_self_call(),
    ensures
        ({
            let (reserved, issued) = state.create_tender(ctx, registration_id, parameters);
            let (settled, outcome) = reserved.on_tender_create(
                settling,
                false,
                issued->Ok_0.callback,
            );
            &&& settled == state
            &&& settled.tender_account_ids.len() == state.tender_account_ids.len()
            &&& outcome == Ok::<SettlementView, FactoryError>(
                SettlementView::Compensated {
                    tender_account_id: tender_account_id(registration_id, ctx.current_account_id),
                    predecessor_account_id: ctx.predecessor_account_id,
                    attached_deposit: ctx.attached_deposit,
                },
            )
        }),
{
    let id = tender_account_id(registration_id, ctx.current_account_id);
    assert(state.tender_account_ids.insert(id).remove(id) =~= state.tender_account_ids);
}

/// A creation whose chain succeeds stays: once the factory has settled the
/// success, the tender's account is still reserved, nothing else has changed, and
/// the settlement forwards that account to the registry that the factory was
/// constructed with.
pub proof fn successful_chain_is_kept(
    state: FactoryState,
    ctx: ContextView,
    registration_id: Seq<char>,
    parameters: TenderParametersView,
    settling: ContextView,
)
    requires
        state.create_tender(ctx, registration_id, parameters).1 is Ok,
        settling.is_self_call(),
    ensures
        ({
            let (reserved, issued) = state.create_tender(ctx, registration_id, parameters);
            let (settled, outcome) = reserved.on_tender_create(
                settling,
                true,
                issued->Ok_0.callback,
            );
            let id = tender_account_id(registration_id, ctx.current_account_id);
            &&& settled == reserved
            &&& settled.tender_account_ids.contains(id)
            &&& outcome == Ok::<SettlementView, FactoryError>(
                SettlementView::Committed {
                    verify_tender_account_id: state.verify_tender_account_id,
                    tender_account_id: id,
                    gas: gas::VERIFY_TENDER,
                },
            )
        }),
{
}

/// A settlement that anyone but the factory itself asks for is refused, whatever
/// it claims of the chain, and changes nothing.
pub proof fn forged_settlement_is_refused(
    state: FactoryState,
    ctx: ContextView,
    tender_created: bool,
    pending: PendingCreationView,
)
    requires
        ctx.predecessor_account_id != ctx.current_account_id,
    ensures
        state.on_tender_create(ctx, tender_created, pending) == (
            state,
            Err::<SettlementView, FactoryError>(FactoryError::ForgedContinuation),
        ),
{
}

/// No call changes which registry the factory reports to.
pub proof fn registry_is_fixed(
    state: FactoryState,
    ctx: ContextView,
    registration_id: Seq<char>,
    parameters: TenderParametersView,
    tender_created: bool,
    pending: PendingCreationView,
)
    ensures
        state.create_tender(ctx, registration_id, parameters).0.verify_tender_account_id
            == state.verify_tender_account_id,
        state.on_tender_create(ctx, tender_created, pending).0.verify_tender_account_id
            == state.verify_tender_account_id,
{
}

/// A refused creation reserves nothing.
pub proof fn refused_creation_changes_nothing(
    state: FactoryState,
    ctx: ContextView,
    registration_id: Seq<char>,
    parameters: TenderParametersView,
)
    requires
        state.create_tender(ctx, registration_id, parameters).1 is Err,
    ensures
        state.create_tender(ctx, registration_id, parameters).0 == state,
{
}

} // verus!
