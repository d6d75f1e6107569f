//! The trust registry: the list of verified tenders, the list of factories that
//! may add to it, and the foundation, the one account that manages both.

use vstd::prelude::*;

use crate::account_id::{is_account_id, is_well_formed};
use crate::account_set::{names_of, AccountSet};
use crate::context::Context;

verus! {

/// Why the registry refused a call.
#[derive(Clone, Copy, Debug, PartialEq, Eq)]
pub enum RegistryError {
    /// The registry's state exists already.
    AlreadyInitialized,
    /// The account given for the foundation is not well-formed.
    InvalidFoundation,
    /// The account that the call is about is not well-formed.
    InvalidIdentifier,
    /// The caller is not allowed to make this call.
    Unauthorized,
}

impl RegistryError {
    /// The refusal in words.
    pub open spec fn text(self) -> Seq<char> {
        match self {
            RegistryError::AlreadyInitialized => "Already initialized"@,
            RegistryError::InvalidFoundation => "The Tenderbox account ID is invalid"@,
            RegistryError::InvalidIdentifier => "The given account ID is invalid"@,
            RegistryError::Unauthorized => "Can only be called by the Tenderbox Foundation"@,
        }
    }

    /// The refusal in words.
    pub fn message(&self) -> (words: &'static str)
        ensures
            words@ == self.text(),
    {
        match self {
            RegistryError::AlreadyInitialized => "Already initialized",
            RegistryError::InvalidFoundation => "The Tenderbox account ID is invalid",
            RegistryError::InvalidIdentifier => "The given account ID is invalid",
            RegistryError::Unauthorized => "Can only be called by the Tenderbox Foundation",
        }
    }
}

/// Who may make a call that changes the registry.
#[derive(Clone, Copy, Debug, PartialEq, Eq)]
pub enum Tier {
    /// The foundation alone.
    AuthorityOnly,
    /// The foundation, and every verified factory.
    AuthorityOrIssuer,
}

/// What a registry holds.
#[verifier::ext_equal]
pub struct RegistryState {
    /// The foundation's account.
    pub foundation_account_id: Seq<char>,
    /// The accounts of the verified tenders.
    pub verified: Set<Seq<char>>,
    /// The accounts of the verified factories.
    pub factory_verified: Set<Seq<char>>,
}

impl RegistryState {
    /// Whether `caller` may make a call of the given tier.
    pub open spec fn permits(self, caller: Seq<char>, tier: Tier) -> bool {
        match tier {
            Tier::AuthorityOnly => caller == self.foundation_account_id,
            Tier::AuthorityOrIssuer => self.factory_verified.contains(caller) || caller
                == self.foundation_account_id,
        }
    }

    /// Why a call of the given tier about `account_id` is refused, if it is, where
    /// the account is looked at before the caller.
    pub open spec fn refusal_account_first(
        self,
        caller: Seq<char>,
        tier: Tier,
        account_id: Seq<char>,
    ) -> Option<RegistryError> {
        if !is_account_id(account_id) {
            Some(RegistryError::InvalidIdentifier)
        } else if !self.permits(caller, tier) {
            Some(RegistryError::Unauthorized)
        } else {
            None
        }
    }

    /// Why a call of the given tier about `account_id` is refused, if it is, where
    /// the caller is looked at before the account.
    pub open spec fn refusal_caller_first(
        self,
        caller: Seq<char>,
        tier: Tier,
        account_id: Seq<char>,
    ) -> Option<RegistryError> {
        if !self.permits(caller, tier) {
            Some(RegistryError::Unauthorized)
        } else if !is_account_id(account_id) {
            Some(RegistryError::InvalidIdentifier)
        } else {
            None
        }
    }

    /// The state with `tender_account_id` among the verified tenders.
    pub open spec fn with_tender(self, tender_account_id: Seq<char>) -> RegistryState {
        RegistryState { verified: self.verified.insert(tender_account_id), ..self }
    }

    /// The state without `tender_account_id` among the verified tenders.
    pub open spec fn without_tender(self, tender_account_id: Seq<char>) -> RegistryState {
        RegistryState { verified: self.verified.remove(tender_account_id), ..self }
    }

    /// The state with `factory_account_id` among the verified factories.
    pub open spec fn with_factory(self, factory_account_id: Seq<char>) -> RegistryState {
        RegistryState {
            factory_verified: self.factory_verified.insert(factory_account_id),
            ..self
        }
    }

    /// The state without `factory_account_id` among the verified factories.
    pub open spec fn without_factory(self, factory_account_id: Seq<char>) -> RegistryState {
        RegistryState {
            factory_verified: self.factory_verified.remove(factory_account_id),
            ..self
        }
    }

    /// Whether `tender_account_id` is verified, or why the question is refused.
    pub open spec fn is_verified(self, tender_account_id: Seq<char>) -> Result<bool, RegistryError> {
        if is_account_id(tender_account_id) {
            Ok(self.verified.contains(tender_account_id))
        } else {
            Err(RegistryError::InvalidIdentifier)
        }
    }

    /// Whether `factory_account_id` is a verified factory, or why the question is
    /// refused.
    pub open spec fn is_factory_verified(self, factory_account_id: Seq<char>) -> Result<
        bool,
        RegistryError,
    > {
        if is_account_id(factory_account_id) {
            Ok(self.factory_verified.contains(factory_account_id))
        } else {
            Err(RegistryError::InvalidIdentifier)
        }
    }

    /// What `caller`'s adding of a tender makes of this state, and what it answers:
    /// whether the tender was not verified before. The foundation and every
    /// verified factory may add; a refused call changes nothing.
    pub open spec fn add_tender(self, caller: Seq<char>, tender_account_id: Seq<char>) -> (
        RegistryState,
        Result<bool, RegistryError>,
    ) {
        match self.refusal_account_first(caller, Tier::AuthorityOrIssuer, tender_account_id) {
            Some(e) => (self, Err(e)),
            None => (
                self.with_tender(tender_account_id),
                Ok(!self.verified.contains(tender_account_id)),
            ),
        }
    }

    /// What `caller`'s removing of a tender makes of this state, and what it
    /// answers: whether the tender was verified before. Only the foundation may
    /// remove; a refused call changes nothing.
    pub open spec fn remove_tender(self, caller: Seq<char>, tender_account_id: Seq<char>) -> (
        RegistryState,
        Result<bool, RegistryError>,
    ) {
        match self.refusal_caller_first(caller, Tier::AuthorityOnly, tender_account_id) {
            Some(e) => (self, Err(e)),
            None => (
                self.without_tender(tender_account_id),
                Ok(self.verified.contains(tender_account_id)),
            ),
        }
    }

    /// What `caller`'s adding of a factory makes of this state, and what it answers:
    /// whether the factory was not verified before. Only the foundation may add; a
    /// refused call changes nothing.
    pub open spec fn add_factory(self, caller: Seq<char>, factory_account_id: Seq<char>) -> (
        RegistryState,
        Result<bool, RegistryError>,
    ) {
        match self.refusal_account_first(caller, Tier::AuthorityOnly, factory_account_id) {
            Some(e) => (self, Err(e)),
            None => (
                self.with_factory(factory_account_id),
                Ok(!self.factory_verified.contains(factory_account_id)),
            ),
        }
    }

    /// What `caller`'s removing of a factory makes of this state, and what it
    /// answers: whether the factory was verified before. Only the foundation may
    /// remove; a refused call changes nothing.
    pub open spec fn remove_factory(self, caller: Seq<char>, factory_account_id: Seq<char>) -> (
        RegistryState,
        Result<bool, RegistryError>,
    ) {
        match self.refusal_caller_first(caller, Tier::AuthorityOnly, factory_account_id) {
            Some(e) => (self, Err(e)),
            None => (
                self.without_factory(factory_account_id),
                Ok(self.factory_verified.contains(factory_account_id)),
            ),
        }
    }
}

/// Why a registry refuses to be constructed, if it does.
pub open spec fn new_refusal(state_exists: bool, foundation_account_id: Seq<char>) -> Option<
    RegistryError,
> {
    if state_exists {
        Some(RegistryError::AlreadyInitialized)
    } else if !is_account_id(foundation_account_id) {
        Some(RegistryError::InvalidFoundation)
    } else {
        None
    }
}

/// The registry of verified tenders and verified factories.
pub struct VerifyTenderContract {
    /// The foundation's account. It may add and remove tenders and factories.
    foundation_account_id: String,
    /// The accounts of the verified tenders.
    verified: AccountSet,
    /// The accounts of the verified factories. Each of them may add tenders.
    factory_verified: AccountSet,
}

impl View for VerifyTenderContract {
    type V = RegistryState;

    closed spec fn view(&self) -> RegistryState {
        RegistryState {
            foundation_account_id: self.foundation_account_id@,
            verified: self.verified@,
            factory_verified: self.factory_verified@,
        }
    }
}

impl VerifyTenderContract {
    /// A registry that `foundation_account_id` manages, with nothing verified yet.
    /// `state_exists` says whether a registry's state is stored already.
    pub fn new(state_exists: bool, foundation_account_id: String) -> (made: Result<
        Self,
        RegistryError,
    >)
        ensures
            match new_refusal(state_exists, foundation_account_id@) {
                Some(e) => made matches Err(refusal) && refusal == e,
                None => {
                    &&& made matches Ok(registry)
                    &&& registry@ == (RegistryState {
                        foundation_account_id: foundation_account_id@,
                        verified: Set::empty(),
                        factory_verified: Set::empty(),
                    })
                },
            },
    {
        if state_exists {
            return Err(RegistryError::AlreadyInitialized);
        }
        if !is_well_formed(foundation_account_id.as_str()) {
            return Err(RegistryError::InvalidFoundation);
        }
        Ok(
            VerifyTenderContract {
                foundation_account_id,
                verified: AccountSet::new(),
                factory_verified: AccountSet::new(),
            },
        )
    }

    /// The foundation's account.
    pub fn foundation_account_id(&self) -> (id: &String)
        ensures
            id@ == self@.foundation_account_id,
    {
        &self.foundation_account_id
    }

    /// The accounts of the verified tenders, each once, in no particular order.
    pub fn verified(&self) -> (ids: Vec<String>)
        ensures
            names_of(ids@).no_duplicates(),
            names_of(ids@).to_set() == self@.verified,
    {
        self.verified.to_vec()
    }

    /// The accounts of the verified factories, each once, in no particular order.
    pub fn factory_verified(&self) -> (ids: Vec<String>)
        ensures
            names_of(ids@).no_duplicates(),
            names_of(ids@).to_set() == self@.factory_verified,
    {
        self.factory_verified.to_vec()
    }

    /// The registry that `foundation_account_id` manages and in which the accounts
    /// in `verified` and in `factory_verified` are verified: a registry as it was
    /// stored before. Nothing is checked.
    pub fn restore(
        foundation_account_id: String,
        verified: Vec<String>,
        factory_verified: Vec<String>,
    ) -> (registry: Self)
        ensures
            registry@ == (RegistryState {
                foundation_account_id: foundation_account_id@,
                verified: names_of(verified@).to_set(),
                factory_verified: names_of(factory_verified@).to_set(),
            }),
    {
        VerifyTenderContract {
            foundation_account_id,
            verified: AccountSet::from_vec(verified),
            factory_verified: AccountSet::from_vec(factory_verified),
        }
    }

    /// Whether `tender_account_id` is verified.
    pub fn is_verified(&self, tender_account_id: String) -> (answer: Result<bool, RegistryError>)
        ensures
            answer == self@.is_verified(tender_account_id@),
    {
        if !is_well_formed(tender_account_id.as_str()) {
            return Err(RegistryError::InvalidIdentifier);
        }
        Ok(self.verified.contains(&tender_account_id))
    }

    /// Whether `factory_account_id` is a verified factory.
    pub fn is_factory_verified(&self, factory_account_id: String) -> (answer: Result<
        bool,
        RegistryError,
    >)
        ensures
            answer == self@.is_factory_verified(factory_account_id@),
    {
        if !is_well_formed(factory_account_id.as_str()) {
            return Err(RegistryError::InvalidIdentifier);
        }
        Ok(self.factory_verified.contains(&factory_account_id))
    }

    /// Adds `tender_account_id` to the verified tenders, and says whether it was
    /// not verified before. The foundation and every verified factory may do so.
    pub fn add_tender(&mut self, ctx: &Context, tender_account_id: String) -> (added: Result<
        bool,
        RegistryError,
    >)
        ensures
            final(self)@ == old(self)@.add_tender(ctx@.predecessor_account_id, tender_account_id@).0,
            added == old(self)@.add_tender(ctx@.predecessor_account_id, tender_account_id@).1,
    {
        if !is_well_formed(tender_account_id.as_str()) {
            return Err(RegistryError::InvalidIdentifier);
        }
        match self.authorize(ctx, Tier::AuthorityOrIssuer) {
            Err(e) => Err(e),
            Ok(()) => Ok(self.verified.insert(&tender_account_id)),
        }
    }

    /// Removes `tender_account_id` from the verified tenders, and says whether it
    /// was verified before. Only the foundation may do so.
    pub fn remove_tender(&mut self, ctx: &Context, tender_account_id: String) -> (removed: Result<
        bool,
        RegistryError,
    >)
        ensures
            final(self)@ == old(self)@.remove_tender(ctx@.predecessor_account_id, tender_account_id@).0,
            removed == old(self)@.remove_tender(ctx@.predecessor_account_id, tender_account_id@).1,
    {
        match self.authorize(ctx, Tier::AuthorityOnly) {
            Err(e) => Err(e),
            Ok(()) => {
                if !is_well_formed(tender_account_id.as_str()) {
                    return Err(RegistryError::InvalidIdentifier);
                }
                Ok(self.verified.remove(&tender_account_id))
            },
        }
    }

    /// Adds `factory_account_id` to the verified factories, and says whether it was
    /// not verified before. Only the foundation may do so.
    pub fn add_factory(&mut self, ctx: &Context, factory_account_id: String) -> (added: Result<
        bool,
        RegistryError,
    >)
        ensures
            final(self)@ == old(self)@.add_factory(ctx@.predecessor_account_id, factory_account_id@).0,
            added == old(self)@.add_factory(ctx@.predecessor_account_id, factory_account_id@).1,
    {
        if !is_well_formed(factory_account_id.as_str()) {
            return Err(RegistryError::InvalidIdentifier);
        }
        match self.authorize(ctx, Tier::AuthorityOnly) {
            Err(e) => Err(e),
            Ok(()) => Ok(self.factory_verified.insert(&factory_account_id)),
        }
    }

    /// Removes `factory_account_id` from the verified factories, and says whether
    /// it was verified before. Only the foundation may do so.
    pub fn remove_factory(&mut self, ctx: &Context, factory_account_id: String) -> (removed:
        Result<bool, RegistryError>)
        ensures
            final(self)@ == old(self)@.remove_factory(ctx@.predecessor_account_id, factory_account_id@).0,
            removed == old(self)@.remove_factory(ctx@.predecessor_account_id, factory_account_id@).1,
    {
        match self.authorize(ctx, Tier::AuthorityOnly) {
            Err(e) => Err(e),
            Ok(()) => {
                if !is_well_formed(factory_account_id.as_str()) {
                    return Err(RegistryError::InvalidIdentifier);
                }
                Ok(self.factory_verified.remove(&factory_account_id))
            },
        }
    }

    /// Lets the call through if the caller is the foundation.
    pub fn assert_called_by_foundation(&self, ctx: &Context) -> (let_through: Result<
        (),
        RegistryError,
    >)
        ensures
            let_through == if self@.permits(ctx@.predecessor_account_id, Tier::AuthorityOnly) {
                Ok::<(), RegistryError>(())
            } else {
                Err::<(), RegistryError>(RegistryError::Unauthorized)
            },
    {
        if ctx.predecessor_account_id == self.foundation_account_id {
            Ok(())
        } else {
            Err(RegistryError::Unauthorized)
        }
    }

    /// Lets the call through if the caller may make a call of the given tier.
    pub fn authorize(&self, ctx: &Context, tier: Tier) -> (let_through: Result<(), RegistryError>)
        ensures
            let_through == if self@.permits(ctx@.predecessor_account_id, tier) {
                Ok::<(), RegistryError>(())
            } else {
                Err::<(), RegistryError>(RegistryError::Unauthorized)
            },
    {
        match tier {
            Tier::AuthorityOnly => self.assert_called_by_foundation(ctx),
            Tier::AuthorityOrIssuer => {
                if self.factory_verified.contains(&ctx.predecessor_account_id) {
                    Ok(())
                } else {
                    self.assert_called_by_foundation(ctx)
                }
            },
        }
    }
}

/// The foundation may add any well-formed tender account, whether or not it is
/// itself among the verified factories.
pub proof fn foundation_may_add_tender(state: RegistryState, tender_account_id: Seq<char>)
    requires
        is_account_id(tender_account_id),
    ensures
        state.add_tender(state.foundation_account_id, tender_account_id).1 is Ok,
        state.add_tender(state.foundation_account_id, tender_account_id).0.verified.contains(
            tender_account_id,
        ),
{
}

/// A caller that is neither the foundation nor a verified factory may not add a
/// tender: the call is refused as unauthorized and the verified tenders stay as
/// they were.
pub proof fn stranger_may_not_add_tender(
    state: RegistryState,
    caller: Seq<char>,
    tender_account_id: Seq<char>,
)
    requires
        is_account_id(tender_account_id),
        caller != state.foundation_account_id,
        !state.factory_verified.contains(caller),
    ensures
        state.add_tender(caller, tender_account_id) == (
            state,
            Err::<bool, RegistryError>(RegistryError::Unauthorized),
        ),
{
}

/// Adding a tender that is not verified yet answers `true`; adding it once more
/// answers `false` and changes nothing. The two calls may come from different
/// callers, as long as each of them may add tenders.
pub proof fn add_tender_twice(
    state: RegistryState,
    first_caller: Seq<char>,
    second_caller: Seq<char>,
    tender_account_id: Seq<char>,
)
    requires
        is_account_id(tender_account_id),
        state.permits(first_caller, Tier::AuthorityOrIssuer),
        state.permits(second_caller, Tier::AuthorityOrIssuer),
        !state.verified.contains(tender_account_id),
    ensures
        ({
            let (once, first) = state.add_tender(first_caller, tender_account_id);
            let (twice, second) = once.add_tender(second_caller, tender_account_id);
            &&& first == Ok::<bool, RegistryError>(true)
            &&& second == Ok::<bool, RegistryError>(false)
            &&& twice == once
        }),
{
    assert(state.verified.insert(tender_account_id).insert(tender_account_id)
        =~= state.verified.insert(tender_account_id));
}

/// Removing a tender that is not verified answers `false` and changes nothing.
pub proof fn remove_absent_tender(state: RegistryState, tender_account_id: Seq<char>)
    requires
        is_account_id(tender_account_id),
        !state.verified.contains(tender_account_id),
    ensures
        state.remove_tender(state.foundation_account_id, tender_account_id) == (
            state,
            Ok::<bool, RegistryError>(false),
        ),
{
    assert(state.verified.remove(tender_account_id) =~= state.verified);
}

/// A refused call changes nothing.
pub proof fn refused_call_changes_nothing(
    state: RegistryState,
    caller: Seq<char>,
    account_id: Seq<char>,
)
    ensures
        state.add_tender(caller, account_id).1 is Err ==> state.add_tender(caller, account_id).0
            == state,
        state.remove_tender(caller, account_id).1 is Err ==> state.remove_tender(
            caller,
            account_id,
        ).0 == state,
        state.add_factory(caller, account_id).1 is Err ==> state.add_factory(caller, account_id).0
            == state,
        state.remove_factory(caller, account_id).1 is Err ==> state.remove_factory(
            caller,
            account_id,
        ).0 == state,
{
}

/// No call changes who the foundation is.
pub proof fn foundation_is_fixed(state: RegistryState, caller: Seq<char>, account_id: Seq<char>)
    ensures
        state.add_tender(caller, account_id).0.foundation_account_id
            == state.foundation_account_id,
        state.remove_tender(caller, account_id).0.foundation_account_id
            == state.foundation_account_id,
        state.add_factory(caller, account_id).0.foundation_account_id
            == state.foundation_account_id,
        state.remove_factory(caller, account_id).0.foundation_account_id
            == state.foundation_account_id,
{
}

/// Only the foundation changes anything but the verified tenders: whoever else
/// calls, a verified factory too, the verified factories stay as they were, and
/// so does every tender that was verified.
pub proof fn factories_manage_nothing(
    state: RegistryState,
    caller: Seq<char>,
    account_id: Seq<char>,
)
    requires
        caller != state.foundation_account_id,
    ensures
        state.add_tender(caller, account_id).0.factory_verified == state.factory_verified,
        state.add_tender(caller, account_id).0.verified.subset_of(
            state.verified.insert(account_id),
        ),
        state.verified.subset_of(state.add_tender(caller, account_id).0.verified),
        state.remove_tender(caller, account_id) == (
            state,
            Err::<bool, RegistryError>(RegistryError::Unauthorized),
        ),
        state.add_factory(caller, account_id).0 == state,
        state.remove_factory(caller, account_id) == (
            state,
            Err::<bool, RegistryError>(RegistryError::Unauthorized),
        ),
{
}

} // verus!
