//! How the factory and the registry fit together.

use vstd::prelude::*;

use crate::chain::SettlementView;
use crate::context::ContextView;
use crate::create_tender::{FactoryState, TenderParametersView};
use crate::verify_tender::{RegistryState, Tier};

verus! {

/// What a factory forwards, its registry takes. Where the registry lets the
/// factory add tenders, as a verified factory or as the foundation, the tender of
/// a creation whose chain succeeded is verified once the registry has served the
/// request that the settlement asks for: the registry does not refuse the account
/// that the factory composed.
pub proof fn committed_tender_gets_verified(
    factory: FactoryState,
    registry: RegistryState,
    ctx: ContextView,
    registration_id: Seq<char>,
    parameters: TenderParametersView,
    settling: ContextView,
)
    requires
        factory.create_tender(ctx, registration_id, parameters).1 is Ok,
        settling.is_self_call(),
        registry.permits(settling.current_account_id, Tier::AuthorityOrIssuer),
    ensures
        ({
            let (reserved, issued) = factory.create_tender(ctx, registration_id, parameters);
            let (_, outcome) = reserved.on_tender_create(settling, true, issued->Ok_0.callback);
            &&& outcome matches Ok(SettlementView::Committed { tender_account_id, .. })
            &&& registry.add_tender(settling.current_account_id, tender_account_id).1 is Ok
            &&& registry.add_tender(
                settling.current_account_id,
                tender_account_id,
            ).0.verified.contains(tender_account_id)
        }),
{
}

} // verus!
