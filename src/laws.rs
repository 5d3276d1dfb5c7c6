//! Properties of the pipeline, stated over the verdicts and effects that the
//! phases' contracts speak of.
use vstd::prelude::*;

use crate::error::{ErrorKind, Phase, Rejection};
use crate::handler::{execute_effects, execute_verdict, stateful_verdict, Effect};
use crate::message::HandshakeMessage;
use crate::router::{transfer_port_id, AppId, PortRouter};

verus! {

/// A message whose connection hops are not exactly one is rejected by the
/// stateless phase with a structural violation naming its hop count, and the
/// pipeline ends there, whatever the store and the application would say.
pub proof fn lemma_wrong_hop_count_rejected(
    msg: HandshakeMessage,
    route: Option<AppId>,
    store_ok: bool,
    app_ok: bool,
)
    requires
        msg.hop_count() != 1,
    ensures
        msg.stateless_verdict() == Err::<(), Rejection>(
            Rejection {
                phase: Phase::Stateless,
                kind: ErrorKind::StructuralViolation { hops: msg.hop_count() as usize },
            },
        ),
        msg.pipeline_verdict(route, store_ok, app_ok) == msg.stateless_verdict(),
{
}

/// With only the transfer port registered, a message on any other port that
/// the store's validation accepts fails the stateful phase as an unregistered
/// port, whatever the application would say.
pub proof fn lemma_foreign_port_unregistered(msg: HandshakeMessage, router: PortRouter, app_ok: bool)
    requires
        forall|p: Seq<char>|
            router.routes(p) == if p == transfer_port_id() {
                Some(AppId::TokenTransfer)
            } else {
                None
            },
        msg.port_id@ != transfer_port_id(),
    ensures
        stateful_verdict(router.routes(msg.port_id@), true, app_ok) == Err::<(), Rejection>(
            Rejection { phase: Phase::Stateful, kind: ErrorKind::UnregisteredPort },
        ),
{
}

/// On the transfer port, with the transfer application registered, the
/// stateful phase succeeds exactly when both the store's validation and the
/// application's check accept; a refusing check prevents success even after
/// the store accepted.
pub proof fn lemma_transfer_port_needs_both_checks(
    msg: HandshakeMessage,
    router: PortRouter,
    store_ok: bool,
    app_ok: bool,
)
    requires
        router.routes(transfer_port_id()) == Some(AppId::TokenTransfer),
        msg.port_id@ == transfer_port_id(),
    ensures
        stateful_verdict(router.routes(msg.port_id@), store_ok, app_ok) is Ok <==> (store_ok && app_ok),
        store_ok && !app_ok ==> stateful_verdict(router.routes(msg.port_id@), store_ok, app_ok)
            == Err::<(), Rejection>(
            Rejection { phase: Phase::Stateful, kind: ErrorKind::ApplicationCheckFailure },
        ),
{
}

/// Execution does not validate: for any message on a registered port, checked
/// or not, well-formed or not, it records the store's generic mutation and
/// then the application's execute callback, and succeeds.
pub proof fn lemma_execute_does_not_revalidate(msg: HandshakeMessage, router: PortRouter, app: AppId)
    requires
        router.routes(msg.port_id@) == Some(app),
    ensures
        execute_effects(router.routes(msg.port_id@)) == seq![Effect::StoreExecute, Effect::AppExecute(app)],
        execute_verdict(router.routes(msg.port_id@)) is Ok,
{
}

/// Execution is not idempotent: a second execution of the same message on
/// the same transaction records all of its effects again.
pub proof fn lemma_execute_twice_applies_twice(
    route: Option<AppId>,
    tx0: Seq<Effect>,
    tx1: Seq<Effect>,
    tx2: Seq<Effect>,
)
    requires
        tx1 == tx0 + execute_effects(route),
        tx2 == tx1 + execute_effects(route),
    ensures
        tx2 == tx0 + execute_effects(route) + execute_effects(route),
        tx2.len() == tx0.len() + 2 * execute_effects(route).len(),
        tx2 != tx1,
        tx1[tx0.len() as int] == Effect::StoreExecute,
        tx2[tx1.len() as int] == Effect::StoreExecute,
{
    assert(tx2.len() > tx1.len());
}

} // verus!
