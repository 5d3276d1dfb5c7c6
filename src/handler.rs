use vstd::prelude::*;

use crate::error::{ErrorKind, Phase, Rejection};
use crate::message::HandshakeMessage;
use crate::router::{AppId, PortRouter};

verus! {

/// A state change that execution asks of the pending transaction. The caller
/// applies the recorded effects in order; this core never commits.
#[derive(Clone, Copy, Debug, PartialEq, Eq, Structural)]
pub enum Effect {
    /// The store's generic execution of the channel-open-try step.
    StoreExecute,
    /// The execute callback of the given application.
    AppExecute(AppId),
}

/// How the stateful phase ends, given the application that the port resolves
/// to, the store's generic validation and the application's check.
/// The application's answer matters only where it is consulted.
pub open spec fn stateful_verdict(route: Option<AppId>, store_ok: bool, app_ok: bool) -> Result<(), Rejection> {
    if !store_ok {
        Err(Rejection { phase: Phase::Stateful, kind: ErrorKind::GenericValidationFailure })
    } else {
        match route {
            None => Err(Rejection { phase: Phase::Stateful, kind: ErrorKind::UnregisteredPort }),
            Some(_) => if app_ok {
                Ok(())
            } else {
                Err(Rejection { phase: Phase::Stateful, kind: ErrorKind::ApplicationCheckFailure })
            },
        }
    }
}

/// The effects of one execution: the store's generic mutation, always, then
/// the execute callback of the port's application, when there is one.
pub open spec fn execute_effects(route: Option<AppId>) -> Seq<Effect> {
    match route {
        Some(app) => seq![Effect::StoreExecute, Effect::AppExecute(app)],
        None => seq![Effect::StoreExecute],
    }
}

/// How execution ends: it fails only where the port has no application.
pub open spec fn execute_verdict(route: Option<AppId>) -> Result<(), Rejection> {
    match route {
        Some(_) => Ok(()),
        None => Err(Rejection { phase: Phase::Execute, kind: ErrorKind::UnregisteredPort }),
    }
}

impl HandshakeMessage {
    /// How the stateless phase ends: the message must name exactly one
    /// connection hop.
    pub open spec fn stateless_verdict(&self) -> Result<(), Rejection> {
        if self.hop_count() == 1 {
            Ok(())
        } else {
            Err(
                Rejection {
                    phase: Phase::Stateless,
                    kind: ErrorKind::StructuralViolation { hops: self.hop_count() as usize },
                },
            )
        }
    }

    /// How the whole pipeline ends, given the port's application and the
    /// answers of the store's validation and of the application's check.
    pub open spec fn pipeline_verdict(&self, route: Option<AppId>, store_ok: bool, app_ok: bool) -> Result<(), Rejection> {
        if self.stateless_verdict() is Err {
            self.stateless_verdict()
        } else if stateful_verdict(route, store_ok, app_ok) is Err {
            stateful_verdict(route, store_ok, app_ok)
        } else {
            execute_verdict(route)
        }
    }

    /// The stateless phase: checks the message's own fields, without state.
    pub fn check_stateless(&self) -> (r: Result<(), Rejection>)
        ensures
            r == self.stateless_verdict(),
    {
        let hops = self.connection_hops.len();
        if hops == 1 {
            Ok(())
        } else {
            Err(Rejection::new(Phase::Stateless, ErrorKind::StructuralViolation { hops }))
        }
    }

    /// The stateful phase. `validate` is the store's generic validation of
    /// this message; it runs first, and only if it accepts is the port
    /// resolved and `app_check`, the check of the port's application, run.
    /// A port without an application is a failure.
    pub fn check_stateful<V, C>(&self, router: &PortRouter, validate: V, app_check: C) -> (r: Result<(), Rejection>) where
        V: FnOnce(&HandshakeMessage) -> bool,
        C: FnOnce(AppId, &HandshakeMessage) -> bool,

        requires
            validate.requires((self,)),
            forall|app: AppId| app_check.requires((app, self)),
        ensures
            exists|store_ok: bool, app_ok: bool|
                {
                    &&& validate.ensures((self,), store_ok)
                    &&& (store_ok && router.routes(self.port_id@) is Some) ==> app_check.ensures(
                        (router.routes(self.port_id@)->0, self),
                        app_ok,
                    )
                    &&& r == stateful_verdict(router.routes(self.port_id@), store_ok, app_ok)
                },
    {
        let store_ok = validate(self);
        let ghost route = router.routes(self.port_id@);
        if !store_ok {
            let r = Err(Rejection::new(Phase::Stateful, ErrorKind::GenericValidationFailure));
            assert(r == stateful_verdict(route, store_ok, true));
            return r;
        }
        match router.resolve(&self.port_id) {
            Some(app) => {
                let app_ok = app_check(app, self);
                let r = if app_ok {
                    Ok(())
                } else {
                    Err(Rejection::new(Phase::Stateful, ErrorKind::ApplicationCheckFailure))
                };
                assert(r == stateful_verdict(route, store_ok, app_ok));
                r
            },
            None => {
                let r = Err(Rejection::new(Phase::Stateful, ErrorKind::UnregisteredPort));
                assert(r == stateful_verdict(route, store_ok, true));
                r
            },
        }
    }

    /// The execute phase. It records the store's generic mutation
    /// unconditionally, then resolves the port again and records the execute
    /// callback of its application, or fails if the port has none. It does
    /// not validate: running the checks first is the caller's duty.
    pub fn execute(&self, router: &PortRouter, tx: &mut Vec<Effect>) -> (r: Result<(), Rejection>)
        ensures
            final(tx)@ == old(tx)@ + execute_effects(router.routes(self.port_id@)),
            r == execute_verdict(router.routes(self.port_id@)),
    {
        tx.push(Effect::StoreExecute);
        match router.resolve(&self.port_id) {
            Some(app) => {
                tx.push(Effect::AppExecute(app));
                assert(tx@ =~= old(tx)@ + execute_effects(router.routes(self.port_id@)));
                Ok(())
            },
            None => {
                assert(tx@ =~= old(tx)@ + execute_effects(router.routes(self.port_id@)));
                Err(Rejection::new(Phase::Execute, ErrorKind::UnregisteredPort))
            },
        }
    }

    /// The whole pipeline: the stateless check, then the stateful check, then
    /// execution, each only if the phase before it succeeded. The first
    /// failure is returned as it came, tagged with its phase; effects are
    /// recorded only once both checks have passed.
    pub fn process<V, C>(&self, router: &PortRouter, validate: V, app_check: C, tx: &mut Vec<Effect>) -> (r: Result<(), Rejection>) where
        V: FnOnce(&HandshakeMessage) -> bool,
        C: FnOnce(AppId, &HandshakeMessage) -> bool,

        requires
            validate.requires((self,)),
            forall|app: AppId| app_check.requires((app, self)),
        ensures
            self.stateless_verdict() is Err ==> {
                &&& r == self.stateless_verdict()
                &&& final(tx)@ == old(tx)@
            },
            self.stateless_verdict() is Ok ==> exists|store_ok: bool, app_ok: bool|
                {
                    &&& validate.ensures((self,), store_ok)
                    &&& (store_ok && router.routes(self.port_id@) is Some) ==> app_check.ensures(
                        (router.routes(self.port_id@)->0, self),
                        app_ok,
                    )
                    &&& r == self.pipeline_verdict(router.routes(self.port_id@), store_ok, app_ok)
                    &&& final(tx)@ == if r is Ok {
                        old(tx)@ + execute_effects(router.routes(self.port_id@))
                    } else {
                        old(tx)@
                    }
                },
    {
        let stateless = self.check_stateless();
        if stateless.is_err() {
            return stateless;
        }
        let ghost route = router.routes(self.port_id@);
        let stateful = self.check_stateful(router, validate, app_check);
        let ghost (store_ok, app_ok) = choose|store_ok: bool, app_ok: bool|
            {
                &&& validate.ensures((self,), store_ok)
                &&& (store_ok && route is Some) ==> app_check.ensures((route->0, self), app_ok)
                &&& stateful == stateful_verdict(route, store_ok, app_ok)
            };
        if stateful.is_err() {
            assert(stateful == self.pipeline_verdict(route, store_ok, app_ok));
            return stateful;
        }
        let r = self.execute(router, tx);
        assert(r == self.pipeline_verdict(route, store_ok, app_ok));
        r
    }
}

} // verus!
