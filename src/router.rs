use vstd::prelude::*;

verus! {

/// The applications that can own a port and be consulted for its channels.
#[derive(Clone, Copy, Debug, PartialEq, Eq, Structural)]
pub enum AppId {
    /// The fungible token transfer application.
    TokenTransfer,
}

/// The identifier of the token transfer port.
pub open spec fn transfer_port_id() -> Seq<char> {
    seq!['t', 'r', 'a', 'n', 's', 'f', 'e', 'r']
}

/// The application of the first entry whose port is `port`, if any.
pub open spec fn route(entries: Seq<(String, AppId)>, port: Seq<char>) -> Option<AppId>
    decreases entries.len(),
{
    if entries.len() == 0 {
        None
    } else if entries[0].0@ == port {
        Some(entries[0].1)
    } else {
        route(entries.drop_first(), port)
    }
}

proof fn lemma_route_push(entries: Seq<(String, AppId)>, e: (String, AppId), port: Seq<char>)
    ensures
        route(entries.push(e), port) == (match route(entries, port) {
            Some(a) => Some(a),
            None => if e.0@ == port {
                Some(e.1)
            } else {
                None
            },
        }),
    decreases entries.len(),
{
    reveal_with_fuel(route, 2);
    let pushed = entries.push(e);
    if entries.len() > 0 {
        assert(pushed[0] == entries[0]);
        assert(pushed.drop_first() =~= entries.drop_first().push(e));
        lemma_route_push(entries.drop_first(), e, port);
    } else {
        assert(pushed[0] == e);
        assert(pushed.drop_first() =~= Seq::<(String, AppId)>::empty());
    }
}

/// The identifier of the token transfer port.
///
/// Relies on ibc's `PortId::transfer`, which builds the port from the
/// constant "transfer", and on `PortId::as_str`, which lends its text.
#[verifier::external_body]
fn transfer_port() -> (r: String)
    ensures
        r@ == transfer_port_id(),
{
    ibc::core::host::types::identifiers::PortId::transfer().as_str().to_owned()
}

/// A registration table from port identifiers to the applications that own
/// them. Each port is registered at most once.
pub struct PortRouter {
    entries: Vec<(String, AppId)>,
}

impl PortRouter {
    /// The application registered for `port`, if any.
    pub closed spec fn routes(&self, port: Seq<char>) -> Option<AppId> {
        route(self.entries@, port)
    }

    /// A table with no registered port.
    pub fn new() -> (r: PortRouter)
        ensures
            forall|p: Seq<char>| r.routes(p) == None::<AppId>,
    {
        PortRouter { entries: Vec::new() }
    }

    /// The table with the token transfer application on the transfer port.
    pub fn with_transfer() -> (r: PortRouter)
        ensures
            forall|p: Seq<char>|
                r.routes(p) == if p == transfer_port_id() {
                    Some(AppId::TokenTransfer)
                } else {
                    None
                },
    {
        let mut r = PortRouter::new();
        r.register(transfer_port(), AppId::TokenTransfer);
        r
    }

    /// Registers `app` on `port`. A port that is already registered keeps its
    /// application, and `false` is returned.
    pub fn register(&mut self, port: String, app: AppId) -> (added: bool)
        ensures
            added == (old(self).routes(port@) is None),
            forall|p: Seq<char>|
                final(self).routes(p) == if added && p == port@ {
                    Some(app)
                } else {
                    old(self).routes(p)
                },
    {
        if self.resolve(&port).is_some() {
            return false;
        }
        proof {
            assert forall|p: Seq<char>| route(self.entries@.push((port, app)), p) == (if p == port@ {
                Some(app)
            } else {
                route(self.entries@, p)
            }) by {
                lemma_route_push(self.entries@, (port, app), p);
            }
        }
        self.entries.push((port, app));
        true
    }

    /// Resolves `port` to the application registered for it.
    pub fn resolve(&self, port: &String) -> (r: Option<AppId>)
        ensures
            r == self.routes(port@),
    {
        let mut i: usize = 0;
        assert(self.entries@.subrange(0, self.entries@.len() as int) =~= self.entries@);
        while i < self.entries.len()
            invariant
                i <= self.entries@.len(),
                route(self.entries@, port@) == route(self.entries@.subrange(i as int, self.entries@.len() as int), port@),
            decreases self.entries@.len() - i,
        {
            let ghost rest = self.entries@.subrange(i as int, self.entries@.len() as int);
            if self.entries[i].0 == *port {
                return Some(self.entries[i].1);
            }
            assert(rest.drop_first() =~= self.entries@.subrange(i + 1, self.entries@.len() as int));
            i = i + 1;
        }
        None
    }
}

} // verus!
