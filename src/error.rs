use vstd::prelude::*;

verus! {

/// The phase of the pipeline that produced a rejection.
#[derive(Clone, Copy, Debug, PartialEq, Eq, Structural)]
pub enum Phase {
    Stateless,
    Stateful,
    Execute,
}

/// Why a message was rejected.
#[derive(Clone, Copy, Debug, PartialEq, Eq, Structural)]
pub enum ErrorKind {
    /// The message's fields break a structural rule: here, the number of
    /// connection hops (carried in `hops`) is not exactly one.
    StructuralViolation { hops: usize },
    /// The store's generic validation for this message type refused it.
    GenericValidationFailure,
    /// No application is registered for the message's port.
    UnregisteredPort,
    /// The application registered for the port refused the message.
    ApplicationCheckFailure,
}

/// A failed phase: which phase, and why.
#[derive(Clone, Copy, Debug, PartialEq, Eq, Structural)]
pub struct Rejection {
    pub phase: Phase,
    pub kind: ErrorKind,
}

impl Rejection {
    pub fn new(phase: Phase, kind: ErrorKind) -> (r: Rejection)
        ensures
            r == (Rejection { phase, kind }),
    {
        Rejection { phase, kind }
    }

    /// A short description of the rejection's kind.
    pub fn describe(&self) -> (r: String)
        ensures
            r@ == self.kind.description(),
    {
        let s = match self.kind {
            ErrorKind::StructuralViolation { .. } => "connection hops must hold exactly one connection",
            ErrorKind::GenericValidationFailure => "rejected by the store's validation",
            ErrorKind::UnregisteredPort => "invalid port id",
            ErrorKind::ApplicationCheckFailure => "rejected by the port's application",
        };
        s.to_owned()
    }
}

impl ErrorKind {
    /// The text that describes each kind.
    pub open spec fn description(&self) -> Seq<char> {
        match self {
            ErrorKind::StructuralViolation { .. } => "connection hops must hold exactly one connection"@,
            ErrorKind::GenericValidationFailure => "rejected by the store's validation"@,
            ErrorKind::UnregisteredPort => "invalid port id"@,
            ErrorKind::ApplicationCheckFailure => "rejected by the port's application"@,
        }
    }
}

} // verus!
