use vstd::prelude::*;

verus! {

/// The failure kinds the automation core can surface. Every one is fatal to
/// the issuing operation and is propagated, never retried internally.
#[derive(Clone, Copy, Debug, PartialEq, Eq, Structural)]
pub enum CoreError {
    /// The display/keyboard transport delivered an unrecognized or
    /// out-of-protocol event, or a pixel block of the wrong size.
    Transport,
    /// A requested rectangle does not fit inside the source frame.
    Bounds,
    /// An operator's screenshot request carried a malformed rectangle.
    OperatorParse,
    /// A screenshot artifact could not be encoded (a zero dimension).
    Artifact,
}

impl CoreError {
    /// A short description of the error, for callers that report it.
    pub fn message(&self) -> (m: &'static str)
        ensures
            *self is Transport ==> m@ == "display transport failed"@,
            *self is Bounds ==> m@ == "rectangle out of bounds"@,
            *self is OperatorParse ==> m@ == "malformed rectangle in operator input"@,
            *self is Artifact ==> m@ == "screenshot could not be encoded"@,
    {
        match self {
            CoreError::Transport => "display transport failed",
            CoreError::Bounds => "rectangle out of bounds",
            CoreError::OperatorParse => "malformed rectangle in operator input",
            CoreError::Artifact => "screenshot could not be encoded",
        }
    }
}

} // verus!
