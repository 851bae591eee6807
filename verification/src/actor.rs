//! Actors.

use vstd::prelude::*;
use crate::error::Error;
use crate::text::same_text;

verus! {

/// Whether an actor keeps a state of its own.
#[derive(Clone, Copy, Debug, PartialEq, Eq, Hash, Structural)]
pub enum ActorKind {
    Stateful,
    Stateless,
}

impl ActorKind {
    /// The kind itself.
    pub fn as_kind(&self) -> (r: Self)
        ensures
            r == *self,
    {
        *self
    }

    /// The name of a kind.
    pub open spec fn name(self) -> Seq<char> {
        match self {
            ActorKind::Stateful => "Stateful"@,
            ActorKind::Stateless => "Stateless"@,
        }
    }

    /// The name of the kind.
    pub fn to_string(&self) -> (r: String)
        ensures
            r@ == self.name(),
    {
        match self {
            ActorKind::Stateful => String::from_str("Stateful"),
            ActorKind::Stateless => String::from_str("Stateless"),
        }
    }

    /// The kind that `s` names.
    pub fn from_str(s: &str) -> (r: Result<Self, Error>)
        ensures
            match r {
                Ok(kind) => s@ == kind.name(),
                Err(error) => s@ != "Stateful"@ && s@ != "Stateless"@ && error@.error
                    == "could not find ActorKind: "@ + s@,
            },
    {
        if same_text(s, "Stateful") {
            Ok(ActorKind::Stateful)
        } else if same_text(s, "Stateless") {
            Ok(ActorKind::Stateless)
        } else {
            let mut message = String::from_str("could not find ActorKind: ");
            message.append(s);
            Err(Error { error: message })
        }
    }
}

} // verus!
