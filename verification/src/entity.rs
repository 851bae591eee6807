//! Entities that applications place on stars.

use vstd::prelude::*;
use crate::id::Id;
use crate::star::{StarKey, StarKeyView};

verus! {

/// Identifier of an entity: the application it belongs to and its own id.
#[derive(Clone, Copy, Debug, PartialEq, Eq, Hash, Structural)]
pub struct EntityKey {
    pub app: Id,
    pub id: Id,
}

/// The mathematical value of a [`EntityLocation`].
pub ghost struct EntityLocationView {
    pub entity: EntityKey,
    pub star: StarKeyView,
}

/// The star on which an entity lives.
#[derive(Debug, PartialEq, Eq, Hash)]
pub struct EntityLocation {
    pub entity: EntityKey,
    pub star: StarKey,
}

impl View for EntityLocation {
    type V = EntityLocationView;

    open spec fn view(&self) -> EntityLocationView {
        EntityLocationView {
            entity: self.entity,
            star: self.star@,
        }
    }
}

impl DeepView for EntityLocation {
    type V = EntityLocationView;

    open spec fn deep_view(&self) -> EntityLocationView {
        self@
    }
}

impl Clone for EntityLocation {
    fn clone(&self) -> (r: Self)
        ensures
            r@ == self@,
    {
        let r = EntityLocation {
            entity: self.entity,
            star: self.star.clone(),
        };
        r
    }
}

} // verus!
