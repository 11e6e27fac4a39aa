//! Plain components that game code attaches to its entities.

use vstd::prelude::*;

verus! {

/// A name given to an entity.
#[derive(Debug, Clone)]
pub struct Tag {
    pub name: String,
}

} // verus!
