//! Drawing styles.

use vstd::prelude::*;

verus! {

/// How a drawable is filled in.
#[derive(Debug, Copy, Clone)]
pub enum Style {
    Rect,
}

} // verus!
