//! Uploaded media.

use vstd::prelude::*;

verus! {

/// An edit of a media item's label.
pub struct UpdateMedia {
    pub label: Option<String>,
}

} // verus!
