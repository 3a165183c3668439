//! Broadcasters: the channels whose broadcasts are archived.

use vstd::prelude::*;

verus! {

/// A broadcaster, under the number that the platform gave it.
#[derive(Clone, Debug, PartialEq, Eq)]
pub struct Model {
    pub id: i64,
    pub display_name: String,
    pub profile_image_url: Option<String>,
}

} // verus!
