//! Typed storage of the extensions: at most one value of each type.

use vstd::prelude::*;
use crate::ext::performance::stored_performance;

verus! {

/// What the extensions keep between calls, one value for each type that was stored.
///
/// Verus sees nothing inside: the map is `anymap::AnyMap`, and each extension states
/// what it keeps there over a name of its own.
#[verifier::external_body]
pub struct OpsStorage {
    pub(crate) map: anymap::AnyMap,
}

/// `anymap::Map::new` makes an empty map: no value of any type is stored.
#[verifier::external_body]
fn empty_map() -> (storage: OpsStorage)
    ensures
        stored_performance(storage) is None,
{
    OpsStorage { map: anymap::AnyMap::new() }
}

impl OpsStorage {
    /// A storage that holds nothing.
    pub fn new() -> (storage: Self)
        ensures
            stored_performance(storage) is None,
    {
        empty_map()
    }
}

} // verus!
