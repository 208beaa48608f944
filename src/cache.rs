//! The cached catalog: the last catalog fetched, kept between invocations.
use vstd::prelude::*;

use crate::instance_details::InstanceSet;

verus! {

/// A snapshot of a catalog, to be written to the cache.
pub struct InstanceCache {
    pub instances: InstanceSet,
}

impl InstanceCache {
    pub fn new(instances: &InstanceSet) -> (r: Self)
        ensures
            r.instances.instances@ == instances.instances@,
    {
        InstanceCache { instances: instances.duplicate() }
    }

    /// The catalog to use without a live fetch: the cached one when the cache
    /// may be used and could be read and parsed; otherwise none, and the
    /// catalog has to be fetched.
    pub fn usable(no_cache: bool, cached: Option<InstanceSet>) -> (r: Option<InstanceSet>)
        ensures
            r == (if no_cache {
                None
            } else {
                cached
            }),
    {
        if no_cache {
            None
        } else {
            cached
        }
    }
}

} // verus!
