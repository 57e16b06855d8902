//! Process-global application resources: preparing the merged-dictionary
//! chain that the runtime installs leaf by leaf.

use vstd::prelude::*;

use vstd::string::StringSliceAdditionalSpecFns;

use crate::text::{c_string, c_string_of};

verus! {

/// The URIs of a resource-dictionary chain as the C strings the runtime reads,
/// in the given dependency order. An empty chain installs nothing, so it
/// gives `None`. A URI may not hold a NUL byte: it could not be passed as a
/// C string.
pub fn resource_chain(uris: &[&str]) -> (chain: Option<Vec<Vec<u8>>>)
    requires
        forall|i: int| 0 <= i < uris@.len() ==> !(#[trigger] uris@[i].spec_bytes()).contains(0u8),
    ensures
        chain is None <==> uris@.len() == 0,
        chain matches Some(c) ==> c@.len() == uris@.len() && forall|i: int|
            0 <= i < c@.len() ==> Some(#[trigger] c@[i]@) == c_string_of(uris@[i].spec_bytes()),
{
    if uris.len() == 0 {
        return None;
    }
    let mut chain: Vec<Vec<u8>> = Vec::new();
    let mut i: usize = 0;
    while i < uris.len()
        invariant
            i <= uris@.len(),
            chain@.len() == i,
            forall|j: int| 0 <= j < uris@.len() ==> !(#[trigger] uris@[j].spec_bytes()).contains(0u8),
            forall|j: int|
                0 <= j < i ==> Some(#[trigger] chain@[j]@) == c_string_of(uris@[j].spec_bytes()),
        decreases uris@.len() - i,
    {
        let uri: &str = uris[i];
        assert(!uris@[i as int].spec_bytes().contains(0u8));
        match c_string(uri.as_bytes()) {
            Some(c) => {
                chain.push(c);
            },
            None => {
                return None;
            },
        }
        i = i + 1;
    }
    Some(chain)
}

} // verus!
