use vstd::prelude::*;

verus! {

/// The descriptive tags of a place of worship in map data.
#[derive(Debug)]
pub struct Tags {
    pub name: Option<String>,
    pub street: Option<String>,
    pub city: Option<String>,
}

} // verus!
