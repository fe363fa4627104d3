//! Image optimizer classes of a pull zone.
use vstd::prelude::*;
use std::collections::HashMap;

verus! {

/// A named set of image optimizer properties.
#[derive(Debug, Clone)]
pub struct OptimizerClass {
    pub name: String,
    pub properties: HashMap<String, String>,
}

} // verus!
