//! Image generation blueprints of a pull zone.
use vstd::prelude::*;
use std::collections::HashMap;

verus! {

/// A named set of image generation properties.
#[derive(Debug, Clone)]
pub struct BunnyAIImageBlueprint {
    pub name: String,
    pub properties: HashMap<String, String>,
}

} // verus!
