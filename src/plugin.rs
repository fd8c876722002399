//! Hook for generating images from a text prompt.
use vstd::prelude::*;

verus! {

/// Image generation plugin. No generator is connected yet, so a request
/// produces nothing.
pub struct AiPlugin;

impl AiPlugin {
    /// Requests an image for `prompt`; currently does nothing.
    pub fn generate_image(&self, _prompt: &str) {
    }
}

} // verus!
