//! What a screenshot is sent to the vision role with.

use vstd::prelude::*;

verus! {

/// The guidance used when a screenshot call gives none.
pub const DEFAULT_VISION_GUIDANCE: &'static str = "Describe the page layout, visible text, interactive elements, and anything anomalous.";

/// The system message of a screenshot interpretation request.
pub const VISION_SYSTEM_PROMPT: &'static str = "You interpret browser screenshots for an agent that cannot see images itself. Be concise, factual, and specific about what's actually visible -- don't guess at content you can't read clearly.";

/// The text sent with the image: the call's guidance, unless it is absent
/// or empty, in which case `DEFAULT_VISION_GUIDANCE`.
pub fn vision_guidance<'a>(guidance: Option<&'a str>) -> (r: &'a str)
    ensures
        match guidance {
            Some(g) if g@.len() > 0 => r@ == g@,
            _ => r@ == DEFAULT_VISION_GUIDANCE@,
        },
{
    match guidance {
        Some(g) => {
            if g.is_empty() {
                DEFAULT_VISION_GUIDANCE
            } else {
                g
            }
        },
        None => DEFAULT_VISION_GUIDANCE,
    }
}

} // verus!
