//! Color resolution: which color a segment gets, given its role's built-in
//! default, an override for the role, and an override for every role.

use vstd::prelude::*;
use crate::color::Color;

verus! {

/// The effective color: the role's override, else the global override,
/// else the role's default.
pub open spec fn resolved(
    role_default: Color,
    role_override: Option<Color>,
    global_override: Option<Color>,
) -> Color {
    match role_override {
        Some(c) => c,
        None => match global_override {
            Some(c) => c,
            None => role_default,
        },
    }
}

/// Picks the effective color of a role.
pub fn resolve(
    role_default: Color,
    role_override: Option<Color>,
    global_override: Option<Color>,
) -> (r: Color)
    ensures
        r == resolved(role_default, role_override, global_override),
{
    match role_override {
        Some(c) => c,
        None => match global_override {
            Some(c) => c,
            None => role_default,
        },
    }
}

/// A role's own override wins over the global one, the global one wins
/// over the built-in default, and the default applies when neither is set.
pub proof fn lemma_resolution_precedence(role_default: Color, a: Color, b: Color)
    ensures
        resolved(role_default, Some(a), Some(b)) == a,
        resolved(role_default, Some(a), None) == a,
        resolved(role_default, None, Some(b)) == b,
        resolved(role_default, None, None) == role_default,
{
}

} // verus!
