use vstd::prelude::*;

verus! {

/// Client feature support declaration.
/// Clients include this in their init payloads to declare which protocol features they support.
/// This allows the server to adapt messages for backward compatibility with older clients.
#[derive(Clone, Debug, PartialEq, Eq, Structural)]
pub struct FeatureSupport {
    /// Whether the client supports agent view and has it enabled.
    pub supports_agent_view: bool,
    /// Unused in favor of supports_full_role_for_real. Clients set this to true before they were actually ready.
    pub supports_full_role: bool,
    /// Whether the client supports the "Full" role ACL.
    pub supports_full_role_for_real: bool,
    /// Whether the client can negotiate semantic-only sessions and decode
    /// semantic ordered-event and resync variants.
    pub supports_semantic_conversation: bool,
}

impl Default for FeatureSupport {
    /// A client that declares no optional feature.
    fn default() -> (r: Self)
        ensures
            !r.supports_agent_view,
            !r.supports_full_role,
            !r.supports_full_role_for_real,
            !r.supports_semantic_conversation,
    {
        FeatureSupport {
            supports_agent_view: false,
            supports_full_role: false,
            supports_full_role_for_real: false,
            supports_semantic_conversation: false,
        }
    }
}

} // verus!
