use serde_json::Value;
use vstd::prelude::*;

verus! {

#[verifier::external_type_specification]
#[verifier::external_body]
pub struct ExJsonValue(Value);

/// `serde_json::Value::clone` (derived by the crate) returns a value equal to the one cloned.
pub assume_specification[ <Value as Clone>::clone ](value: &Value) -> (r: Value)
    ensures
        r == *value,
;

/// Context about the end-client that we want to attach to telemetry events.
///
/// This is an opaque blob that the client chooses because we want to respect
/// whatever context it wants to declare rather than a custom schema.
/// Since we use Rudderstack, it should still respect the named fields
/// here: https://www.rudderstack.com/docs/event-spec/standard-events/common-fields/#contextual-fields
#[derive(Clone, Debug)]
pub struct TelemetryContext(pub Value);

} // verus!
