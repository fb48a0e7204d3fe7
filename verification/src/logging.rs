//! The messages of Luna4's structured log events.
use vstd::prelude::*;

use crate::cycle::LunarPhase;
use crate::text::{decimal, decimal_string};

verus! {

/// The message of a resource generation attempt.
pub open spec fn generation_message_text(resource_type: Seq<char>, success: bool) -> Seq<char> {
    if success {
        "Successfully generated "@ + resource_type
    } else {
        "Failed to generate "@ + resource_type
    }
}

/// Builds the message of a resource generation attempt.
pub fn resource_generation_message(resource_type: &str, success: bool) -> (m: String)
    ensures
        m@ == generation_message_text(resource_type@, success),
{
    let mut m = if success {
        String::from_str("Successfully generated ")
    } else {
        String::from_str("Failed to generate ")
    };
    m.append(resource_type);
    m
}

/// The message of a lunar phase transition.
pub open spec fn transition_message_text(from: LunarPhase, to: LunarPhase) -> Seq<char> {
    "Phase transition: "@ + from.name_text() + " → "@ + to.name_text()
}

/// Builds the message of a lunar phase transition.
pub fn phase_transition_message(from: LunarPhase, to: LunarPhase) -> (m: String)
    ensures
        m@ == transition_message_text(from, to),
{
    let mut m = String::from_str("Phase transition: ");
    m.append(from.name());
    m.append(" → ");
    m.append(to.name());
    m
}

/// The message of an explorer interaction.
pub open spec fn interaction_message_text(explorer_id: u32, action: Seq<char>, success: bool) -> Seq<
    char,
> {
    "Explorer "@ + decimal(explorer_id as nat) + (if success {
        " successfully"@
    } else {
        " failed to"@
    }) + ": "@ + action
}

/// Builds the message of an explorer interaction.
pub fn explorer_interaction_message(explorer_id: u32, action: &str, success: bool) -> (m: String)
    ensures
        m@ == interaction_message_text(explorer_id, action@, success),
{
    let mut m = String::from_str("Explorer ");
    let id = decimal_string(explorer_id as u64);
    m.append(id.as_str());
    if success {
        m.append(" successfully");
    } else {
        m.append(" failed to");
    }
    m.append(": ");
    m.append(action);
    m
}

} // verus!
