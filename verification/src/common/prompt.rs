use vstd::prelude::*;

verus! {

/// The prompt for the active block.
#[derive(Clone, Default, PartialEq, Eq)]
pub enum ActivePrompt {
    /// Using the PS1 prompt, which is included in forwarded pty bytes.
    #[default]
    PS1,
    /// JSON serialization of PromptSnapshot
    WarpPrompt(String),
}

/// An update to the active block's prompt.
#[derive(Clone)]
pub struct ActivePromptUpdate {
    pub active_prompt: ActivePrompt,
    /// The event_no of the last OrderedTerminalEvent shared.
    pub last_event_no: usize,
}

} // verus!
