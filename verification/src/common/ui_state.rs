use super::{BlockId, ServerConversationToken};
use vstd::prelude::*;

verus! {

/// The active base model selection for agent mode.
/// This represents the UI state of which model is selected in the model picker chip.
#[derive(Clone, Debug, Eq)]
pub struct SelectedAgentModel(String);

impl View for SelectedAgentModel {
    type V = Seq<char>;

    closed spec fn view(&self) -> Seq<char> {
        self.0@
    }
}

impl PartialEq for SelectedAgentModel {
    fn eq(&self, other: &Self) -> (r: bool) {
        self.0 == other.0
    }
}

impl vstd::std_specs::cmp::PartialEqSpecImpl for SelectedAgentModel {
    open spec fn obeys_eq_spec() -> bool {
        true
    }

    open spec fn eq_spec(&self, other: &Self) -> bool {
        self@ == other@
    }
}

impl SelectedAgentModel {
    /// The model with the id that `model_id` converts into.
    pub fn new<T: Into<String>>(model_id: T) -> (r: Self)
        ensures
            exists|id: String|
                #[trigger] call_ensures(<T as Into<String>>::into, (model_id,), id) && r@ == id@,
    {
        Self(model_id.into())
    }

    pub fn model_id(&self) -> (r: &str)
        ensures
            r@ == self@,
    {
        self.0.as_str()
    }
}

/// The selected conversation for agent mode.
/// When agent view is enabled, this represents the conversation that is currently expanded.
/// When agent view is disabled, this represents the conversation the next query will follow up in.
#[derive(Clone, Debug, PartialEq, Eq, Structural)]
pub enum SelectedConversation {
    /// An existing conversation identified by a server token
    ExistingConversation(ServerConversationToken),
    /// The next query will start a new conversation
    /// (when agent view is enabled, this looks like an empty expanded view).
    NewConversation,
    /// No conversation selected
    /// (when agent view is enabled, this means that no agent view is expanded).
    NoConversation,
}

impl Default for SelectedConversation {
    fn default() -> (r: Self)
        ensures
            r == SelectedConversation::NewConversation,
    {
        SelectedConversation::NewConversation
    }
}

/// The server token of a selected conversation, if it is an existing one.
pub open spec fn token_of(selected: SelectedConversation) -> Option<ServerConversationToken> {
    match selected {
        SelectedConversation::ExistingConversation(token) => Some(token),
        _ => None,
    }
}

impl SelectedConversation {
    pub fn new(server_token: Option<ServerConversationToken>) -> (r: Self)
        ensures
            r == (match server_token {
                Some(token) => SelectedConversation::ExistingConversation(token),
                None => SelectedConversation::NewConversation,
            }),
    {
        match server_token {
            Some(token) => Self::ExistingConversation(token),
            None => Self::NewConversation,
        }
    }

    pub fn server_token(&self) -> (r: Option<&ServerConversationToken>)
        ensures
            match token_of(*self) {
                Some(token) => r matches Some(t) && *t == token,
                None => r is None,
            },
    {
        match self {
            Self::ExistingConversation(token) => Some(token),
            Self::NewConversation | Self::NoConversation => None,
        }
    }

    pub fn is_new_conversation(&self) -> (r: bool)
        ensures
            r == (*self is NewConversation),
    {
        match self {
            Self::NewConversation => true,
            _ => false,
        }
    }

    pub fn is_no_conversation(&self) -> (r: bool)
        ensures
            r == (*self is NoConversation),
    {
        match self {
            Self::NoConversation => true,
            _ => false,
        }
    }
}

/// Selecting by an optional token and reading the token back gives the same token;
/// without a token the selection is a new conversation.
pub proof fn lemma_selection_token_round_trip(server_token: Option<ServerConversationToken>)
    ensures
        token_of(
            match server_token {
                Some(token) => SelectedConversation::ExistingConversation(token),
                None => SelectedConversation::NewConversation,
            },
        ) == server_token,
{
}

/// The input type for the universal developer input.
#[derive(Clone, Copy, Default, PartialEq, Eq, Debug, Structural)]
pub enum InputType {
    /// The user input is a shell command.
    #[default]
    Shell,
    /// The user input is a natural language query to AI.
    AI,
}

/// The input mode for the universal developer input
/// (i.e. the input type and whether the input is locked in said type)
#[derive(Clone, Copy, Debug, PartialEq, Eq, Default, Structural)]
pub struct InputMode {
    pub input_type: InputType,
    pub is_locked: bool,
}

impl InputMode {
    pub fn new(input_type: InputType, is_locked: bool) -> (r: Self)
        ensures
            r == (InputMode { input_type, is_locked }),
    {
        Self { input_type, is_locked }
    }
}

/// Whether a CLI agent (e.g. Gemini CLI) is active in the
/// terminal. Synced during shared sessions so viewers see the agent footer.
#[derive(Clone, Debug, Eq)]
pub enum CLIAgentSessionState {
    /// A CLI agent is running.
    Active {
        /// Serialized `CLIAgent` enum value (e.g. "Gemini", "Codex").
        cli_agent: String,
        /// Whether the CLI agent rich input composer is open.
        is_rich_input_open: bool,
    },
    /// No CLI agent is running (or the previous one ended).
    Inactive,
}

impl View for CLIAgentSessionState {
    /// The running agent and whether its composer is open, or `None` when none runs.
    type V = Option<(Seq<char>, bool)>;

    open spec fn view(&self) -> Self::V {
        match self {
            CLIAgentSessionState::Active { cli_agent, is_rich_input_open } => Some(
                (cli_agent@, *is_rich_input_open),
            ),
            CLIAgentSessionState::Inactive => None,
        }
    }
}

impl PartialEq for CLIAgentSessionState {
    fn eq(&self, other: &Self) -> (r: bool) {
        match (self, other) {
            (
                CLIAgentSessionState::Active { cli_agent: a, is_rich_input_open: x },
                CLIAgentSessionState::Active { cli_agent: b, is_rich_input_open: y },
            ) => *a == *b && *x == *y,
            (CLIAgentSessionState::Inactive, CLIAgentSessionState::Inactive) => true,
            _ => false,
        }
    }
}

impl vstd::std_specs::cmp::PartialEqSpecImpl for CLIAgentSessionState {
    open spec fn obeys_eq_spec() -> bool {
        true
    }

    open spec fn eq_spec(&self, other: &Self) -> bool {
        self@ == other@
    }
}

impl Default for CLIAgentSessionState {
    fn default() -> (r: Self)
        ensures
            r@ is None,
    {
        CLIAgentSessionState::Inactive
    }
}

/// How the agent is interacting with the current long running command (if at all).
#[derive(Clone, Copy, Debug, PartialEq, Eq, Structural)]
pub enum LongRunningCommandAgentInteractionState {
    /// The agent is not interacting with any long running command.
    NotInteracting,
    /// The user started a long running command and tagged the agent into it.
    TaggedIn,
    /// The agent started and is controlling a long running command.
    InControl,
}

/// How the agent is interacting with a specific long running command block.
#[derive(Clone, Debug, Eq)]
pub struct LongRunningCommandAgentInteraction {
    pub block_id: BlockId,
    pub state: LongRunningCommandAgentInteractionState,
}

impl View for LongRunningCommandAgentInteraction {
    type V = (Seq<char>, LongRunningCommandAgentInteractionState);

    open spec fn view(&self) -> Self::V {
        (self.block_id@, self.state)
    }
}

impl PartialEq for LongRunningCommandAgentInteraction {
    fn eq(&self, other: &Self) -> (r: bool) {
        let same_block = self.block_id.to_string() == other.block_id.to_string();
        same_block && self.state == other.state
    }
}

impl vstd::std_specs::cmp::PartialEqSpecImpl for LongRunningCommandAgentInteraction {
    open spec fn obeys_eq_spec() -> bool {
        true
    }

    open spec fn eq_spec(&self, other: &Self) -> bool {
        self@ == other@
    }
}

/// The contents of a [`UniversalDeveloperInputContext`]: its selected model, input mode,
/// selected conversation, long-running-command interaction state, long-running-command
/// interaction, auto-approve setting and CLI agent session, in that order.
pub type InputContextModel = (
    Option<Seq<char>>,
    Option<InputMode>,
    Option<SelectedConversation>,
    Option<LongRunningCommandAgentInteractionState>,
    Option<(Seq<char>, LongRunningCommandAgentInteractionState)>,
    Option<bool>,
    Option<(Seq<char>, bool)>,
);

/// The contents of a [`UniversalDeveloperInputContextUpdate`]: the same fields as
/// [`InputContextModel`], each `None` where the update leaves it unchanged.
pub type InputContextUpdateModel = (
    Option<Seq<char>>,
    Option<InputMode>,
    Option<SelectedConversation>,
    Option<LongRunningCommandAgentInteractionState>,
    Option<(Seq<char>, LongRunningCommandAgentInteractionState)>,
    Option<bool>,
    Option<Option<(Seq<char>, bool)>>,
);

pub open spec fn model_text(m: Option<SelectedAgentModel>) -> Option<Seq<char>> {
    match m {
        Some(m) => Some(m@),
        None => None,
    }
}

pub open spec fn interaction_view(i: Option<LongRunningCommandAgentInteraction>) -> Option<
    (Seq<char>, LongRunningCommandAgentInteractionState),
> {
    match i {
        Some(i) => Some(i@),
        None => None,
    }
}

pub open spec fn cli_session_view(c: Option<CLIAgentSessionState>) -> Option<
    Option<(Seq<char>, bool)>,
> {
    match c {
        Some(c) => Some(c@),
        None => None,
    }
}

/// `a` where it is present, else `b`.
pub open spec fn either<T>(a: Option<T>, b: Option<T>) -> Option<T> {
    match a {
        Some(x) => Some(x),
        None => b,
    }
}

/// The field is given by the update and differs from the cached one.
pub open spec fn field_changes<T>(update: Option<T>, cached: Option<T>) -> bool {
    update is Some && update != cached
}

/// The context that results from applying an update: each field the update gives replaces
/// the current one; the others stay.
pub open spec fn merged(u: InputContextUpdateModel, c: InputContextModel) -> InputContextModel {
    (
        either(u.0, c.0),
        either(u.1, c.1),
        either(u.2, c.2),
        either(u.3, c.3),
        either(u.4, c.4),
        either(u.5, c.5),
        match u.6 {
            Some(session) => session,
            None => c.6,
        },
    )
}

/// Whether applying the update would change the context: some field that it gives
/// differs from the cached one.
pub open spec fn changes(u: InputContextUpdateModel, c: InputContextModel) -> bool {
    ||| field_changes(u.0, c.0)
    ||| field_changes(u.1, c.1)
    ||| field_changes(u.2, c.2)
    ||| field_changes(u.3, c.3)
    ||| field_changes(u.4, c.4)
    ||| field_changes(u.5, c.5)
    ||| field_changes(u.6, Some(c.6))
}

/// The update that sets every field to the context's value.
pub open spec fn full_update(c: InputContextModel) -> InputContextUpdateModel {
    (c.0, c.1, c.2, c.3, c.4, c.5, Some(c.6))
}

/// The combined state container for universal developer input context.
/// This includes model selection, input mode, and selected conversation.
#[derive(Clone, Debug, Default, PartialEq, Eq)]
pub struct UniversalDeveloperInputContext {
    /// Which agent model is selected as the primary model.
    pub selected_model: Option<SelectedAgentModel>,
    /// The input mode for the universal developer input.
    pub input_mode: Option<InputMode>,
    /// The selected conversation (identified by server token) for the next agent query.
    pub selected_conversation: Option<SelectedConversation>,
    /// How the agent is interacting with the current long running command (if at all).
    /// Deprecated in favor of long_running_command_agent_interaction.
    pub long_running_command_agent_interaction_state: Option<
        LongRunningCommandAgentInteractionState,
    >,
    /// How the agent is interacting with a specific long running command block, if any.
    pub long_running_command_agent_interaction: Option<LongRunningCommandAgentInteraction>,
    /// Whether auto-approve is enabled for agent actions.
    pub auto_approve_agent_actions: Option<bool>,
    /// Whether a CLI agent is active in this terminal.
    pub cli_agent_session: CLIAgentSessionState,
}

impl View for UniversalDeveloperInputContext {
    type V = InputContextModel;

    open spec fn view(&self) -> InputContextModel {
        (
            model_text(self.selected_model),
            self.input_mode,
            self.selected_conversation,
            self.long_running_command_agent_interaction_state,
            interaction_view(self.long_running_command_agent_interaction),
            self.auto_approve_agent_actions,
            self.cli_agent_session@,
        )
    }
}

/// Update message for universal developer input context - only contains fields that changed.
#[derive(Clone, Debug, Default)]
pub struct UniversalDeveloperInputContextUpdate {
    pub selected_model: Option<SelectedAgentModel>,
    pub input_mode: Option<InputMode>,
    pub selected_conversation: Option<SelectedConversation>,
    /// How the agent is interacting with the current long running command (if at all).
    pub long_running_command_agent_interaction_state: Option<
        LongRunningCommandAgentInteractionState,
    >,
    /// How the agent is interacting with a specific long running command block, if any.
    pub long_running_command_agent_interaction: Option<LongRunningCommandAgentInteraction>,
    pub auto_approve_agent_actions: Option<bool>,
    /// Whether a CLI agent is active. `None` = no change.
    pub cli_agent_session: Option<CLIAgentSessionState>,
}

impl View for UniversalDeveloperInputContextUpdate {
    type V = InputContextUpdateModel;

    open spec fn view(&self) -> InputContextUpdateModel {
        (
            model_text(self.selected_model),
            self.input_mode,
            self.selected_conversation,
            self.long_running_command_agent_interaction_state,
            interaction_view(self.long_running_command_agent_interaction),
            self.auto_approve_agent_actions,
            cli_session_view(self.cli_agent_session),
        )
    }
}

fn model_changes(update: &Option<SelectedAgentModel>, cached: &Option<SelectedAgentModel>) -> (r:
    bool)
    ensures
        r == field_changes(model_text(*update), model_text(*cached)),
{
    match (update, cached) {
        (Some(u), Some(c)) => !(*u == *c),
        (Some(_), None) => true,
        (None, _) => false,
    }
}

fn input_mode_changes(update: &Option<InputMode>, cached: &Option<InputMode>) -> (r: bool)
    ensures
        r == field_changes(*update, *cached),
{
    match (update, cached) {
        (Some(u), Some(c)) => !(*u == *c),
        (Some(_), None) => true,
        (None, _) => false,
    }
}

fn conversation_changes(
    update: &Option<SelectedConversation>,
    cached: &Option<SelectedConversation>,
) -> (r: bool)
    ensures
        r == field_changes(*update, *cached),
{
    match (update, cached) {
        (Some(u), Some(c)) => !(*u == *c),
        (Some(_), None) => true,
        (None, _) => false,
    }
}

fn interaction_state_changes(
    update: &Option<LongRunningCommandAgentInteractionState>,
    cached: &Option<LongRunningCommandAgentInteractionState>,
) -> (r: bool)
    ensures
        r == field_changes(*update, *cached),
{
    match (update, cached) {
        (Some(u), Some(c)) => !(*u == *c),
        (Some(_), None) => true,
        (None, _) => false,
    }
}

fn interaction_changes(
    update: &Option<LongRunningCommandAgentInteraction>,
    cached: &Option<LongRunningCommandAgentInteraction>,
) -> (r: bool)
    ensures
        r == field_changes(interaction_view(*update), interaction_view(*cached)),
{
    match (update, cached) {
        (Some(u), Some(c)) => !(*u == *c),
        (Some(_), None) => true,
        (None, _) => false,
    }
}

fn flag_changes(update: &Option<bool>, cached: &Option<bool>) -> (r: bool)
    ensures
        r == field_changes(*update, *cached),
{
    match (update, cached) {
        (Some(u), Some(c)) => *u != *c,
        (Some(_), None) => true,
        (None, _) => false,
    }
}

fn cli_session_changes(update: &Option<CLIAgentSessionState>, cached: &CLIAgentSessionState) -> (r:
    bool)
    ensures
        r == field_changes(cli_session_view(*update), Some(cached@)),
{
    match update {
        Some(u) => !(*u == *cached),
        None => false,
    }
}

impl UniversalDeveloperInputContextUpdate {
    /// Returns true if this update would actually change the given cached context.
    pub fn changes_cached_context(&self, cached: &UniversalDeveloperInputContext) -> (r: bool)
        ensures
            r == changes(self@, cached@),
    {
        model_changes(&self.selected_model, &cached.selected_model) || input_mode_changes(
            &self.input_mode,
            &cached.input_mode,
        ) || conversation_changes(&self.selected_conversation, &cached.selected_conversation)
            || flag_changes(&self.auto_approve_agent_actions, &cached.auto_approve_agent_actions)
            || interaction_state_changes(
            &self.long_running_command_agent_interaction_state,
            &cached.long_running_command_agent_interaction_state,
        ) || interaction_changes(
            &self.long_running_command_agent_interaction,
            &cached.long_running_command_agent_interaction,
        ) || cli_session_changes(&self.cli_agent_session, &cached.cli_agent_session)
    }

    /// Merges this update into the current context, returning the new merged state.
    pub fn merge_into(self, current: UniversalDeveloperInputContext) -> (r:
        UniversalDeveloperInputContext)
        ensures
            r@ == merged(self@, current@),
    {
        UniversalDeveloperInputContext {
            selected_model: match self.selected_model {
                Some(m) => Some(m),
                None => current.selected_model,
            },
            input_mode: match self.input_mode {
                Some(m) => Some(m),
                None => current.input_mode,
            },
            selected_conversation: match self.selected_conversation {
                Some(c) => Some(c),
                None => current.selected_conversation,
            },
            auto_approve_agent_actions: match self.auto_approve_agent_actions {
                Some(a) => Some(a),
                None => current.auto_approve_agent_actions,
            },
            long_running_command_agent_interaction_state:
                match self.long_running_command_agent_interaction_state {
                Some(s) => Some(s),
                None => current.long_running_command_agent_interaction_state,
            },
            long_running_command_agent_interaction: match self.long_running_command_agent_interaction {
                Some(i) => Some(i),
                None => current.long_running_command_agent_interaction,
            },
            cli_agent_session: match self.cli_agent_session {
                Some(session) => session,
                None => current.cli_agent_session,
            },
        }
    }
}

impl From<UniversalDeveloperInputContext> for UniversalDeveloperInputContextUpdate {
    fn from(context: UniversalDeveloperInputContext) -> (r: Self)
        ensures
            r@ == full_update(context@),
    {
        Self {
            selected_model: context.selected_model,
            input_mode: context.input_mode,
            selected_conversation: context.selected_conversation,
            auto_approve_agent_actions: context.auto_approve_agent_actions,
            long_running_command_agent_interaction_state:
                context.long_running_command_agent_interaction_state,
            long_running_command_agent_interaction: context.long_running_command_agent_interaction,
            cli_agent_session: Some(context.cli_agent_session),
        }
    }
}

impl vstd::std_specs::convert::FromSpecImpl<UniversalDeveloperInputContext> for
    UniversalDeveloperInputContextUpdate {
    open spec fn obeys_from_spec() -> bool {
        true
    }

    open spec fn from_spec(context: UniversalDeveloperInputContext) -> Self {
        Self {
            selected_model: context.selected_model,
            input_mode: context.input_mode,
            selected_conversation: context.selected_conversation,
            auto_approve_agent_actions: context.auto_approve_agent_actions,
            long_running_command_agent_interaction_state:
                context.long_running_command_agent_interaction_state,
            long_running_command_agent_interaction: context.long_running_command_agent_interaction,
            cli_agent_session: Some(context.cli_agent_session),
        }
    }
}

/// Every field that an update gives replaces the current one, whatever that was, and every
/// field it leaves out keeps the current value; the CLI agent session follows the same rule.
pub proof fn lemma_update_fields_take_precedence(u: InputContextUpdateModel, c: InputContextModel)
    ensures
        u.0 is Some ==> merged(u, c).0 == u.0,
        u.0 is None ==> merged(u, c).0 == c.0,
        u.1 is Some ==> merged(u, c).1 == u.1,
        u.1 is None ==> merged(u, c).1 == c.1,
        u.2 is Some ==> merged(u, c).2 == u.2,
        u.2 is None ==> merged(u, c).2 == c.2,
        u.3 is Some ==> merged(u, c).3 == u.3,
        u.3 is None ==> merged(u, c).3 == c.3,
        u.4 is Some ==> merged(u, c).4 == u.4,
        u.4 is None ==> merged(u, c).4 == c.4,
        u.5 is Some ==> merged(u, c).5 == u.5,
        u.5 is None ==> merged(u, c).5 == c.5,
        u.6 matches Some(session) ==> merged(u, c).6 == session,
        u.6 is None ==> merged(u, c).6 == c.6,
{
}

/// An update changes a context exactly when some field it gives differs from the cached
/// one: an update that gives a field with a new value changes the context, and one whose
/// given fields all equal the cached ones does not.
pub proof fn lemma_changes_exactly_on_a_new_value(u: InputContextUpdateModel, c: InputContextModel)
    ensures
        changes(u, c) <==> {
            ||| (u.0 is Some && u.0 != c.0)
            ||| (u.1 is Some && u.1 != c.1)
            ||| (u.2 is Some && u.2 != c.2)
            ||| (u.3 is Some && u.3 != c.3)
            ||| (u.4 is Some && u.4 != c.4)
            ||| (u.5 is Some && u.5 != c.5)
            ||| (u.6 matches Some(session) && session != c.6)
        },
{
}

/// An update changes a context exactly when merging it in yields a different context.
pub proof fn lemma_changes_iff_merge_differs(u: InputContextUpdateModel, c: InputContextModel)
    ensures
        changes(u, c) <==> merged(u, c) != c,
{
}

/// Merging an update a second time changes nothing, and the merged context is one that
/// the update no longer changes.
pub proof fn lemma_merge_is_idempotent(u: InputContextUpdateModel, c: InputContextModel)
    ensures
        merged(u, merged(u, c)) == merged(u, c),
        !changes(u, merged(u, c)),
{
}

/// The update built from a context carries all of it: merged into any context it yields
/// the fields it gives, merged into the context it came from it yields that context, and
/// it does not change that context.
pub proof fn lemma_full_update_restores_context(c: InputContextModel, other: InputContextModel)
    ensures
        merged(full_update(c), c) == c,
        !changes(full_update(c), c),
        merged(full_update(c), other).6 == c.6,
        c.0 is Some ==> merged(full_update(c), other).0 == c.0,
        c.2 is Some ==> merged(full_update(c), other).2 == c.2,
{
}

} // verus!
