//! The setup of a key, when the client runs for the first time.

use vstd::prelude::*;

use crate::client::{AgentOp, FirstRunState, RumbleApp};
use crate::commands::{CommandData, Commands};
use crate::key_manager::{
    info_of, is_encrypted_keys, plaintext_keys, ConfigData, InfoData, KeyError, KeyInfo, KeyState,
    SourceData,
};
use crate::signing::optional_seed;
use crate::text::{joined, joined3, optional_text, same_text};

verus! {

/// What the user does in the setup.
#[derive(Debug)]
pub enum SetupEvent {
    /// Wants a key on this computer.
    ChooseLocal,
    /// Wants a key of the SSH agent, which is there or is not.
    ChooseAgent { available: bool },
    /// Edits the password and its repetition.
    EditPasswords { password: String, password_confirm: String },
    /// Has a key generated on this computer.
    GenerateLocal,
    /// Clicks on a key of the agent.
    PickKey(usize),
    /// Uses the key that is selected.
    UseSelected,
    /// Wants a new key for the agent.
    NewAgentKey,
    /// Edits the comment of the new key.
    EditComment(String),
    /// Has a key generated for the agent.
    GenerateForAgent,
    /// Goes back.
    Back,
}

/// What is to be done about it.
#[derive(Debug)]
pub enum SetupAction {
    Nothing,
    /// Ask the agent for its keys.
    ListKeys,
    /// Generate a key on this computer, with a password if there is one.
    Generate(Option<String>),
    /// Use a key of the agent.
    Select(KeyInfo),
    /// Generate a key and hand it to the agent, with a comment.
    AddKey(String),
}

/// Whether the setup is shown.
pub open spec fn is_shown(state: FirstRunState) -> bool {
    !(state is NotNeeded) && !(state is Complete)
}

impl FirstRunState {
    /// Whether the setup is shown.
    pub fn shown(&self) -> (shown: bool)
        ensures
            shown == is_shown(*self),
    {
        match self {
            FirstRunState::NotNeeded | FirstRunState::Complete => false,
            _ => true,
        }
    }
}

/// What is said where there is no agent.
pub fn agent_warning(available: bool) -> (text: Option<&'static str>)
    ensures
        match text {
            Some(warning) => !available && warning@
                == "⚠ SSH_AUTH_SOCK not set - ssh-agent not available"@,
            None => available,
        },
{
    if available {
        None
    } else {
        Some("⚠ SSH_AUTH_SOCK not set - ssh-agent not available")
    }
}

/// What is said of a password and its repetition: they are compared once both were
/// entered.
pub fn password_warning(password: &str, password_confirm: &str) -> (text: Option<&'static str>)
    ensures
        match text {
            Some(warning) => password@.len() > 0 && password_confirm@.len() > 0 && password@
                != password_confirm@ && warning@ == "⚠ Passwords don't match"@,
            None => password@.len() == 0 || password_confirm@.len() == 0 || password@
                == password_confirm@,
        },
{
    if password.is_empty() || password_confirm.is_empty() || same_text(password, password_confirm) {
        None
    } else {
        Some("⚠ Passwords don't match")
    }
}

/// How a key of the agent is listed.
pub fn agent_key_label(key: &KeyInfo) -> (text: String)
    ensures
        text@ == key@.comment + " ("@ + key@.fingerprint + ")"@,
{
    let mut text = joined3(key.comment.as_str(), " (", key.fingerprint.as_str());
    text.push_str(")");
    text
}

/// Whether a key may be generated with what was entered.
pub open spec fn passwords_agree(password: Seq<char>, password_confirm: Seq<char>) -> bool {
    password.len() == 0 || password == password_confirm
}

/// Whether the setup goes from `before` to `after` by an event, and has `action` done.
/// An event that belongs to another screen does nothing.
pub open spec fn is_setup_step(
    before: FirstRunState,
    agent_busy: bool,
    event: SetupEvent,
    after: FirstRunState,
    action: SetupAction,
) -> bool {
    match (before, event) {
        (FirstRunState::SelectMethod, SetupEvent::ChooseLocal) => {
            &&& after matches FirstRunState::GenerateLocal { password, password_confirm, error }
                && password@ == ""@ && password_confirm@ == ""@ && error is None
            &&& action is Nothing
        },
        (FirstRunState::SelectMethod, SetupEvent::ChooseAgent { available }) => if available {
            &&& after is ConnectingAgent
            &&& agent_busy ==> action is Nothing
            &&& !agent_busy ==> action is ListKeys
        } else {
            after == before && action is Nothing
        },
        (
            FirstRunState::GenerateLocal { error, .. },
            SetupEvent::EditPasswords { password, password_confirm },
        ) => {
            &&& after == (FirstRunState::GenerateLocal { password, password_confirm, error })
            &&& action is Nothing
        },
        (
            FirstRunState::GenerateLocal { password, password_confirm, .. },
            SetupEvent::GenerateLocal,
        ) => {
            &&& after == before
            &&& if !passwords_agree(password@, password_confirm@) {
                action is Nothing
            } else if password@.len() == 0 {
                action == SetupAction::Generate(None)
            } else {
                action matches SetupAction::Generate(Some(pw)) && pw@ == password@
            }
        },
        (FirstRunState::GenerateLocal { .. }, SetupEvent::Back) => after is SelectMethod
            && action is Nothing,
        (FirstRunState::ConnectingAgent, SetupEvent::Back) => after is SelectMethod
            && action is Nothing,
        (FirstRunState::SelectAgentKey { keys, error, .. }, SetupEvent::PickKey(index)) => {
            if index < keys@.len() {
                &&& after == (FirstRunState::SelectAgentKey { keys, selected: Some(index), error })
                &&& action is Nothing
            } else {
                after == before && action is Nothing
            }
        },
        (FirstRunState::SelectAgentKey { keys, selected, .. }, SetupEvent::UseSelected) => {
            &&& after == before
            &&& if selected is Some && selected->0 < keys@.len() {
                action matches SetupAction::Select(key) && key@ == keys@[selected->0 as int]@
            } else {
                action is Nothing
            }
        },
        (FirstRunState::SelectAgentKey { .. }, SetupEvent::NewAgentKey) => {
            &&& after matches FirstRunState::GenerateAgentKey { comment } && comment@
                == "rumble-identity"@
            &&& action is Nothing
        },
        (FirstRunState::SelectAgentKey { .. }, SetupEvent::Back) => after is SelectMethod
            && action is Nothing,
        (FirstRunState::GenerateAgentKey { .. }, SetupEvent::EditComment(comment)) => {
            &&& after == (FirstRunState::GenerateAgentKey { comment })
            &&& action is Nothing
        },
        (FirstRunState::GenerateAgentKey { comment }, SetupEvent::GenerateForAgent) => {
            &&& after == before
            &&& if agent_busy {
                action is Nothing
            } else {
                action matches SetupAction::AddKey(text) && text@ == comment@
            }
        },
        (FirstRunState::GenerateAgentKey { .. }, SetupEvent::Back) => {
            &&& after is ConnectingAgent
            &&& agent_busy ==> action is Nothing
            &&& !agent_busy ==> action is ListKeys
        },
        (FirstRunState::Error { .. }, SetupEvent::Back) => after is SelectMethod
            && action is Nothing,
        _ => after == before && action is Nothing,
    }
}

fn copy_info(info: &KeyInfo) -> (copy: KeyInfo)
    ensures
        copy@ == info@,
{
    KeyInfo {
        fingerprint: info.fingerprint.clone(),
        comment: info.comment.clone(),
        public_key: info.public_key,
    }
}

fn from_passwords(
    password: String,
    password_confirm: String,
    error: Option<String>,
    agent_busy: bool,
    event: SetupEvent,
) -> (step: (FirstRunState, SetupAction))
    ensures
        is_setup_step(
            (FirstRunState::GenerateLocal { password, password_confirm, error }),
            agent_busy,
            event,
            step.0,
            step.1,
        ),
{
    match event {
        SetupEvent::EditPasswords { password: pw, password_confirm: confirm } => (
            FirstRunState::GenerateLocal { password: pw, password_confirm: confirm, error },
            SetupAction::Nothing,
        ),
        SetupEvent::GenerateLocal => {
            let action = if password.as_str().is_empty() {
                SetupAction::Generate(None)
            } else if same_text(password.as_str(), password_confirm.as_str()) {
                SetupAction::Generate(Some(password.clone()))
            } else {
                SetupAction::Nothing
            };
            (FirstRunState::GenerateLocal { password, password_confirm, error }, action)
        },
        SetupEvent::Back => (FirstRunState::SelectMethod, SetupAction::Nothing),
        _ => (
            FirstRunState::GenerateLocal { password, password_confirm, error },
            SetupAction::Nothing,
        ),
    }
}

fn from_agent_keys(
    keys: Vec<KeyInfo>,
    selected: Option<usize>,
    error: Option<String>,
    agent_busy: bool,
    event: SetupEvent,
) -> (step: (FirstRunState, SetupAction))
    ensures
        is_setup_step(
            (FirstRunState::SelectAgentKey { keys, selected, error }),
            agent_busy,
            event,
            step.0,
            step.1,
        ),
{
    match event {
        SetupEvent::PickKey(index) => {
            let now: Option<usize> = if index < keys.len() {
                Some(index)
            } else {
                selected
            };
            (
                FirstRunState::SelectAgentKey { keys, selected: now, error },
                SetupAction::Nothing,
            )
        },
        SetupEvent::UseSelected => {
            let action = match selected {
                Some(index) => if index < keys.len() {
                    SetupAction::Select(copy_info(&keys[index]))
                } else {
                    SetupAction::Nothing
                },
                None => SetupAction::Nothing,
            };
            (FirstRunState::SelectAgentKey { keys, selected, error }, action)
        },
        SetupEvent::NewAgentKey => (
            FirstRunState::GenerateAgentKey { comment: "rumble-identity".to_owned() },
            SetupAction::Nothing,
        ),
        SetupEvent::Back => (FirstRunState::SelectMethod, SetupAction::Nothing),
        _ => (FirstRunState::SelectAgentKey { keys, selected, error }, SetupAction::Nothing),
    }
}

fn from_comment(comment: String, agent_busy: bool, event: SetupEvent) -> (step: (
    FirstRunState,
    SetupAction,
))
    ensures
        is_setup_step(
            (FirstRunState::GenerateAgentKey { comment }),
            agent_busy,
            event,
            step.0,
            step.1,
        ),
{
    match event {
        SetupEvent::EditComment(text) => (
            FirstRunState::GenerateAgentKey { comment: text },
            SetupAction::Nothing,
        ),
        SetupEvent::GenerateForAgent => {
            let action = if agent_busy {
                SetupAction::Nothing
            } else {
                SetupAction::AddKey(comment.clone())
            };
            (FirstRunState::GenerateAgentKey { comment }, action)
        },
        SetupEvent::Back => (
            FirstRunState::ConnectingAgent,
            if agent_busy {
                SetupAction::Nothing
            } else {
                SetupAction::ListKeys
            },
        ),
        _ => (FirstRunState::GenerateAgentKey { comment }, SetupAction::Nothing),
    }
}

/// What an event makes of the setup, and what is to be done.
pub fn setup_step(state: FirstRunState, agent_busy: bool, event: SetupEvent) -> (step: (
    FirstRunState,
    SetupAction,
))
    ensures
        is_setup_step(state, agent_busy, event, step.0, step.1),
{
    match state {
        FirstRunState::SelectMethod => match event {
            SetupEvent::ChooseLocal => (
                FirstRunState::GenerateLocal {
                    password: "".to_owned(),
                    password_confirm: "".to_owned(),
                    error: None,
                },
                SetupAction::Nothing,
            ),
            SetupEvent::ChooseAgent { available } => if available {
                (
                    FirstRunState::ConnectingAgent,
                    if agent_busy {
                        SetupAction::Nothing
                    } else {
                        SetupAction::ListKeys
                    },
                )
            } else {
                (FirstRunState::SelectMethod, SetupAction::Nothing)
            },
            _ => (FirstRunState::SelectMethod, SetupAction::Nothing),
        },
        FirstRunState::GenerateLocal { password, password_confirm, error } => from_passwords(
            password,
            password_confirm,
            error,
            agent_busy,
            event,
        ),
        FirstRunState::SelectAgentKey { keys, selected, error } => from_agent_keys(
            keys,
            selected,
            error,
            agent_busy,
            event,
        ),
        FirstRunState::GenerateAgentKey { comment } => from_comment(comment, agent_busy, event),
        FirstRunState::ConnectingAgent => match event {
            SetupEvent::Back => (FirstRunState::SelectMethod, SetupAction::Nothing),
            _ => (FirstRunState::ConnectingAgent, SetupAction::Nothing),
        },
        FirstRunState::Error { message } => match event {
            SetupEvent::Back => (FirstRunState::SelectMethod, SetupAction::Nothing),
            _ => (FirstRunState::Error { message }, SetupAction::Nothing),
        },
        FirstRunState::NotNeeded => (FirstRunState::NotNeeded, SetupAction::Nothing),
        FirstRunState::Complete => (FirstRunState::Complete, SetupAction::Nothing),
    }
}

/// What the agent is busy with after an action.
pub open spec fn busy_after(busy: Option<AgentOp>, action: SetupAction) -> Option<AgentOp> {
    match action {
        SetupAction::ListKeys => Some(AgentOp::Connect),
        SetupAction::AddKey(_) => Some(AgentOp::AddKey),
        _ => busy,
    }
}

/// What the agent answered.
#[derive(Debug)]
pub enum AgentReply {
    /// The keys it has.
    Keys(Vec<KeyInfo>),
    /// It has taken the new key, and the configuration was written to disk or was not.
    Added { info: KeyInfo, saved: Result<(), String> },
    /// It refused, or was not to be reached.
    Failed(String),
    /// Asking it broke off.
    Panicked(String),
}

/// Whether `after` is the screen that an answer of the agent leads to. An answer that
/// does not belong to what was asked changes nothing.
pub open spec fn is_answered(
    before: FirstRunState,
    asked: AgentOp,
    reply: AgentReply,
    after: FirstRunState,
) -> bool {
    match (asked, reply) {
        (AgentOp::Connect, AgentReply::Keys(keys)) => after == (FirstRunState::SelectAgentKey {
            keys,
            selected: None,
            error: None,
        }),
        (AgentOp::Connect, AgentReply::Failed(error)) => after matches FirstRunState::Error {
            message,
        } && message@ == "Failed to connect to SSH agent: "@ + error@,
        (AgentOp::AddKey, AgentReply::Added { saved, .. }) => match saved {
            Ok(_) => after is Complete,
            Err(error) => after matches FirstRunState::Error { message } && message@
                == "Failed to save key config: "@ + error@,
        },
        (AgentOp::AddKey, AgentReply::Failed(error)) => after matches FirstRunState::Error {
            message,
        } && message@ == "Failed to add key to agent: "@ + error@,
        (_, AgentReply::Panicked(error)) => after matches FirstRunState::Error { message }
            && message@ == "Agent operation panicked: "@ + error@,
        _ => after == before,
    }
}

/// The keys once one of the agent was selected.
pub open spec fn agent_keys(info: InfoData) -> KeyState {
    KeyState {
        config: Some(
            ConfigData {
                source: SourceData::SshAgent {
                    fingerprint: info.fingerprint,
                    comment: info.comment,
                },
                public_key_hex: crate::encoding::hex_text(info.public_key),
            },
        ),
        cached: None,
    }
}

/// What the user is told of an answer of the agent.
pub open spec fn answer_commands(asked: AgentOp, reply: AgentReply) -> Seq<CommandData> {
    match (asked, reply) {
        (AgentOp::AddKey, AgentReply::Added { info, saved: Ok(_) }) => seq![
            CommandData::LocalMessage {
                text: "Added new key to SSH agent: "@ + info@.fingerprint,
            },
        ],
        _ => Seq::empty(),
    }
}

fn error_screen(prefix: &str, error: &String) -> (state: FirstRunState)
    ensures
        state matches FirstRunState::Error { message } && message@ == prefix@ + error@,
{
    FirstRunState::Error { message: joined(prefix, error.as_str()) }
}

/// What an answer of the agent makes of the setup, and what the user is told.
fn agent_step(state: FirstRunState, asked: AgentOp, reply: AgentReply) -> (step: (
    FirstRunState,
    Commands,
))
    ensures
        is_answered(state, asked, reply, step.0),
        step.1@ == answer_commands(asked, reply),
{
    let mut commands = Commands::new();
    match (asked, reply) {
        (AgentOp::Connect, AgentReply::Keys(keys)) => (
            FirstRunState::SelectAgentKey { keys, selected: None, error: None },
            commands,
        ),
        (AgentOp::Connect, AgentReply::Failed(error)) => (
            error_screen("Failed to connect to SSH agent: ", &error),
            commands,
        ),
        (AgentOp::AddKey, AgentReply::Added { info, saved }) => match saved {
            Ok(_) => {
                commands.say(joined("Added new key to SSH agent: ", info.fingerprint.as_str()));
                assert(commands@ =~= answer_commands(asked, reply));
                (FirstRunState::Complete, commands)
            },
            Err(error) => (error_screen("Failed to save key config: ", &error), commands),
        },
        (AgentOp::AddKey, AgentReply::Failed(error)) => (
            error_screen("Failed to add key to agent: ", &error),
            commands,
        ),
        (_, AgentReply::Panicked(error)) => (
            error_screen("Agent operation panicked: ", &error),
            commands,
        ),
        _ => (state, commands),
    }
}

impl RumbleApp {
    /// Handles what the user does in the setup.
    pub fn handle_setup(&mut self, event: SetupEvent) -> (action: SetupAction)
        ensures
            is_setup_step(
                old(self).first_run_state,
                old(self).pending_agent_op is Some,
                event,
                final(self).first_run_state,
                action,
            ),
            *final(self) == (RumbleApp {
                first_run_state: final(self).first_run_state,
                pending_agent_op: busy_after(old(self).pending_agent_op, action),
                ..*old(self)
            }),
    {
        let busy = self.pending_agent_op.is_some();
        let mut state = FirstRunState::NotNeeded;
        core::mem::swap(&mut self.first_run_state, &mut state);
        let (after, action) = setup_step(state, busy, event);
        self.first_run_state = after;
        match &action {
            SetupAction::ListKeys => {
                self.pending_agent_op = Some(AgentOp::Connect);
            },
            SetupAction::AddKey(_) => {
                self.pending_agent_op = Some(AgentOp::AddKey);
            },
            _ => {},
        }
        action
    }

    /// Handles an answer of the agent, which waits until the setup is shown. The key that it
    /// has taken was selected before the configuration was written to disk.
    pub fn handle_agent_reply(&mut self, reply: AgentReply) -> (commands: Commands)
        ensures
            match old(self).pending_agent_op {
                Some(asked) if is_shown(old(self).first_run_state) => {
                    &&& is_answered(
                        old(self).first_run_state,
                        asked,
                        reply,
                        final(self).first_run_state,
                    )
                    &&& commands@ == answer_commands(asked, reply)
                    &&& *final(self) == (RumbleApp {
                        first_run_state: final(self).first_run_state,
                        pending_agent_op: None,
                        ..*old(self)
                    })
                },
                _ => *final(self) == *old(self) && commands@ == Seq::<CommandData>::empty(),
            },
    {
        if !self.first_run_state.shown() {
            return Commands::new();
        }
        match self.pending_agent_op {
            Some(asked) => {
                let mut state = FirstRunState::NotNeeded;
                core::mem::swap(&mut self.first_run_state, &mut state);
                let (after, commands) = agent_step(state, asked, reply);
                self.first_run_state = after;
                self.pending_agent_op = None;
                commands
            },
            None => Commands::new(),
        }
    }

    /// Generates a key on this computer. The configuration is then to be written to disk.
    pub fn generate_identity(&mut self, password: Option<&str>) -> (result: Result<
        KeyInfo,
        KeyError,
    >)
        ensures
            ({
                let protected = password matches Some(pw) && pw@.len() > 0;
                let keys = final(self).key_manager@;
                let seed = keys.cached->0;
                &&& result is Ok <==> !protected || vstd::utf8::encode_utf8(password->0@).len()
                    <= 0xFFFF_FFFF
                &&& result matches Ok(info) ==> {
                    &&& keys.cached is Some
                    &&& optional_seed(final(self).signing_key) == keys.cached
                    &&& info@ == info_of(
                        crate::crypto::ed25519_public_key(seed),
                        "Rumble Identity"@,
                    )
                    &&& !protected ==> keys == plaintext_keys(seed)
                    &&& protected ==> is_encrypted_keys(keys, seed, password->0@)
                }
                &&& result is Err ==> *final(self) == *old(self)
                &&& *final(self) == (RumbleApp {
                    key_manager: final(self).key_manager,
                    signing_key: final(self).signing_key,
                    ..*old(self)
                })
            }),
    {
        let result = self.key_manager.generate_local_key(password);
        if result.is_ok() {
            self.signing_key = self.key_manager.signing_key();
        }
        result
    }

    /// Ends the generation of a key: it was generated and written to disk, and has this
    /// fingerprint, or something failed.
    pub fn finish_generation(
        &mut self,
        password: Option<String>,
        outcome: &Result<String, String>,
    ) -> (commands: Commands)
        ensures
            match *outcome {
                Ok(fingerprint) => {
                    &&& final(self).first_run_state is Complete
                    &&& commands@ == seq![
                        CommandData::LocalMessage {
                            text: "Identity key generated: "@ + fingerprint@,
                        },
                    ]
                },
                Err(message) => {
                    &&& final(self).first_run_state matches FirstRunState::GenerateLocal {
                        password: pw,
                        password_confirm,
                        error,
                    } && pw@ == entered(password) && password_confirm@ == entered(password)
                        && optional_text(error) == Some("Failed to generate key: "@ + message@)
                    &&& commands@ == Seq::<CommandData>::empty()
                },
            },
            *final(self) == (RumbleApp {
                first_run_state: final(self).first_run_state,
                ..*old(self)
            }),
    {
        let mut commands = Commands::new();
        match outcome {
            Ok(fingerprint) => {
                self.first_run_state = FirstRunState::Complete;
                commands.say(joined("Identity key generated: ", fingerprint.as_str()));
                assert(commands@ =~= seq![
                    CommandData::LocalMessage { text: "Identity key generated: "@ + fingerprint@ },
                ]);
            },
            Err(message) => {
                let text = match password {
                    Some(pw) => pw,
                    None => "".to_owned(),
                };
                self.first_run_state =
                FirstRunState::GenerateLocal {
                    password: text.clone(),
                    password_confirm: text,
                    error: Some(joined("Failed to generate key: ", message.as_str())),
                };
            },
        }
        commands
    }

    /// Uses a key of the agent. The configuration is then to be written to disk.
    pub fn select_agent_identity(&mut self, info: &KeyInfo)
        ensures
            final(self).key_manager@ == agent_keys(info@),
            *final(self) == (RumbleApp { key_manager: final(self).key_manager, ..*old(self) }),
    {
        self.key_manager.select_agent_key(info);
    }

    /// Ends the choice of a key of the agent: it was written to disk, or was not.
    pub fn finish_selection(&mut self, info: &KeyInfo, outcome: &Result<(), String>) -> (commands:
        Commands)
        ensures
            match *outcome {
                Ok(_) => {
                    &&& final(self).first_run_state is Complete
                    &&& final(self).signing_key is None
                    &&& commands@ == seq![
                        CommandData::LocalMessage {
                            text: "Using SSH agent key: "@ + info@.comment + " ("@
                                + info@.fingerprint + ")"@,
                        },
                    ]
                },
                Err(error) => {
                    &&& final(self).first_run_state matches FirstRunState::Error { message }
                        && message@ == "Failed to save key config: "@ + error@
                    &&& final(self).signing_key == old(self).signing_key
                    &&& commands@ == Seq::<CommandData>::empty()
                },
            },
            *final(self) == (RumbleApp {
                first_run_state: final(self).first_run_state,
                signing_key: final(self).signing_key,
                ..*old(self)
            }),
    {
        let mut commands = Commands::new();
        match outcome {
            Ok(_) => {
                self.signing_key = None;
                self.first_run_state = FirstRunState::Complete;
                let mut text = joined3("Using SSH agent key: ", info.comment.as_str(), " (");
                text.push_str(info.fingerprint.as_str());
                text.push_str(")");
                commands.say(text);
                assert(commands@ =~= seq![
                    CommandData::LocalMessage {
                        text: "Using SSH agent key: "@ + info@.comment + " ("@ + info@.fingerprint
                            + ")"@,
                    },
                ]);
            },
            Err(error) => {
                self.first_run_state = error_screen("Failed to save key config: ", error);
            },
        }
        commands
    }

    /// Starts the setup anew, from the settings.
    pub fn configure_identity(&mut self)
        ensures
            *final(self) == (RumbleApp {
                first_run_state: FirstRunState::SelectMethod,
                ..*old(self)
            }),
    {
        self.first_run_state = FirstRunState::SelectMethod;
    }
}

/// What was entered as a password: nothing, where there was none.
pub open spec fn entered(password: Option<String>) -> Seq<char> {
    match password {
        Some(text) => text@,
        None => ""@,
    }
}

/// A key is generated with a password only where it was entered twice the same.
pub proof fn no_key_under_a_mistyped_password(
    before: FirstRunState,
    agent_busy: bool,
    event: SetupEvent,
    after: FirstRunState,
    action: SetupAction,
)
    requires
        is_setup_step(before, agent_busy, event, after, action),
    ensures
        action matches SetupAction::Generate(Some(pw)) ==> (before
            matches FirstRunState::GenerateLocal { password, password_confirm, .. } && pw@
            == password@ && pw@ == password_confirm@),
{
}

/// The setup is over only through a key: no step of the user ends it.
pub proof fn setup_ends_with_a_key(
    before: FirstRunState,
    agent_busy: bool,
    event: SetupEvent,
    after: FirstRunState,
    action: SetupAction,
)
    requires
        is_setup_step(before, agent_busy, event, after, action),
        !(before is Complete),
        !(before is NotNeeded),
    ensures
        !(after is Complete),
        !(after is NotNeeded),
{
}

/// The agent is asked one thing at a time.
pub proof fn agent_is_asked_one_thing_at_a_time(
    before: FirstRunState,
    event: SetupEvent,
    after: FirstRunState,
    action: SetupAction,
)
    requires
        is_setup_step(before, true, event, after, action),
    ensures
        !(action is ListKeys),
        !(action is AddKey),
{
}

/// What was typed as a password protects the key: typed twice the same, the key is generated
/// under it; left empty, without one; typed differently, not at all.
pub proof fn typed_passwords_are_used(
    before: FirstRunState,
    typed: FirstRunState,
    after: FirstRunState,
    password: String,
    password_confirm: String,
    first: SetupAction,
    action: SetupAction,
)
    requires
        before is GenerateLocal,
        is_setup_step(
            before,
            false,
            (SetupEvent::EditPasswords { password, password_confirm }),
            typed,
            first,
        ),
        is_setup_step(typed, false, SetupEvent::GenerateLocal, after, action),
    ensures
        first is Nothing,
        after == typed,
        password@.len() == 0 ==> action == SetupAction::Generate(None),
        password@.len() > 0 && password@ == password_confirm@ ==> (action
            matches SetupAction::Generate(Some(pw)) && pw@ == password@),
        password@.len() > 0 && password@ != password_confirm@ ==> action is Nothing,
{
}

/// The key that the user picks from the agent's list is the one that is used.
pub proof fn picked_keys_are_used(
    before: FirstRunState,
    keys: Vec<KeyInfo>,
    index: usize,
    picked: FirstRunState,
    after: FirstRunState,
    first: SetupAction,
    action: SetupAction,
)
    requires
        is_answered(FirstRunState::ConnectingAgent, AgentOp::Connect, AgentReply::Keys(keys), before),
        index < keys@.len(),
        is_setup_step(before, false, SetupEvent::PickKey(index), picked, first),
        is_setup_step(picked, false, SetupEvent::UseSelected, after, action),
    ensures
        first is Nothing,
        action matches SetupAction::Select(key) && key@ == keys@[index as int]@,
{
}

/// A new key for the agent gets the comment that was typed for it, and until something was
/// typed a name that says what it is for.
pub proof fn new_agent_keys_have_their_comment(
    before: FirstRunState,
    offered: FirstRunState,
    typed: FirstRunState,
    after: FirstRunState,
    comment: String,
    first: SetupAction,
    second: SetupAction,
    action: SetupAction,
)
    requires
        before is SelectAgentKey,
        is_setup_step(before, false, SetupEvent::NewAgentKey, offered, first),
        is_setup_step(offered, false, SetupEvent::EditComment(comment), typed, second),
        is_setup_step(typed, false, SetupEvent::GenerateForAgent, after, action),
    ensures
        first is Nothing && second is Nothing,
        offered matches FirstRunState::GenerateAgentKey { comment: given } && given@
            == "rumble-identity"@,
        action matches SetupAction::AddKey(text) && text@ == comment@,
{
}

/// The agent is asked for its keys where the user wants one of them, and not where it is not
/// there; from every screen there is a way back to the choice.
pub proof fn the_choice_leads_on_and_back(
    before: FirstRunState,
    event: SetupEvent,
    after: FirstRunState,
    action: SetupAction,
)
    requires
        is_setup_step(before, false, event, after, action),
    ensures
        before is SelectMethod && event == (SetupEvent::ChooseAgent { available: true })
            ==> action is ListKeys && after is ConnectingAgent,
        before is SelectMethod && event == (SetupEvent::ChooseAgent { available: false })
            ==> action is Nothing && after == before,
        before is SelectMethod && event is ChooseLocal ==> after is GenerateLocal,
        event is Back && (before is GenerateLocal || before is ConnectingAgent || before
            is SelectAgentKey || before is Error) ==> after is SelectMethod && action is Nothing,
        event is Back && before is GenerateAgentKey ==> after is ConnectingAgent && action
            is ListKeys,
{
}

/// What went wrong with the agent is shown, and only a key that it took and that was taken
/// down ends the setup.
pub proof fn answers_of_the_agent_count(
    before: FirstRunState,
    asked: AgentOp,
    reply: AgentReply,
    after: FirstRunState,
)
    requires
        is_answered(before, asked, reply, after),
        before is ConnectingAgent || before is GenerateAgentKey,
    ensures
        after is Complete <==> (asked is AddKey && (reply matches AgentReply::Added { saved, .. }
            && saved is Ok)),
        reply is Failed || reply is Panicked ==> after is Error,
        after matches FirstRunState::SelectAgentKey { keys, selected, .. } ==> (reply
            matches AgentReply::Keys(given) && given == keys && selected is None),
{
}

} // verus!
