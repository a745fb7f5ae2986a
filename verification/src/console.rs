//! Decisions of the console front ends: which provider serves the configured model, how the
//! command line reads, and what the console does with each event of a turn.

use vstd::prelude::*;

use crate::core_types::{ApprovalDecision, ChatContent, ChatRole, ModelId, ModelIdParseError, is_model_id_text};
use crate::core_types::{DangerLevel, ToolKind};
use crate::filesystem::{is_virtual_path, VirtualPath, VirtualPathError};
use crate::sink::AgentEvent;
use crate::text::{owned, push_str, same_text};
use crate::tools::{BuiltinToolRegistry, EchoTool, ToolPermissionMode};

verus! {

/// Models of the DeepSeek provider.
#[derive(Debug, Clone, Copy, PartialEq, Eq, Structural)]
pub enum DeepSeekModel {
    /// `deepseek-v4-flash`.
    V4Flash,
    /// `deepseek-v4-pro`.
    V4Pro,
}

/// The provider that serves a model.
#[derive(Debug, Clone, Copy, PartialEq, Eq, Structural)]
pub enum ProviderChoice {
    /// An OpenAI-compatible endpoint.
    OpenAi,
    /// The DeepSeek endpoint with one of its models.
    DeepSeek(DeepSeekModel),
}

/// Why no provider serves the configured model.
#[derive(Debug)]
pub enum ProviderSelectionError {
    /// The provider is unknown.
    UnsupportedProvider { provider: String },
    /// The provider does not offer the model.
    UnsupportedModel { model: ModelId },
    /// The provider has no configuration.
    MissingProviderConfiguration { provider: &'static str },
}

/// The DeepSeek model named `name`.
pub open spec fn deepseek_model_named(name: Seq<char>) -> Option<DeepSeekModel> {
    if name == "deepseek-v4-flash"@ {
        Some(DeepSeekModel::V4Flash)
    } else if name == "deepseek-v4-pro"@ {
        Some(DeepSeekModel::V4Pro)
    } else {
        None
    }
}

/// The DeepSeek model that `model` names, if it names one.
pub fn deepseek_model(model: &ModelId) -> (r: Option<DeepSeekModel>)
    ensures
        r == deepseek_model_named(model.model_view()),
{
    let name = model.model_name();
    if same_text(name, "deepseek-v4-flash") {
        Some(DeepSeekModel::V4Flash)
    } else if same_text(name, "deepseek-v4-pro") {
        Some(DeepSeekModel::V4Pro)
    } else {
        None
    }
}

/// Chooses the provider of `model` among the configured ones.
pub fn select_provider(model: &ModelId, openai_configured: bool, deepseek_configured: bool) -> (r: Result<
    ProviderChoice,
    ProviderSelectionError,
>)
    ensures
        model.provider_view() == "openai"@ ==> if openai_configured {
            r == Ok::<ProviderChoice, ProviderSelectionError>(ProviderChoice::OpenAi)
        } else {
            r matches Err(ProviderSelectionError::MissingProviderConfiguration { provider }) && provider@ == "openai"@
        },
        model.provider_view() == "deepseek"@ ==> if !deepseek_configured {
            r matches Err(ProviderSelectionError::MissingProviderConfiguration { provider }) && provider@
                == "deepseek"@
        } else {
            match deepseek_model_named(model.model_view()) {
                Some(m) => r == Ok::<ProviderChoice, ProviderSelectionError>(ProviderChoice::DeepSeek(m)),
                None => r matches Err(ProviderSelectionError::UnsupportedModel { model: m }) && m@ == model@,
            }
        },
        model.provider_view() != "openai"@ && model.provider_view() != "deepseek"@ ==> (r matches Err(
            ProviderSelectionError::UnsupportedProvider { provider },
        ) && provider@ == model.provider_view()),
{
    let provider = model.provider_name();
    proof {
        reveal_strlit("openai");
        reveal_strlit("deepseek");
        assert("openai"@.len() == 6 && "deepseek"@.len() == 8);
    }
    if same_text(provider, "openai") {
        if openai_configured {
            Ok(ProviderChoice::OpenAi)
        } else {
            Err(ProviderSelectionError::MissingProviderConfiguration { provider: "openai" })
        }
    } else if same_text(provider, "deepseek") {
        if !deepseek_configured {
            return Err(ProviderSelectionError::MissingProviderConfiguration { provider: "deepseek" });
        }
        match deepseek_model(model) {
            Some(m) => Ok(ProviderChoice::DeepSeek(m)),
            None => Err(ProviderSelectionError::UnsupportedModel { model: model.clone() }),
        }
    } else {
        Err(ProviderSelectionError::UnsupportedProvider { provider: provider.to_owned() })
    }
}

/// Why a command line was refused.
#[derive(Debug)]
pub enum ArgsError {
    /// The arguments are not `--model provider:model <prompt>`.
    InvalidArguments,
    /// The model is not a `provider:model` identity.
    ModelId(ModelIdParseError),
}

/// Reads the arguments `--model provider:model <prompt>`.
pub fn parse_args(args: &Vec<String>) -> (r: Result<(ModelId, String), ArgsError>)
    ensures
        !(args@.len() == 3 && args@[0]@ == "--model"@) ==> r matches Err(ArgsError::InvalidArguments),
        args@.len() == 3 && args@[0]@ == "--model"@ ==> if is_model_id_text(args@[1]@) {
            r matches Ok((m, prompt)) && m@ == args@[1]@ && prompt == args@[2]
        } else {
            r matches Err(ArgsError::ModelId(_))
        },
{
    if args.len() != 3 || !same_text(args[0].as_str(), "--model") {
        return Err(ArgsError::InvalidArguments);
    }
    match ModelId::parse(args[1].as_str()) {
        Ok(model) => Ok((model, args[2].clone())),
        Err(e) => Err(ArgsError::ModelId(e)),
    }
}

/// The decision a console reads from a line: `approve` or `reject`; the end of input rejects.
pub fn approval_decision(trimmed_line: &str, end_of_input: bool) -> (r: Option<ApprovalDecision>)
    ensures
        trimmed_line@ == "approve"@ ==> r == Some(ApprovalDecision::Approve),
        trimmed_line@ == "reject"@ ==> r == Some(ApprovalDecision::Reject),
        trimmed_line@ != "approve"@ && trimmed_line@ != "reject"@ ==> r == (if end_of_input {
            Some(ApprovalDecision::Reject)
        } else {
            None
        }),
{
    proof {
        reveal_strlit("approve");
        reveal_strlit("reject");
        assert("approve"@.len() == 7 && "reject"@.len() == 6);
    }
    if same_text(trimmed_line, "approve") {
        Some(ApprovalDecision::Approve)
    } else if same_text(trimmed_line, "reject") {
        Some(ApprovalDecision::Reject)
    } else if end_of_input {
        Some(ApprovalDecision::Reject)
    } else {
        None
    }
}

/// What a console does with one event of a turn.
#[derive(Debug, PartialEq, Eq)]
pub enum TurnReaction {
    /// Nothing.
    Ignore,
    /// Show the assistant's text.
    ShowText(String),
    /// Show the assistant's JSON document.
    ShowJson(String),
    /// Ask the user to decide the approval request.
    AskApproval { approval_id: String },
    /// Report the failure and end the turn.
    Failed(String),
    /// Report the cancellation and end the turn.
    Cancelled,
    /// End the turn.
    Finished,
}

/// Whether `r` is what a console does with `event`: assistant messages are shown, approval
/// requests are asked, and the terminal events end the turn.
pub open spec fn reacts(event: AgentEvent, r: TurnReaction) -> bool {
    match event {
        AgentEvent::ToolApprovalRequested { approval_id, .. } => r matches TurnReaction::AskApproval {
            approval_id: a,
        } && a@ == approval_id@,
        AgentEvent::Message { message, .. } => if message.role == ChatRole::Assistant {
            match message.content {
                ChatContent::Text(t) => r matches TurnReaction::ShowText(s) && s@ == t@,
                ChatContent::Json(j) => r matches TurnReaction::ShowJson(s) && s@ == j@,
            }
        } else {
            r == TurnReaction::Ignore
        },
        AgentEvent::Failed { error_text, .. } => r matches TurnReaction::Failed(s) && s@ == error_text@,
        AgentEvent::Cancelled { .. } => r == TurnReaction::Cancelled,
        AgentEvent::Finished { .. } => r == TurnReaction::Finished,
        _ => r == TurnReaction::Ignore,
    }
}

/// What a console does with `event`: assistant messages are shown, approval requests are
/// asked, and the terminal events end the turn.
pub fn turn_reaction(event: &AgentEvent) -> (r: TurnReaction)
    ensures
        reacts(*event, r),
{
    match event {
        AgentEvent::ToolApprovalRequested { approval_id, .. } => TurnReaction::AskApproval {
            approval_id: approval_id.clone(),
        },
        AgentEvent::Message { message, .. } => if message.role == ChatRole::Assistant {
            match &message.content {
                ChatContent::Text(t) => TurnReaction::ShowText(t.clone()),
                ChatContent::Json(j) => TurnReaction::ShowJson(j.clone()),
            }
        } else {
            TurnReaction::Ignore
        },
        AgentEvent::Failed { error_text, .. } => TurnReaction::Failed(error_text.clone()),
        AgentEvent::Cancelled { .. } => TurnReaction::Cancelled,
        AgentEvent::Finished { .. } => TurnReaction::Finished,
        _ => TurnReaction::Ignore,
    }
}

/// The event stream of a turn closed before a terminal event.
#[derive(Debug, PartialEq, Eq)]
pub struct EventStreamClosed;

/// What a console reading a turn's events does when its stream yields `next`: it reacts to
/// an event, and stops after `Failed`, `Cancelled` or `Finished`; a stream that closes
/// before one of them is an error.
pub fn console_step(next: Option<&AgentEvent>) -> (r: Result<(TurnReaction, bool), EventStreamClosed>)
    ensures
        next is None ==> r == Err::<(TurnReaction, bool), EventStreamClosed>(EventStreamClosed),
        next matches Some(e) ==> (r matches Ok((reaction, ends)) && reacts(*e, reaction) && ends == (e is Failed
            || e is Cancelled || e is Finished)),
{
    match next {
        None => Err(EventStreamClosed),
        Some(event) => {
            let reaction = turn_reaction(event);
            let ends = match event {
                AgentEvent::Failed { .. } | AgentEvent::Cancelled { .. } | AgentEvent::Finished { .. } => true,
                _ => false,
            };
            Ok((reaction, ends))
        },
    }
}

/// The tools a console offers: echo, a low-danger read tool, which runs only once approved.
pub fn approval_registry() -> (r: BuiltinToolRegistry<EchoTool>)
    ensures
        r.wf(),
        r.spec_mode() == ToolPermissionMode::RequireApproval,
        r.spec_metadata() == Map::<Seq<char>, (ToolKind, DangerLevel)>::empty().insert(
            "echo"@,
            (ToolKind::Read, DangerLevel::Low),
        ),
{
    let mut registry = BuiltinToolRegistry::new(ToolPermissionMode::RequireApproval);
    let _ = registry.insert(owned("echo"), EchoTool::new(), ToolKind::Read, DangerLevel::Low);
    registry
}

/// The virtual root of the agent `agent_id`'s store: `/` followed by its identity.
pub fn agent_root(agent_id: &str) -> (r: Result<VirtualPath, VirtualPathError>)
    ensures
        match r {
            Ok(p) => p@ == "/"@ + agent_id@,
            Err(_) => !is_virtual_path("/"@ + agent_id@),
        },
{
    let mut text = owned("/");
    push_str(&mut text, agent_id);
    VirtualPath::parse(text.as_str())
}

} // verus!
