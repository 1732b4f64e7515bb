//! The provider and its model: what the host sees of the assistant.

use vstd::prelude::*;
use vstd::string::*;
use crate::auth::{auth_step, lookup_of, outcome_of, AuthenticateError, ConfigFile, State};
use crate::event::{CompletionErrorView, LanguageModelCompletionError, LanguageModelProviderName, PROVIDER_NAME};
use crate::invocation::{invocation_of, Invocation};
use crate::request::{prompt_text, serialize_prompt, LanguageModelRequest, MessageView};
use crate::settings::{CodexCliSettings, CodexCliSettingsView};
use crate::stream::{Launch, LaunchView};

verus! {

/// The identifier of a provider.
#[derive(Clone, Debug, PartialEq, Eq)]
pub struct LanguageModelProviderId(pub String);

impl View for LanguageModelProviderId {
    type V = Seq<char>;

    open spec fn view(&self) -> Seq<char> {
        self.0@
    }
}

/// The identifier of a model.
#[derive(Clone, Debug, PartialEq, Eq)]
pub struct LanguageModelId(pub String);

impl View for LanguageModelId {
    type V = Seq<char>;

    open spec fn view(&self) -> Seq<char> {
        self.0@
    }
}

/// The display name of a model.
#[derive(Clone, Debug, PartialEq, Eq)]
pub struct LanguageModelName(pub String);

impl View for LanguageModelName {
    type V = Seq<char>;

    open spec fn view(&self) -> Seq<char> {
        self.0@
    }
}

/// The icon by which the host shows a provider.
#[derive(Clone, Copy, Debug, PartialEq, Eq)]
pub enum IconName {
    Ai,
}

/// How the model may choose among the tools of a request.
#[derive(Clone, Copy, Debug, PartialEq, Eq)]
pub enum LanguageModelToolChoice {
    /// The model decides whether to use a tool.
    Auto,
    /// The model must use some tool.
    Any,
    /// The model must not use a tool.
    NoTool,
}

/// The identifier of this provider.
pub const PROVIDER_ID: &'static str = "codex-cli";

/// The name by which the binary knows the one model of the provider.
pub const DEFAULT_MODEL: &'static str = "default";

/// The reason of a call that fails because the provider state is gone.
pub const STATE_DROPPED: &'static str = "App state dropped";

/// The decision on a call: the launch of the child, or the failure.
///
/// `state` is the secret that the provider holds, inside `Some` where the
/// provider state still exists. Without a secret the call fails with
/// `NoApiKey` and nothing is launched.
pub open spec fn completion_of(
    model: ModelView,
    request: Seq<MessageView>,
    state: Option<Option<Seq<char>>>,
) -> Result<LaunchView, CompletionErrorView> {
    match state {
        None => Err(CompletionErrorView::Other(STATE_DROPPED@)),
        Some(None) => Err(CompletionErrorView::NoApiKey { provider: PROVIDER_NAME@ }),
        Some(Some(api_key)) => Ok(
            LaunchView {
                invocation: invocation_of(model.model, model.settings, api_key),
                prompt: prompt_text(request),
            },
        ),
    }
}

/// The decision, with its texts as sequences of characters.
pub open spec fn decision_of(result: Result<Launch, LanguageModelCompletionError>) -> Result<
    LaunchView,
    CompletionErrorView,
> {
    match result {
        Ok(launch) => Ok(launch@),
        Err(error) => Err(error@),
    }
}

/// The secret of a provider state that may be gone.
pub open spec fn secret_of(state: Option<&State>) -> Option<Option<Seq<char>>> {
    match state {
        Some(state) => Some(state@),
        None => None,
    }
}

/// The provider: it owns the credentials and makes the models.
#[derive(Debug)]
pub struct CodexCliLanguageModelProvider {
    state: State,
}

impl View for CodexCliLanguageModelProvider {
    type V = Option<Seq<char>>;

    /// The secret that the provider holds.
    closed spec fn view(&self) -> Option<Seq<char>> {
        self.state@
    }
}

/// The model that the provider offers.
#[derive(Debug)]
pub struct CodexCliLanguageModel {
    id: LanguageModelId,
    name: LanguageModelName,
    model: String,
    settings: CodexCliSettings,
}

/// What a model holds.
pub struct ModelView {
    pub id: Seq<char>,
    pub name: Seq<char>,
    pub model: Seq<char>,
    pub settings: CodexCliSettingsView,
}

impl View for CodexCliLanguageModel {
    type V = ModelView;

    closed spec fn view(&self) -> ModelView {
        ModelView {
            id: self.id@,
            name: self.name@,
            model: self.model@,
            settings: self.settings@,
        }
    }
}

/// The one model of the provider, under `settings`.
pub open spec fn model_of(settings: CodexCliSettingsView) -> ModelView {
    ModelView { id: PROVIDER_ID@, name: PROVIDER_NAME@, model: DEFAULT_MODEL@, settings }
}

impl CodexCliLanguageModelProvider {
    /// A provider that holds no secret.
    pub fn new() -> (provider: CodexCliLanguageModelProvider)
        ensures
            provider@ is None,
    {
        CodexCliLanguageModelProvider { state: State::new() }
    }

    /// Makes the model of the provider, which runs under `settings`.
    pub fn create_model(&self, settings: CodexCliSettings) -> (model: CodexCliLanguageModel)
        ensures
            model@ == model_of(settings@),
    {
        CodexCliLanguageModel {
            id: LanguageModelId(PROVIDER_ID.to_owned()),
            name: LanguageModelName(PROVIDER_NAME.to_owned()),
            model: DEFAULT_MODEL.to_owned(),
            settings,
        }
    }

    /// The credentials, for those who watch them.
    pub fn observable_entity(&self) -> (state: Option<&State>)
        ensures
            secret_of(state) == Some(self@),
    {
        Some(&self.state)
    }

    /// The identifier under which the host registers the provider.
    pub fn id(&self) -> (id: LanguageModelProviderId)
        ensures
            id@ == PROVIDER_ID@,
    {
        LanguageModelProviderId(PROVIDER_ID.to_owned())
    }

    /// The name under which the host shows the provider.
    pub fn name(&self) -> (name: LanguageModelProviderName)
        ensures
            name@ == PROVIDER_NAME@,
    {
        LanguageModelProviderName(PROVIDER_NAME.to_owned())
    }

    /// The icon with which the host shows the provider.
    pub fn icon(&self) -> (icon: IconName)
        ensures
            icon == IconName::Ai,
    {
        IconName::Ai
    }

    /// The model to use where the host has no preference.
    pub fn default_model(&self, settings: CodexCliSettings) -> (model: Option<CodexCliLanguageModel>)
        ensures
            model is Some,
            model->0@ == model_of(settings@),
    {
        Some(self.create_model(settings))
    }

    /// The model to use where speed matters most.
    pub fn default_fast_model(&self, settings: CodexCliSettings) -> (model: Option<
        CodexCliLanguageModel,
    >)
        ensures
            model is Some,
            model->0@ == model_of(settings@),
    {
        Some(self.create_model(settings))
    }

    /// All models of the provider: there is one.
    pub fn provided_models(&self, settings: CodexCliSettings) -> (models: Vec<CodexCliLanguageModel>)
        ensures
            models@.len() == 1,
            models@[0]@ == model_of(settings@),
    {
        let mut models = Vec::new();
        models.push(self.create_model(settings));
        models
    }

    /// True exactly when a secret is held.
    pub fn is_authenticated(&self) -> (held: bool)
        ensures
            held == (self@ is Some),
    {
        self.state.is_authenticated()
    }

    /// Authenticates from what was read of the configuration file.
    pub fn authenticate(&mut self, file: ConfigFile) -> (result: Result<(), AuthenticateError>)
        ensures
            (final(self)@, outcome_of(result)) == auth_step(old(self)@, lookup_of(file@)),
    {
        self.state.authenticate(file)
    }

    /// Forgets the secret. This always succeeds.
    pub fn reset_credentials(&mut self) -> (result: Result<(), AuthenticateError>)
        ensures
            result is Ok,
            final(self)@ is None,
    {
        self.state.reset();
        Ok(())
    }
}

impl CodexCliLanguageModel {
    /// The identifier of the model.
    pub fn id(&self) -> (id: LanguageModelId)
        ensures
            id@ == self@.id,
    {
        LanguageModelId(self.id.0.clone())
    }

    /// The name under which the host shows the model.
    pub fn name(&self) -> (name: LanguageModelName)
        ensures
            name@ == self@.name,
    {
        LanguageModelName(self.name.0.clone())
    }

    /// The identifier of the provider of the model.
    pub fn provider_id(&self) -> (id: LanguageModelProviderId)
        ensures
            id@ == PROVIDER_ID@,
    {
        LanguageModelProviderId(PROVIDER_ID.to_owned())
    }

    /// The name of the provider of the model.
    pub fn provider_name(&self) -> (name: LanguageModelProviderName)
        ensures
            name@ == PROVIDER_NAME@,
    {
        LanguageModelProviderName(PROVIDER_NAME.to_owned())
    }

    /// The name under which usage of the model is counted.
    pub fn telemetry_id(&self) -> (id: String)
        ensures
            id@ == PROVIDER_ID@ + "/"@ + self@.model,
    {
        let mut id = PROVIDER_ID.to_owned();
        id.append("/");
        id.append(self.model.as_str());
        id
    }

    /// The model takes no images.
    pub fn supports_images(&self) -> (supported: bool)
        ensures
            !supported,
    {
        false
    }

    /// The model can use tools.
    pub fn supports_tools(&self) -> (supported: bool)
        ensures
            supported,
    {
        true
    }

    /// The model can be left to choose a tool, or be kept from using one. It
    /// cannot be made to use one.
    pub fn supports_tool_choice(&self, choice: LanguageModelToolChoice) -> (supported: bool)
        ensures
            supported == (choice is Auto || choice is NoTool),
    {
        match choice {
            LanguageModelToolChoice::Auto => true,
            LanguageModelToolChoice::Any => false,
            LanguageModelToolChoice::NoTool => true,
        }
    }

    /// The size of the context is not known here: the binary manages it.
    pub fn max_token_count(&self) -> (count: u64)
        ensures
            count == 0,
    {
        0
    }

    /// There is no tokenizer here: the count is always zero.
    pub fn count_tokens(&self, request: &LanguageModelRequest) -> (count: Result<
        u64,
        LanguageModelCompletionError,
    >)
        ensures
            count == Ok::<u64, LanguageModelCompletionError>(0),
    {
        Ok(0)
    }

    /// Decides on a completion call: what to launch, or why the call fails.
    ///
    /// `state` is the state of the provider, or `None` where it is gone. The
    /// call is refused before anything is launched where no secret is held.
    pub fn stream_completion(&self, request: LanguageModelRequest, state: Option<&State>) -> (result:
        Result<Launch, LanguageModelCompletionError>)
        ensures
            decision_of(result) == completion_of(self@, request@, secret_of(state)),
    {
        let api_key = match state {
            Some(state) => match state.api_key() {
                Some(api_key) => api_key,
                None => {
                    return Err(
                        LanguageModelCompletionError::NoApiKey {
                            provider: LanguageModelProviderName(PROVIDER_NAME.to_owned()),
                        },
                    );
                },
            },
            None => {
                return Err(LanguageModelCompletionError::Other(STATE_DROPPED.to_owned()));
            },
        };
        let invocation = Invocation::build(self.model.as_str(), &self.settings, api_key.as_str());
        let prompt = serialize_prompt(&request);
        Ok(Launch { invocation, prompt })
    }
}

/// A call made while no secret is held fails with `NoApiKey`, whatever the
/// request and the model: there is nothing to launch.
pub proof fn lemma_unauthenticated_call_is_refused(model: ModelView, request: Seq<MessageView>)
    ensures
        completion_of(model, request, Some(None)) == Err::<LaunchView, CompletionErrorView>(
            CompletionErrorView::NoApiKey { provider: PROVIDER_NAME@ },
        ),
{
}

} // verus!
