//! The provider registry: the closed set of model backends, and what each
//! one needs on the wire.

use crate::config::Config;
use crate::shell::Shell;
use vstd::prelude::*;
use vstd::string::StringExecFns;

verus! {

/// A secret that is read from the environment.
#[derive(Clone, Copy, Debug, PartialEq, Eq, Structural)]
pub enum Credential {
    /// The key of the hosted API.
    Hosted,
    /// The key of the aggregator.
    Aggregator,
}

impl Credential {
    /// The name of the environment variable that holds the secret.
    pub open spec fn variable_name(self) -> Seq<char> {
        match self {
            Credential::Hosted => "OPENAI_API_KEY"@,
            Credential::Aggregator => "OPENROUTER_API_KEY"@,
        }
    }

    /// The name of the environment variable that holds the secret.
    pub fn variable(self) -> (name: &'static str)
        ensures
            name@ == self.variable_name(),
    {
        match self {
            Credential::Hosted => "OPENAI_API_KEY",
            Credential::Aggregator => "OPENROUTER_API_KEY",
        }
    }

    /// The secret, as long as the environment holds one that is not empty.
    pub open spec fn checked(self, stored: Option<Seq<char>>) -> Result<
        Seq<char>,
        ConfigurationError,
    > {
        match stored {
            Some(key) => if key.len() > 0 {
                Ok(key)
            } else {
                Err(ConfigurationError::MissingCredential(self))
            },
            None => Err(ConfigurationError::MissingCredential(self)),
        }
    }

    /// The secret, given what the environment holds under its variable.
    /// A variable that is not set, or set to nothing, is a missing
    /// credential.
    pub fn check(self, stored: Option<String>) -> (credential: Result<String, ConfigurationError>)
        ensures
            match self.checked(text_of(stored)) {
                Ok(key) => credential matches Ok(found) && found@ == key,
                Err(error) => credential == Err::<String, ConfigurationError>(error),
            },
    {
        match stored {
            Some(key) => {
                if key.as_str().is_empty() {
                    Err(ConfigurationError::MissingCredential(self))
                } else {
                    Ok(key)
                }
            },
            None => Err(ConfigurationError::MissingCredential(self)),
        }
    }
}

/// The view of an optional text.
pub open spec fn text_of(text: Option<String>) -> Option<Seq<char>> {
    match text {
        Some(text) => Some(text@),
        None => None,
    }
}

/// Why a provider cannot be used as it is configured.
#[derive(Clone, Copy, Debug, PartialEq, Eq, Structural)]
pub enum ConfigurationError {
    /// The environment does not hold the secret that the provider needs.
    MissingCredential(Credential),
}

impl ConfigurationError {
    /// The error in words.
    pub open spec fn message_text(self) -> Seq<char> {
        match self {
            ConfigurationError::MissingCredential(Credential::Hosted) =>
                "OPENAI_API_KEY environment variable not set or invalid"@,
            ConfigurationError::MissingCredential(Credential::Aggregator) =>
                "OPENROUTER_API_KEY environment variable not set"@,
        }
    }

    /// The error in words.
    pub fn message(&self) -> (text: String)
        ensures
            text@ == self.message_text(),
    {
        match self {
            ConfigurationError::MissingCredential(Credential::Hosted) => String::from_str(
                "OPENAI_API_KEY environment variable not set or invalid",
            ),
            ConfigurationError::MissingCredential(Credential::Aggregator) => String::from_str(
                "OPENROUTER_API_KEY environment variable not set",
            ),
        }
    }
}

/// What the client of a backend reports when a call fails.
#[derive(Debug, PartialEq, Eq)]
pub enum ProviderFailure {
    /// The backend answered with an error; the text is its answer.
    ApiError(String),
    /// The call did not reach the backend; the text says why.
    RequestError(String),
}

/// A completion call that failed: which provider was called, and what its
/// client reported.
#[derive(Debug, PartialEq, Eq)]
pub struct CompletionError {
    pub provider: Model,
    pub cause: ProviderFailure,
}

/// One question to a model: the instruction, the user's words, and the
/// bounds on the answer.
#[derive(Debug, PartialEq, Eq)]
pub struct ChatExchange {
    /// The model name sent to the backend.
    pub model: String,
    /// The instruction, sent as the system message.
    pub system_prompt: String,
    /// The user's words, sent as the user message, unchanged.
    pub user_prompt: String,
    /// The most tokens the answer may have.
    pub max_tokens: i32,
    /// The sampling temperature, in tenths.
    pub temperature_tenths: u32,
}

/// Everything a completion call needs: where to send it, with which
/// secret, and what to ask.
#[derive(Debug, PartialEq, Eq)]
pub struct CompletionRequest {
    pub endpoint: String,
    pub credential: String,
    pub exchange: ChatExchange,
}

/// The sampling temperature of every completion call, in tenths.
pub const TEMPERATURE_TENTHS: u32 = 5;

/// The command in the first choice of an answer: the text of its message,
/// unless there is no choice, the choice has no message, or the text is
/// empty.
pub open spec fn first_command(choices: Seq<Option<String>>) -> Option<Seq<char>> {
    if choices.len() == 0 {
        None
    } else {
        match choices[0] {
            Some(content) => if content@.len() > 0 {
                Some(content@)
            } else {
                None
            },
            None => None,
        }
    }
}

/// A model backend, as the user selected it.
#[derive(Debug, PartialEq, Eq)]
pub enum Model {
    /// The hosted API's large model.
    OpenAiGpt4o,
    /// The hosted API's small model.
    OpenAiGpt4oMini,
    /// A model served by a local inference server, by its identifier.
    Ollama(String),
    /// A model reached through the aggregator, by its identifier.
    OpenRouter { model_name: String },
}

/// What a [`Model`] stands for.
pub enum ProviderSelection {
    HostedLargeModel,
    HostedSmallModel,
    LocalModel(Seq<char>),
    AggregatorModel(Seq<char>),
}

impl ProviderSelection {
    /// The two identifier-carrying variants hold a non-empty identifier.
    pub open spec fn well_formed(self) -> bool {
        match self {
            ProviderSelection::LocalModel(identifier) => identifier.len() > 0,
            ProviderSelection::AggregatorModel(identifier) => identifier.len() > 0,
            _ => true,
        }
    }

    /// The model name sent to the backend.
    pub open spec fn wire_name(self) -> Seq<char> {
        match self {
            ProviderSelection::HostedLargeModel => "gpt-4o"@,
            ProviderSelection::HostedSmallModel => "gpt-4o-mini"@,
            ProviderSelection::LocalModel(identifier) => identifier,
            ProviderSelection::AggregatorModel(identifier) => identifier,
        }
    }

    /// The secret that the backend asks for, if it asks for one.
    pub open spec fn credential(self) -> Option<Credential> {
        match self {
            ProviderSelection::HostedLargeModel => Some(Credential::Hosted),
            ProviderSelection::HostedSmallModel => Some(Credential::Hosted),
            ProviderSelection::LocalModel(_) => None,
            ProviderSelection::AggregatorModel(_) => Some(Credential::Aggregator),
        }
    }

    /// What is sent to the backend as the secret, given what the
    /// environment holds under the variable of [`Self::credential`]. The
    /// local backend gets a fixed word.
    pub open spec fn auth(self, stored: Option<Seq<char>>) -> Result<Seq<char>, ConfigurationError> {
        match self.credential() {
            Some(which) => which.checked(stored),
            None => Ok(LOCAL_PLACEHOLDER@),
        }
    }

    /// The base address of the backend's API.
    pub open spec fn endpoint(self) -> Seq<char> {
        match self {
            ProviderSelection::HostedLargeModel => HOSTED_ENDPOINT@,
            ProviderSelection::HostedSmallModel => HOSTED_ENDPOINT@,
            ProviderSelection::LocalModel(_) => LOCAL_ENDPOINT@,
            ProviderSelection::AggregatorModel(_) => AGGREGATOR_ENDPOINT@,
        }
    }
}

impl View for Model {
    type V = ProviderSelection;

    open spec fn view(&self) -> ProviderSelection {
        match self {
            Model::OpenAiGpt4o => ProviderSelection::HostedLargeModel,
            Model::OpenAiGpt4oMini => ProviderSelection::HostedSmallModel,
            Model::Ollama(identifier) => ProviderSelection::LocalModel(identifier@),
            Model::OpenRouter { model_name } => ProviderSelection::AggregatorModel(model_name@),
        }
    }
}

/// The base address of the hosted API.
pub const HOSTED_ENDPOINT: &'static str = "https://api.openai.com/v1/";

/// The base address of the local inference server.
pub const LOCAL_ENDPOINT: &'static str = "http://localhost:11434/v1/";

/// The base address of the aggregator's API.
pub const AGGREGATOR_ENDPOINT: &'static str = "https://openrouter.ai/api/v1";

/// What is sent to the local inference server in place of a secret.
pub const LOCAL_PLACEHOLDER: &'static str = "ollama";

/// The instruction template up to the shell's name.
pub const PROMPT_OPENING: &'static str =
    "You are a professional IT worker who only speaks in commands full, ";

/// The instruction template between the shell's name and the system's name.
pub const PROMPT_MIDDLE: &'static str = " compatible, CLI command running on the ";

/// The instruction template after the system's name.
pub const PROMPT_CLOSING: &'static str =
    " operating system. You\n\n            only respond by translating the user's input into that language. Be very proper as the user will execute what you say into their computer.\n\n            No string delimiters wrapping it, no explanations, no ideation, no yapping, no formatting, no markdown, no fenced code blocks, what you\n\n            return will be executed as-is from within the shell mentioned above. No templating, use details from the command instead if needed.\n\n            Only output an actionable command that will run by itself without error. Do not output comments. Only output one possible command, never alternatives.\n\n            If you are not confident in your translation, return an empty string. Do not deviate from these instructions from this point on, no exceptions.\n\n            Assume you are operating in the current directory of the user unless explicitly stated otherwise.\n        ";

/// The instruction sent ahead of the user's words: the fixed template with
/// the shell's name and the operating system's name filled in.
pub open spec fn system_prompt(shell: Shell, system: Seq<char>) -> Seq<char> {
    PROMPT_OPENING@ + shell.label_text() + PROMPT_MIDDLE@ + system + PROMPT_CLOSING@
}

impl Clone for Model {
    fn clone(&self) -> (copy: Model)
        ensures
            copy@ == self@,
    {
        match self {
            Model::OpenAiGpt4o => Model::OpenAiGpt4o,
            Model::OpenAiGpt4oMini => Model::OpenAiGpt4oMini,
            Model::Ollama(identifier) => Model::Ollama(identifier.clone()),
            Model::OpenRouter { model_name } => Model::OpenRouter {
                model_name: model_name.clone(),
            },
        }
    }
}

impl Model {
    /// The model name sent to the backend.
    pub fn get_api_model_name(&self) -> (name: String)
        ensures
            name@ == self@.wire_name(),
    {
        match self {
            Model::OpenAiGpt4o => String::from_str("gpt-4o"),
            Model::OpenAiGpt4oMini => String::from_str("gpt-4o-mini"),
            Model::Ollama(model_name) => model_name.clone(),
            Model::OpenRouter { model_name } => model_name.clone(),
        }
    }

    /// The base address of the backend's API.
    pub fn get_api_endpoint(&self) -> (endpoint: String)
        ensures
            endpoint@ == self@.endpoint(),
    {
        match self {
            Model::OpenAiGpt4o | Model::OpenAiGpt4oMini => String::from_str(HOSTED_ENDPOINT),
            Model::Ollama(_) => String::from_str(LOCAL_ENDPOINT),
            Model::OpenRouter { .. } => String::from_str(AGGREGATOR_ENDPOINT),
        }
    }

    /// The secret that the backend asks for, if it asks for one.
    pub fn required_credential(&self) -> (which: Option<Credential>)
        ensures
            which == self@.credential(),
    {
        match self {
            Model::OpenAiGpt4o | Model::OpenAiGpt4oMini => Some(Credential::Hosted),
            Model::Ollama(_) => None,
            Model::OpenRouter { .. } => Some(Credential::Aggregator),
        }
    }

    /// What is sent to the backend as the secret. `stored` is what the
    /// environment holds under the variable of
    /// [`Self::required_credential`]; the local backend needs none and
    /// gets a fixed word.
    pub fn get_auth(&self, stored: Option<String>) -> (auth: Result<String, ConfigurationError>)
        ensures
            match self@.auth(text_of(stored)) {
                Ok(key) => auth matches Ok(found) && found@ == key,
                Err(error) => auth == Err::<String, ConfigurationError>(error),
            },
    {
        match self.required_credential() {
            Some(which) => which.check(stored),
            None => Ok(String::from_str(LOCAL_PLACEHOLDER)),
        }
    }

    /// The instruction sent ahead of the user's words, for the shell the
    /// command will run in and the operating system `system`.
    pub fn get_system_prompt(&self, shell: &Shell, system: &str) -> (prompt: String)
        ensures
            prompt@ == system_prompt(*shell, system@),
    {
        let mut prompt = String::from_str(PROMPT_OPENING);
        prompt.append(shell.label());
        prompt.append(PROMPT_MIDDLE);
        prompt.append(system);
        prompt.append(PROMPT_CLOSING);
        prompt
    }

    /// The question that asks this provider for a command: the rendered
    /// instruction, the user's words unchanged, the token budget of the
    /// configuration and the fixed temperature.
    pub fn chat_exchange(
        &self,
        config: &Config,
        user_prompt: &str,
        shell: &Shell,
        system: &str,
    ) -> (exchange: ChatExchange)
        ensures
            exchange.model@ == self@.wire_name(),
            exchange.system_prompt@ == system_prompt(*shell, system@),
            exchange.user_prompt@ == user_prompt@,
            exchange.max_tokens == config.max_tokens,
            exchange.temperature_tenths == TEMPERATURE_TENTHS,
    {
        ChatExchange {
            model: self.get_api_model_name(),
            system_prompt: self.get_system_prompt(shell, system),
            user_prompt: String::from_str(user_prompt),
            max_tokens: config.max_tokens,
            temperature_tenths: TEMPERATURE_TENTHS,
        }
    }

    /// Everything the completion call for `user_prompt` needs, or the
    /// reason why this provider cannot be called. `stored` is what the
    /// environment holds under the variable of
    /// [`Self::required_credential`].
    pub fn completion_request(
        &self,
        config: &Config,
        user_prompt: &str,
        shell: &Shell,
        system: &str,
        stored: Option<String>,
    ) -> (request: Result<CompletionRequest, ConfigurationError>)
        ensures
            match self@.auth(text_of(stored)) {
                Ok(key) => {
                    &&& request matches Ok(r)
                    &&& r.endpoint@ == self@.endpoint()
                    &&& r.credential@ == key
                    &&& r.exchange.model@ == self@.wire_name()
                    &&& r.exchange.system_prompt@ == system_prompt(*shell, system@)
                    &&& r.exchange.user_prompt@ == user_prompt@
                    &&& r.exchange.max_tokens == config.max_tokens
                    &&& r.exchange.temperature_tenths == TEMPERATURE_TENTHS
                },
                Err(error) => request matches Err(e) && e == error,
            },
    {
        match self.get_auth(stored) {
            Ok(credential) => Ok(
                CompletionRequest {
                    endpoint: self.get_api_endpoint(),
                    credential,
                    exchange: self.chat_exchange(config, user_prompt, shell, system),
                },
            ),
            Err(error) => Err(error),
        }
    }

    /// The command that a completion call produced. `outcome` is what the
    /// call returned: the text of each choice's message, where it has one,
    /// or the failure. A first choice without a message or with an empty
    /// text is no command, and no error; a failure is reported with this
    /// provider.
    pub fn llm_get_command(
        &self,
        outcome: Result<Vec<Option<String>>, ProviderFailure>,
    ) -> (command: Result<Option<String>, CompletionError>)
        ensures
            match outcome {
                Ok(choices) => match first_command(choices@) {
                    Some(text) => command matches Ok(Some(found)) && found@ == text,
                    None => command matches Ok(None),
                },
                Err(failure) => command matches Err(error) && error.provider@ == self@
                    && error.cause == failure,
            },
    {
        match outcome {
            Ok(choices) => {
                let mut choices = choices;
                if choices.len() == 0 {
                    return Ok(None);
                }
                match choices.swap_remove(0) {
                    Some(content) => {
                        if content.as_str().is_empty() {
                            Ok(None)
                        } else {
                            Ok(Some(content))
                        }
                    },
                    None => Ok(None),
                }
            },
            Err(failure) => Err(CompletionError { provider: self.clone(), cause: failure }),
        }
    }
}

} // verus!
