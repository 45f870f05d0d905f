//! The configuration: which provider answers and how long its answers may
//! be, and the dialogue that sets both.

use crate::model::{text_of, ConfigurationError, Credential, Model, ProviderSelection};
use crate::openrouter_client::{
    entries_of, keep_listable, listable, listable_entries, CatalogEntry, CatalogError,
    OpenRouterModel,
};
use crate::text::{decimal_i32, decimal_u64, parse_i32, parse_u64, same_text, trim, trimmed};
use vstd::prelude::*;
use vstd::string::StringExecFns;

verus! {

/// The settings of one installation.
#[derive(Debug, PartialEq, Eq)]
pub struct Config {
    /// The provider that answers.
    pub model: Model,
    /// The most tokens an answer may have.
    pub max_tokens: i32,
}

impl Config {
    /// The provider is well formed and the token budget is positive.
    pub open spec fn well_formed(&self) -> bool {
        self.model@.well_formed() && self.max_tokens > 0
    }

    /// Whether the provider is well formed and the token budget positive.
    pub fn is_well_formed(&self) -> (valid: bool)
        ensures
            valid == self.well_formed(),
    {
        let named = match &self.model {
            Model::Ollama(identifier) => !identifier.as_str().is_empty(),
            Model::OpenRouter { model_name } => !model_name.as_str().is_empty(),
            _ => true,
        };
        named && self.max_tokens > 0
    }
}

/// The token budget of an answer when the user names none.
pub const DEFAULT_MAX_TOKENS: i32 = 150;

/// The largest token budget a user may name for a model whose context
/// length is not known.
pub const FALLBACK_TOKEN_LIMIT: i32 = 4096;

/// The context length of both hosted models.
pub const HOSTED_CONTEXT_LENGTH: i32 = 128000;

/// The local model that is used when the user names none.
pub const DEFAULT_LOCAL_MODEL: &'static str = "llama3.1";

/// What a [`ConfigWizard`] stands for: where the dialogue stands.
pub enum WizardView {
    /// The user is asked for a provider.
    ChooseProvider,
    /// The aggregator's secret is to be read from the environment.
    AwaitCredential,
    /// The aggregator's catalog is to be fetched with this secret.
    AwaitCatalog { credential: Seq<char> },
    /// The user is asked to name a local model.
    OllamaName,
    /// The user is asked to pick one of these models by its number.
    PickModel { models: Seq<CatalogEntry> },
    /// The user is asked to name an aggregator model.
    ManualName,
    /// The user is asked for the token budget of this provider, whose
    /// context length is `context` where it is known.
    MaxTokens { model: ProviderSelection, context: Option<i32> },
    /// The dialogue is over, with this result.
    Finished { model: ProviderSelection, max_tokens: i32 },
}

/// What a [`WizardEvent`] stands for: a line the user typed; what the
/// environment holds as the aggregator's secret; or the catalog, `None`
/// where it could not be had.
pub enum WizardInput {
    Line(Seq<char>),
    Credential(Option<Seq<char>>),
    Catalog(Option<Seq<CatalogEntry>>),
}

/// What the dialogue needs next.
#[derive(Clone, Copy, Debug, PartialEq, Eq)]
pub enum WizardRequest {
    /// A line that chooses the provider.
    ProviderChoice,
    /// What the environment holds under this secret's variable.
    Secret(Credential),
    /// The aggregator's catalog.
    Catalog,
    /// A line that names a local model.
    LocalModelName,
    /// A line with the number of a listed model.
    ModelNumber,
    /// A line that names an aggregator model.
    ManualModelName,
    /// A line with the token budget, at most `limit`; `context` is the
    /// model's context length where it is known.
    MaxTokens { limit: i32, context: Option<i32> },
    /// Nothing: the dialogue is over.
    Nothing,
}

/// What the dialogue has to say about the input it was given.
#[derive(Clone, Copy, Debug, PartialEq, Eq)]
pub enum WizardNotice {
    /// The input was taken; there is nothing to report.
    Proceed,
    /// The line names no provider.
    InvalidChoice,
    /// The provider cannot be used; another one has to be chosen.
    Configuration(ConfigurationError),
    /// The catalog holds no model that can be offered.
    NoSuitableModels,
    /// The catalog holds models that can be offered; they are listed next.
    ModelsListed,
    /// The catalog could not be had; the model is named by hand instead.
    CatalogUnavailable,
    /// The line is not the number of a listed model.
    InvalidSelection,
    /// The line names no model.
    ManualNameEmpty,
    /// The token budget is above the limit.
    TokensExceedLimit { limit: i32 },
    /// The token budget is not positive.
    TokensNotPositive,
    /// The line is not a number.
    TokensInvalid { limit: i32 },
    /// The input is not what the dialogue asked for.
    Unexpected,
}

/// The largest token budget that may be named for a model with this
/// context length.
pub open spec fn token_limit(context: Option<i32>) -> i32 {
    match context {
        Some(length) => length,
        None => FALLBACK_TOKEN_LIMIT,
    }
}

impl WizardView {
    /// What is kept between two inputs makes sense: a secret is not empty,
    /// a list of models is not empty and holds only models that can be
    /// offered, a provider is well formed and a token budget positive.
    pub open spec fn well_formed(self) -> bool {
        match self {
            WizardView::AwaitCatalog { credential } => credential.len() > 0,
            WizardView::PickModel { models } => models.len() > 0 && forall|i: int|
                0 <= i < models.len() ==> listable(#[trigger] models[i]),
            WizardView::MaxTokens { model, context } => model.well_formed(),
            WizardView::Finished { model, max_tokens } => model.well_formed() && max_tokens > 0,
            _ => true,
        }
    }

    /// What the dialogue needs next.
    pub open spec fn request(self) -> WizardRequest {
        match self {
            WizardView::ChooseProvider => WizardRequest::ProviderChoice,
            WizardView::AwaitCredential => WizardRequest::Secret(Credential::Aggregator),
            WizardView::AwaitCatalog { credential } => WizardRequest::Catalog,
            WizardView::OllamaName => WizardRequest::LocalModelName,
            WizardView::PickModel { models } => WizardRequest::ModelNumber,
            WizardView::ManualName => WizardRequest::ManualModelName,
            WizardView::MaxTokens { model, context } => WizardRequest::MaxTokens {
                limit: token_limit(context),
                context,
            },
            WizardView::Finished { model, max_tokens } => WizardRequest::Nothing,
        }
    }

    /// Where the dialogue stands after the provider was chosen with
    /// `choice`.
    pub open spec fn provider_chosen(choice: Seq<char>) -> (WizardView, WizardNotice) {
        if choice == "1"@ {
            (
                WizardView::MaxTokens {
                    model: ProviderSelection::HostedSmallModel,
                    context: Some(HOSTED_CONTEXT_LENGTH),
                },
                WizardNotice::Proceed,
            )
        } else if choice == "2"@ {
            (
                WizardView::MaxTokens {
                    model: ProviderSelection::HostedLargeModel,
                    context: Some(HOSTED_CONTEXT_LENGTH),
                },
                WizardNotice::Proceed,
            )
        } else if choice == "3"@ {
            (WizardView::OllamaName, WizardNotice::Proceed)
        } else if choice == "4"@ {
            (WizardView::AwaitCredential, WizardNotice::Proceed)
        } else {
            (WizardView::ChooseProvider, WizardNotice::InvalidChoice)
        }
    }

    /// Where the dialogue stands after the environment was asked for the
    /// aggregator's secret.
    pub open spec fn credential_read(stored: Option<Seq<char>>) -> (WizardView, WizardNotice) {
        match Credential::Aggregator.checked(stored) {
            Ok(credential) => (WizardView::AwaitCatalog { credential }, WizardNotice::Proceed),
            Err(error) => (WizardView::ChooseProvider, WizardNotice::Configuration(error)),
        }
    }

    /// Where the dialogue stands after the catalog came, or did not.
    pub open spec fn catalog_read(listing: Option<Seq<CatalogEntry>>) -> (WizardView, WizardNotice) {
        match listing {
            Some(entries) => if listable_entries(entries).len() == 0 {
                (WizardView::ChooseProvider, WizardNotice::NoSuitableModels)
            } else {
                (
                    WizardView::PickModel { models: listable_entries(entries) },
                    WizardNotice::ModelsListed,
                )
            },
            None => (WizardView::ManualName, WizardNotice::CatalogUnavailable),
        }
    }

    /// Where the dialogue stands after the local model was named.
    pub open spec fn local_model_named(name: Seq<char>) -> (WizardView, WizardNotice) {
        (
            WizardView::MaxTokens {
                model: ProviderSelection::LocalModel(
                    if name.len() == 0 {
                        DEFAULT_LOCAL_MODEL@
                    } else {
                        name
                    },
                ),
                context: None,
            },
            WizardNotice::Proceed,
        )
    }

    /// Where the dialogue stands after `text` was given as the number of
    /// one of `models`.
    pub open spec fn model_picked(models: Seq<CatalogEntry>, text: Seq<char>) -> (
        WizardView,
        WizardNotice,
    ) {
        match decimal_u64(text) {
            Some(number) => if 1 <= number <= models.len() {
                (
                    WizardView::MaxTokens {
                        model: ProviderSelection::AggregatorModel(models[number - 1].id),
                        context: models[number - 1].context_length,
                    },
                    WizardNotice::Proceed,
                )
            } else {
                (WizardView::PickModel { models }, WizardNotice::InvalidSelection)
            },
            None => (WizardView::PickModel { models }, WizardNotice::InvalidSelection),
        }
    }

    /// Where the dialogue stands after the aggregator model was named by
    /// hand.
    pub open spec fn model_named(name: Seq<char>) -> (WizardView, WizardNotice) {
        if name.len() == 0 {
            (WizardView::ChooseProvider, WizardNotice::ManualNameEmpty)
        } else {
            (
                WizardView::MaxTokens {
                    model: ProviderSelection::AggregatorModel(name),
                    context: None,
                },
                WizardNotice::Proceed,
            )
        }
    }

    /// Where the dialogue stands after `text` was given as the token
    /// budget of `model`.
    pub open spec fn tokens_entered(
        model: ProviderSelection,
        context: Option<i32>,
        text: Seq<char>,
    ) -> (WizardView, WizardNotice) {
        let limit = token_limit(context);
        let again = WizardView::MaxTokens { model, context };
        if text.len() == 0 {
            (WizardView::Finished { model, max_tokens: DEFAULT_MAX_TOKENS }, WizardNotice::Proceed)
        } else {
            match decimal_i32(text) {
                Some(tokens) => if 0 < tokens <= limit {
                    (WizardView::Finished { model, max_tokens: tokens }, WizardNotice::Proceed)
                } else if tokens > limit {
                    (again, WizardNotice::TokensExceedLimit { limit })
                } else {
                    (again, WizardNotice::TokensNotPositive)
                },
                None => (again, WizardNotice::TokensInvalid { limit }),
            }
        }
    }

    /// Where the dialogue stands after `input`, and what it has to say
    /// about it. An input that was not asked for changes nothing.
    pub open spec fn after(self, input: WizardInput) -> (WizardView, WizardNotice) {
        match (self, input) {
            (WizardView::ChooseProvider, WizardInput::Line(choice)) => Self::provider_chosen(
                choice,
            ),
            (WizardView::AwaitCredential, WizardInput::Credential(stored)) => Self::credential_read(
                stored,
            ),
            (WizardView::AwaitCatalog { credential }, WizardInput::Catalog(listing)) =>
                Self::catalog_read(listing),
            (WizardView::OllamaName, WizardInput::Line(name)) => Self::local_model_named(name),
            (WizardView::PickModel { models }, WizardInput::Line(text)) => Self::model_picked(
                models,
                text,
            ),
            (WizardView::ManualName, WizardInput::Line(name)) => Self::model_named(name),
            (WizardView::MaxTokens { model, context }, WizardInput::Line(text)) =>
                Self::tokens_entered(model, context, text),
            _ => (self, WizardNotice::Unexpected),
        }
    }
}

/// Whatever the input, the dialogue keeps what it holds well formed: the
/// configuration it ends with names a provider and a positive token budget.
pub proof fn lemma_wizard_stays_well_formed(state: WizardView, input: WizardInput)
    requires
        state.well_formed(),
    ensures
        state.after(input).0.well_formed(),
{
    reveal_strlit("llama3.1");
    match (state, input) {
        (WizardView::AwaitCatalog { credential }, WizardInput::Catalog(Some(entries))) => {
            crate::openrouter_client::lemma_listable_entries(entries);
        },
        _ => {},
    }
}

/// What the dialogue is told.
#[derive(Debug, PartialEq, Eq)]
pub enum WizardEvent {
    /// A line the user typed.
    Line(String),
    /// What the environment holds as the secret that was asked for.
    Credential(Option<String>),
    /// The aggregator's catalog, or why it could not be had.
    Catalog(Result<Vec<OpenRouterModel>, CatalogError>),
}

impl WizardEvent {
    /// The event with its line as it stands.
    pub open spec fn input(self) -> WizardInput {
        match self {
            WizardEvent::Line(line) => WizardInput::Line(line@),
            WizardEvent::Credential(stored) => WizardInput::Credential(text_of(stored)),
            WizardEvent::Catalog(Ok(models)) => WizardInput::Catalog(Some(entries_of(models@))),
            WizardEvent::Catalog(Err(_)) => WizardInput::Catalog(None),
        }
    }

    /// The event with its line freed of the white space around it.
    pub open spec fn trimmed_input(self) -> WizardInput {
        match self {
            WizardEvent::Line(line) => WizardInput::Line(trimmed(line@)),
            _ => self.input(),
        }
    }
}

enum Stage {
    ChooseProvider,
    AwaitCredential,
    AwaitCatalog { credential: String },
    OllamaName,
    PickModel { models: Vec<OpenRouterModel> },
    ManualName,
    MaxTokens { model: Model, context: Option<i32> },
    Finished { config: Config },
}

impl View for Stage {
    type V = WizardView;

    closed spec fn view(&self) -> WizardView {
        match self {
            Stage::ChooseProvider => WizardView::ChooseProvider,
            Stage::AwaitCredential => WizardView::AwaitCredential,
            Stage::AwaitCatalog { credential } => WizardView::AwaitCatalog {
                credential: credential@,
            },
            Stage::OllamaName => WizardView::OllamaName,
            Stage::PickModel { models } => WizardView::PickModel { models: entries_of(models@) },
            Stage::ManualName => WizardView::ManualName,
            Stage::MaxTokens { model, context } => WizardView::MaxTokens {
                model: model@,
                context: *context,
            },
            Stage::Finished { config } => WizardView::Finished {
                model: config.model@,
                max_tokens: config.max_tokens,
            },
        }
    }
}

/// The largest token budget that may be named for a model with this
/// context length.
pub fn limit_for(context: Option<i32>) -> (limit: i32)
    ensures
        limit == token_limit(context),
{
    match context {
        Some(length) => length,
        None => FALLBACK_TOKEN_LIMIT,
    }
}

/// The next stage for an input whose line has no white space around it.
fn advance_stage(stage: Stage, event: WizardEvent) -> (next: (Stage, WizardNotice))
    requires
        stage@.well_formed(),
    ensures
        (next.0@, next.1) == stage@.after(event.input()),
        next.0@.well_formed(),
{
    proof {
        lemma_wizard_stays_well_formed(stage@, event.input());
    }
    match (stage, event) {
        (Stage::ChooseProvider, WizardEvent::Line(choice)) => {
            if same_text(choice.as_str(), "1") {
                (
                    Stage::MaxTokens {
                        model: Model::OpenAiGpt4oMini,
                        context: Some(HOSTED_CONTEXT_LENGTH),
                    },
                    WizardNotice::Proceed,
                )
            } else if same_text(choice.as_str(), "2") {
                (
                    Stage::MaxTokens {
                        model: Model::OpenAiGpt4o,
                        context: Some(HOSTED_CONTEXT_LENGTH),
                    },
                    WizardNotice::Proceed,
                )
            } else if same_text(choice.as_str(), "3") {
                (Stage::OllamaName, WizardNotice::Proceed)
            } else if same_text(choice.as_str(), "4") {
                (Stage::AwaitCredential, WizardNotice::Proceed)
            } else {
                (Stage::ChooseProvider, WizardNotice::InvalidChoice)
            }
        },
        (Stage::AwaitCredential, WizardEvent::Credential(stored)) => {
            match Credential::Aggregator.check(stored) {
                Ok(credential) => (Stage::AwaitCatalog { credential }, WizardNotice::Proceed),
                Err(error) => (Stage::ChooseProvider, WizardNotice::Configuration(error)),
            }
        },
        (Stage::AwaitCatalog { credential }, WizardEvent::Catalog(listing)) => {
            match listing {
                Ok(models) => {
                    let usable = keep_listable(models);
                    if usable.len() == 0 {
                        (Stage::ChooseProvider, WizardNotice::NoSuitableModels)
                    } else {
                        (Stage::PickModel { models: usable }, WizardNotice::ModelsListed)
                    }
                },
                Err(_) => (Stage::ManualName, WizardNotice::CatalogUnavailable),
            }
        },
        (Stage::OllamaName, WizardEvent::Line(name)) => {
            let identifier = if name.as_str().is_empty() {
                String::from_str(DEFAULT_LOCAL_MODEL)
            } else {
                name
            };
            (
                Stage::MaxTokens { model: Model::Ollama(identifier), context: None },
                WizardNotice::Proceed,
            )
        },
        (Stage::PickModel { models }, WizardEvent::Line(text)) => {
            match parse_u64(text.as_str()) {
                Some(number) => {
                    if number >= 1 && number <= models.len() as u64 {
                        let at: usize = (number - 1) as usize;
                        let model = Model::OpenRouter { model_name: models[at].id.clone() };
                        let context = models[at].context_length;
                        (Stage::MaxTokens { model, context }, WizardNotice::Proceed)
                    } else {
                        (Stage::PickModel { models }, WizardNotice::InvalidSelection)
                    }
                },
                None => (Stage::PickModel { models }, WizardNotice::InvalidSelection),
            }
        },
        (Stage::ManualName, WizardEvent::Line(name)) => {
            if name.as_str().is_empty() {
                (Stage::ChooseProvider, WizardNotice::ManualNameEmpty)
            } else {
                (
                    Stage::MaxTokens { model: Model::OpenRouter { model_name: name }, context: None },
                    WizardNotice::Proceed,
                )
            }
        },
        (Stage::MaxTokens { model, context }, WizardEvent::Line(text)) => {
            let limit = limit_for(context);
            if text.as_str().is_empty() {
                (
                    Stage::Finished { config: Config { model, max_tokens: DEFAULT_MAX_TOKENS } },
                    WizardNotice::Proceed,
                )
            } else {
                match parse_i32(text.as_str()) {
                    Some(tokens) => {
                        if tokens > 0 && tokens <= limit {
                            (
                                Stage::Finished { config: Config { model, max_tokens: tokens } },
                                WizardNotice::Proceed,
                            )
                        } else if tokens > limit {
                            (
                                Stage::MaxTokens { model, context },
                                WizardNotice::TokensExceedLimit { limit },
                            )
                        } else {
                            (Stage::MaxTokens { model, context }, WizardNotice::TokensNotPositive)
                        }
                    },
                    None => (
                        Stage::MaxTokens { model, context },
                        WizardNotice::TokensInvalid { limit },
                    ),
                }
            }
        },
        (stage, _) => (stage, WizardNotice::Unexpected),
    }
}

/// The dialogue that asks the user for a configuration. It is driven from
/// outside: [`ConfigWizard::request`] says what it needs,
/// [`ConfigWizard::step`] takes it and says what there is to report.
pub struct ConfigWizard {
    stage: Stage,
}

impl View for ConfigWizard {
    type V = WizardView;

    closed spec fn view(&self) -> WizardView {
        self.stage@
    }
}

/// A dialogue that has not been told anything yet: it asks for a provider.
pub fn create_config() -> (wizard: ConfigWizard)
    ensures
        wizard@ == WizardView::ChooseProvider,
{
    ConfigWizard { stage: Stage::ChooseProvider }
}

impl ConfigWizard {
    #[verifier::type_invariant]
    spec fn holds_well_formed(self) -> bool {
        self.stage@.well_formed()
    }

    /// What the dialogue needs next.
    pub fn request(&self) -> (request: WizardRequest)
        ensures
            request == self@.request(),
    {
        match &self.stage {
            Stage::ChooseProvider => WizardRequest::ProviderChoice,
            Stage::AwaitCredential => WizardRequest::Secret(Credential::Aggregator),
            Stage::AwaitCatalog { .. } => WizardRequest::Catalog,
            Stage::OllamaName => WizardRequest::LocalModelName,
            Stage::PickModel { .. } => WizardRequest::ModelNumber,
            Stage::ManualName => WizardRequest::ManualModelName,
            Stage::MaxTokens { model, context } => WizardRequest::MaxTokens {
                limit: limit_for(*context),
                context: *context,
            },
            Stage::Finished { .. } => WizardRequest::Nothing,
        }
    }

    /// Takes an input whose line has no white space around it, and says
    /// what there is to report.
    pub fn advance(&mut self, event: WizardEvent) -> (notice: WizardNotice)
        ensures
            (final(self)@, notice) == old(self)@.after(event.input()),
    {
        proof {
            use_type_invariant(&*self);
        }
        let mut stage = Stage::ChooseProvider;
        core::mem::swap(&mut self.stage, &mut stage);
        let (next, notice) = advance_stage(stage, event);
        self.stage = next;
        notice
    }

    /// Takes an input as it came, and says what there is to report. A
    /// line is freed of the white space around it before it is read.
    pub fn step(&mut self, event: WizardEvent) -> (notice: WizardNotice)
        ensures
            (final(self)@, notice) == old(self)@.after(event.trimmed_input()),
    {
        match event {
            WizardEvent::Line(line) => {
                let text = String::from_str(trim(line.as_str()));
                self.advance(WizardEvent::Line(text))
            },
            other => self.advance(other),
        }
    }

    /// The secret with which the catalog is to be fetched, while the
    /// dialogue waits for the catalog.
    pub fn credential(&self) -> (credential: Option<&String>)
        ensures
            match self@ {
                WizardView::AwaitCatalog { credential: held } => credential matches Some(c) && c@
                    == held,
                _ => credential is None,
            },
    {
        match &self.stage {
            Stage::AwaitCatalog { credential } => Some(credential),
            _ => None,
        }
    }

    /// The models that are offered, while the dialogue waits for the
    /// number of one.
    pub fn models(&self) -> (models: Option<&Vec<OpenRouterModel>>)
        ensures
            match self@ {
                WizardView::PickModel { models: held } => models matches Some(m) && entries_of(m@)
                    == held,
                _ => models is None,
            },
    {
        match &self.stage {
            Stage::PickModel { models } => Some(models),
            _ => None,
        }
    }

    /// The configuration, once the dialogue is over.
    pub fn into_config(self) -> (config: Option<Config>)
        ensures
            match self@ {
                WizardView::Finished { model, max_tokens } => config matches Some(c) && c.model@
                    == model && c.max_tokens == max_tokens && c.well_formed(),
                _ => config is None,
            },
    {
        proof {
            use_type_invariant(&self);
        }
        match self.stage {
            Stage::Finished { config } => Some(config),
            _ => None,
        }
    }
}

/// Where the configuration comes from.
pub enum ConfigSource {
    /// From storage: this is it.
    Stored(Config),
    /// From the user: this dialogue asks for it.
    Interactive(ConfigWizard),
}

/// The stored configuration where there is one and it is well formed; else
/// the dialogue that asks the user for a new one. `stored` is what could
/// be read from storage, `None` where nothing is stored or it cannot be
/// read.
pub fn load_or_create_config(stored: Option<Config>) -> (source: ConfigSource)
    ensures
        match stored {
            Some(config) => if config.well_formed() {
                source == ConfigSource::Stored(config)
            } else {
                source matches ConfigSource::Interactive(wizard) && wizard@
                    == WizardView::ChooseProvider
            },
            None => source matches ConfigSource::Interactive(wizard) && wizard@
                == WizardView::ChooseProvider,
        },
{
    match stored {
        Some(config) => {
            if config.is_well_formed() {
                ConfigSource::Stored(config)
            } else {
                ConfigSource::Interactive(create_config())
            }
        },
        None => ConfigSource::Interactive(create_config()),
    }
}

} // verus!
