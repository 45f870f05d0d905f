use llm_term::config::{
    create_config, load_or_create_config, Config, ConfigSource, ConfigWizard, WizardEvent,
    WizardNotice, WizardRequest, DEFAULT_MAX_TOKENS, FALLBACK_TOKEN_LIMIT, HOSTED_CONTEXT_LENGTH,
};
use llm_term::model::{ConfigurationError, Credential, Model};
use llm_term::openrouter_client::{CatalogError, OpenRouterModel};

fn line(text: &str) -> WizardEvent {
    WizardEvent::Line(text.to_string())
}

fn model(id: &str, context_length: Option<i32>) -> OpenRouterModel {
    OpenRouterModel { id: id.to_string(), context_length }
}

fn catalog() -> Vec<OpenRouterModel> {
    vec![model("a/one", Some(8192)), model("b/two", Some(32768)), model("c/three", Some(100))]
}

fn at_model_number() -> ConfigWizard {
    let mut wizard = create_config();
    assert_eq!(wizard.step(line("4\n")), WizardNotice::Proceed);
    assert_eq!(wizard.step(WizardEvent::Credential(Some("or-1".to_string()))), WizardNotice::Proceed);
    assert_eq!(wizard.step(WizardEvent::Catalog(Ok(catalog()))), WizardNotice::ModelsListed);
    wizard
}

#[test]
fn the_dialogue_begins_with_the_choice_of_a_provider() {
    let wizard = create_config();
    assert_eq!(wizard.request(), WizardRequest::ProviderChoice);
    assert_eq!(wizard.credential(), None);
    assert_eq!(wizard.models(), None);
    assert_eq!(wizard.into_config(), None);
}

#[test]
fn choice_one_is_the_small_hosted_model() {
    let mut wizard = create_config();
    assert_eq!(wizard.step(line("1\n")), WizardNotice::Proceed);
    assert_eq!(
        wizard.request(),
        WizardRequest::MaxTokens { limit: 128000, context: Some(128000) }
    );
    assert_eq!(wizard.step(line("\n")), WizardNotice::Proceed);
    assert_eq!(wizard.request(), WizardRequest::Nothing);
    assert_eq!(wizard.into_config(), Some(Config { model: Model::OpenAiGpt4oMini, max_tokens: 150 }));
}

#[test]
fn choice_two_is_the_large_hosted_model() {
    let mut wizard = create_config();
    assert_eq!(wizard.step(line(" 2 \r\n")), WizardNotice::Proceed);
    assert_eq!(wizard.step(line("1000\n")), WizardNotice::Proceed);
    assert_eq!(wizard.into_config(), Some(Config { model: Model::OpenAiGpt4o, max_tokens: 1000 }));
}

#[test]
fn a_line_that_names_no_provider_asks_again() {
    let mut wizard = create_config();
    for text in ["", "\n", "0", "5", "one", "12", "1 2", "+1"] {
        assert_eq!(wizard.step(line(text)), WizardNotice::InvalidChoice, "{:?}", text);
        assert_eq!(wizard.request(), WizardRequest::ProviderChoice);
    }
}

#[test]
fn a_local_model_without_a_name_is_the_default_one() {
    let mut wizard = create_config();
    assert_eq!(wizard.step(line("3\n")), WizardNotice::Proceed);
    assert_eq!(wizard.request(), WizardRequest::LocalModelName);
    assert_eq!(wizard.step(line("  \n")), WizardNotice::Proceed);
    assert_eq!(wizard.request(), WizardRequest::MaxTokens { limit: 4096, context: None });
    assert_eq!(wizard.step(line("")), WizardNotice::Proceed);
    assert_eq!(
        wizard.into_config(),
        Some(Config { model: Model::Ollama("llama3.1".to_string()), max_tokens: 150 })
    );
}

#[test]
fn a_local_model_is_named_without_the_white_space_around_it() {
    let mut wizard = create_config();
    wizard.step(line("3"));
    assert_eq!(wizard.step(line("  mistral:7b \n")), WizardNotice::Proceed);
    assert_eq!(wizard.step(line("4096")), WizardNotice::Proceed);
    assert_eq!(
        wizard.into_config(),
        Some(Config { model: Model::Ollama("mistral:7b".to_string()), max_tokens: 4096 })
    );
}

#[test]
fn the_aggregator_without_its_secret_is_a_configuration_error_and_asks_again() {
    let mut wizard = create_config();
    assert_eq!(wizard.step(line("4\n")), WizardNotice::Proceed);
    assert_eq!(wizard.request(), WizardRequest::Secret(Credential::Aggregator));
    assert_eq!(
        wizard.step(WizardEvent::Credential(None)),
        WizardNotice::Configuration(ConfigurationError::MissingCredential(Credential::Aggregator))
    );
    assert_eq!(wizard.request(), WizardRequest::ProviderChoice);
    assert_eq!(wizard.step(line("4\n")), WizardNotice::Proceed);
    assert_eq!(
        wizard.step(WizardEvent::Credential(Some(String::new()))),
        WizardNotice::Configuration(ConfigurationError::MissingCredential(Credential::Aggregator))
    );
    assert_eq!(wizard.request(), WizardRequest::ProviderChoice);
    assert_eq!(wizard.step(line("1\n")), WizardNotice::Proceed);
}

#[test]
fn with_its_secret_the_aggregator_is_asked_for_its_catalog() {
    let mut wizard = create_config();
    wizard.step(line("4"));
    assert_eq!(wizard.step(WizardEvent::Credential(Some("or-1".to_string()))), WizardNotice::Proceed);
    assert_eq!(wizard.request(), WizardRequest::Catalog);
    assert_eq!(wizard.credential(), Some(&"or-1".to_string()));
}

#[test]
fn a_listed_model_is_picked_by_its_number() {
    let mut wizard = at_model_number();
    assert_eq!(wizard.request(), WizardRequest::ModelNumber);
    assert_eq!(wizard.models(), Some(&catalog()));
    assert_eq!(wizard.step(line(" 2\n")), WizardNotice::Proceed);
    assert_eq!(wizard.request(), WizardRequest::MaxTokens { limit: 32768, context: Some(32768) });
    assert_eq!(wizard.step(line("32768\n")), WizardNotice::Proceed);
    assert_eq!(
        wizard.into_config(),
        Some(Config { model: Model::OpenRouter { model_name: "b/two".to_string() }, max_tokens: 32768 })
    );
}

#[test]
fn the_first_and_the_last_model_can_be_picked() {
    let mut first = at_model_number();
    assert_eq!(first.step(line("1")), WizardNotice::Proceed);
    assert_eq!(first.request(), WizardRequest::MaxTokens { limit: 8192, context: Some(8192) });
    let mut last = at_model_number();
    assert_eq!(last.step(line("+3")), WizardNotice::Proceed);
    assert_eq!(last.request(), WizardRequest::MaxTokens { limit: 100, context: Some(100) });
}

#[test]
fn a_number_outside_the_list_asks_again() {
    let mut wizard = at_model_number();
    for text in ["0", "4", "-1", "", "two", "1.0", "99999999999999999999999999", "2 3"] {
        assert_eq!(wizard.step(line(text)), WizardNotice::InvalidSelection, "{:?}", text);
        assert_eq!(wizard.request(), WizardRequest::ModelNumber);
        assert_eq!(wizard.models(), Some(&catalog()));
    }
}

#[test]
fn only_models_that_can_be_offered_are_listed() {
    let mut wizard = create_config();
    wizard.step(line("4"));
    wizard.step(WizardEvent::Credential(Some("or-1".to_string())));
    let notice = wizard.step(WizardEvent::Catalog(Ok(vec![
        model("a", None),
        model("b", Some(10)),
        model("", Some(20)),
        model("c", Some(30)),
    ])));
    assert_eq!(notice, WizardNotice::ModelsListed);
    assert_eq!(wizard.models(), Some(&vec![model("b", Some(10)), model("c", Some(30))]));
    assert_eq!(wizard.step(line("2")), WizardNotice::Proceed);
    assert_eq!(wizard.request(), WizardRequest::MaxTokens { limit: 30, context: Some(30) });
}

#[test]
fn a_catalog_without_suitable_models_asks_for_another_provider() {
    for listing in [Vec::new(), vec![model("a", None), model("", Some(1))]] {
        let mut wizard = create_config();
        wizard.step(line("4"));
        wizard.step(WizardEvent::Credential(Some("or-1".to_string())));
        assert_eq!(wizard.step(WizardEvent::Catalog(Ok(listing))), WizardNotice::NoSuitableModels);
        assert_eq!(wizard.request(), WizardRequest::ProviderChoice);
    }
}

#[test]
fn without_the_catalog_the_model_is_named_by_hand() {
    let mut wizard = create_config();
    wizard.step(line("4"));
    wizard.step(WizardEvent::Credential(Some("or-1".to_string())));
    assert_eq!(
        wizard.step(WizardEvent::Catalog(Err(CatalogError::NetworkError("down".to_string())))),
        WizardNotice::CatalogUnavailable
    );
    assert_eq!(wizard.request(), WizardRequest::ManualModelName);
    assert_eq!(wizard.step(line(" mistralai/mistral-7b-instruct \n")), WizardNotice::Proceed);
    assert_eq!(wizard.request(), WizardRequest::MaxTokens { limit: 4096, context: None });
    assert_eq!(wizard.step(line("\n")), WizardNotice::Proceed);
    assert_eq!(
        wizard.into_config(),
        Some(Config {
            model: Model::OpenRouter { model_name: "mistralai/mistral-7b-instruct".to_string() },
            max_tokens: 150,
        })
    );
}

#[test]
fn a_model_named_by_hand_must_have_a_name() {
    let mut wizard = create_config();
    wizard.step(line("4"));
    wizard.step(WizardEvent::Credential(Some("or-1".to_string())));
    wizard.step(WizardEvent::Catalog(Err(CatalogError::DecodeError("bad".to_string()))));
    assert_eq!(wizard.step(line("   \n")), WizardNotice::ManualNameEmpty);
    assert_eq!(wizard.request(), WizardRequest::ProviderChoice);
}

#[test]
fn a_token_budget_must_be_a_positive_number_within_the_limit() {
    let mut wizard = create_config();
    wizard.step(line("3"));
    wizard.step(line("llama3.1"));
    let asked = WizardRequest::MaxTokens { limit: 4096, context: None };
    assert_eq!(wizard.step(line("4097")), WizardNotice::TokensExceedLimit { limit: 4096 });
    assert_eq!(wizard.request(), asked);
    assert_eq!(wizard.step(line("2147483647")), WizardNotice::TokensExceedLimit { limit: 4096 });
    assert_eq!(wizard.step(line("0")), WizardNotice::TokensNotPositive);
    assert_eq!(wizard.step(line("-5")), WizardNotice::TokensNotPositive);
    assert_eq!(wizard.request(), asked);
    assert_eq!(wizard.step(line("many")), WizardNotice::TokensInvalid { limit: 4096 });
    assert_eq!(wizard.step(line("2147483648")), WizardNotice::TokensInvalid { limit: 4096 });
    assert_eq!(wizard.step(line("1 0")), WizardNotice::TokensInvalid { limit: 4096 });
    assert_eq!(wizard.request(), asked);
    assert_eq!(wizard.step(line(" 4096 \n")), WizardNotice::Proceed);
    assert_eq!(
        wizard.into_config(),
        Some(Config { model: Model::Ollama("llama3.1".to_string()), max_tokens: 4096 })
    );
}

#[test]
fn the_smallest_token_budget_is_one() {
    let mut wizard = create_config();
    wizard.step(line("1"));
    assert_eq!(wizard.step(line("1")), WizardNotice::Proceed);
    assert_eq!(wizard.into_config(), Some(Config { model: Model::OpenAiGpt4oMini, max_tokens: 1 }));
}

#[test]
fn the_default_token_budget_is_taken_as_it_is() {
    let mut wizard = at_model_number();
    assert_eq!(wizard.step(line("3")), WizardNotice::Proceed);
    assert_eq!(wizard.step(line("101")), WizardNotice::TokensExceedLimit { limit: 100 });
    assert_eq!(wizard.step(line("")), WizardNotice::Proceed);
    assert_eq!(
        wizard.into_config(),
        Some(Config { model: Model::OpenRouter { model_name: "c/three".to_string() }, max_tokens: 150 })
    );
}

#[test]
fn an_input_that_was_not_asked_for_changes_nothing() {
    let mut wizard = create_config();
    assert_eq!(wizard.step(WizardEvent::Credential(Some("k".to_string()))), WizardNotice::Unexpected);
    assert_eq!(wizard.step(WizardEvent::Catalog(Ok(catalog()))), WizardNotice::Unexpected);
    assert_eq!(wizard.request(), WizardRequest::ProviderChoice);
    wizard.step(line("4"));
    assert_eq!(wizard.step(line("1")), WizardNotice::Unexpected);
    assert_eq!(wizard.request(), WizardRequest::Secret(Credential::Aggregator));
    wizard.step(WizardEvent::Credential(Some("k".to_string())));
    assert_eq!(wizard.step(line("1")), WizardNotice::Unexpected);
    assert_eq!(wizard.step(WizardEvent::Credential(None)), WizardNotice::Unexpected);
    assert_eq!(wizard.request(), WizardRequest::Catalog);
    let mut done = create_config();
    done.step(line("1"));
    done.step(line(""));
    assert_eq!(done.step(line("2")), WizardNotice::Unexpected);
    assert_eq!(done.into_config(), Some(Config { model: Model::OpenAiGpt4oMini, max_tokens: 150 }));
}

#[test]
fn a_line_is_read_as_it_stands_when_it_is_given_as_trimmed() {
    let mut wizard = create_config();
    assert_eq!(wizard.advance(line("1\n")), WizardNotice::InvalidChoice);
    assert_eq!(wizard.advance(line(" 1")), WizardNotice::InvalidChoice);
    assert_eq!(wizard.advance(line("1")), WizardNotice::Proceed);
    assert_eq!(wizard.advance(line("200")), WizardNotice::Proceed);
    assert_eq!(wizard.into_config(), Some(Config { model: Model::OpenAiGpt4oMini, max_tokens: 200 }));
}

#[test]
fn the_constants_of_the_dialogue() {
    assert_eq!(DEFAULT_MAX_TOKENS, 150);
    assert_eq!(FALLBACK_TOKEN_LIMIT, 4096);
    assert_eq!(HOSTED_CONTEXT_LENGTH, 128000);
}

#[test]
fn a_well_formed_stored_configuration_is_used() {
    let stored = Config { model: Model::Ollama("llama3.1".to_string()), max_tokens: 1 };
    match load_or_create_config(Some(stored)) {
        ConfigSource::Stored(config) => {
            assert_eq!(config, Config { model: Model::Ollama("llama3.1".to_string()), max_tokens: 1 })
        }
        ConfigSource::Interactive(_) => panic!("the stored configuration is well formed"),
    }
}

#[test]
fn without_a_usable_stored_configuration_the_user_is_asked() {
    let unusable = [
        None,
        Some(Config { model: Model::OpenAiGpt4o, max_tokens: 0 }),
        Some(Config { model: Model::OpenAiGpt4o, max_tokens: -1 }),
        Some(Config { model: Model::Ollama(String::new()), max_tokens: 150 }),
        Some(Config { model: Model::OpenRouter { model_name: String::new() }, max_tokens: 150 }),
    ];
    for stored in unusable {
        match load_or_create_config(stored) {
            ConfigSource::Interactive(wizard) => {
                assert_eq!(wizard.request(), WizardRequest::ProviderChoice)
            }
            ConfigSource::Stored(config) => panic!("{:?} is not usable", config),
        }
    }
}

#[test]
fn a_configuration_is_well_formed_with_a_provider_and_a_positive_budget() {
    assert!(Config { model: Model::OpenAiGpt4o, max_tokens: 1 }.is_well_formed());
    assert!(Config { model: Model::Ollama("x".to_string()), max_tokens: i32::MAX }.is_well_formed());
    assert!(!Config { model: Model::OpenAiGpt4oMini, max_tokens: 0 }.is_well_formed());
    assert!(!Config { model: Model::Ollama(String::new()), max_tokens: 1 }.is_well_formed());
    assert!(!Config { model: Model::OpenRouter { model_name: String::new() }, max_tokens: 1 }
        .is_well_formed());
}
