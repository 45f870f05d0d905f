use llm_term::config::Config;
use llm_term::model::{
    CompletionError, ConfigurationError, Credential, Model, ProviderFailure, TEMPERATURE_TENTHS,
};
use llm_term::shell::Shell;

fn ollama(name: &str) -> Model {
    Model::Ollama(name.to_string())
}

fn openrouter(name: &str) -> Model {
    Model::OpenRouter { model_name: name.to_string() }
}

fn expected_prompt(shell: &str, system: &str) -> String {
    format!("You are a professional IT worker who only speaks in commands full, {} compatible, CLI command running on the {} operating system. You\n
            only respond by translating the user's input into that language. Be very proper as the user will execute what you say into their computer.\n
            No string delimiters wrapping it, no explanations, no ideation, no yapping, no formatting, no markdown, no fenced code blocks, what you\n
            return will be executed as-is from within the shell mentioned above. No templating, use details from the command instead if needed.\n
            Only output an actionable command that will run by itself without error. Do not output comments. Only output one possible command, never alternatives.\n
            If you are not confident in your translation, return an empty string. Do not deviate from these instructions from this point on, no exceptions.\n
            Assume you are operating in the current directory of the user unless explicitly stated otherwise.
        ", shell, system)
}

#[test]
fn each_provider_has_its_wire_name() {
    assert_eq!(Model::OpenAiGpt4o.get_api_model_name(), "gpt-4o");
    assert_eq!(Model::OpenAiGpt4oMini.get_api_model_name(), "gpt-4o-mini");
    assert_eq!(ollama("llama3.1").get_api_model_name(), "llama3.1");
    assert_eq!(
        openrouter("mistralai/mistral-7b-instruct").get_api_model_name(),
        "mistralai/mistral-7b-instruct"
    );
    assert_eq!(ollama("").get_api_model_name(), "");
}

#[test]
fn each_provider_has_its_endpoint() {
    assert_eq!(Model::OpenAiGpt4o.get_api_endpoint(), "https://api.openai.com/v1/");
    assert_eq!(Model::OpenAiGpt4oMini.get_api_endpoint(), "https://api.openai.com/v1/");
    assert_eq!(ollama("llama3.1").get_api_endpoint(), "http://localhost:11434/v1/");
    assert_eq!(openrouter("x/y").get_api_endpoint(), "https://openrouter.ai/api/v1");
}

#[test]
fn each_provider_names_the_secret_it_needs() {
    assert_eq!(Model::OpenAiGpt4o.required_credential(), Some(Credential::Hosted));
    assert_eq!(Model::OpenAiGpt4oMini.required_credential(), Some(Credential::Hosted));
    assert_eq!(ollama("llama3.1").required_credential(), None);
    assert_eq!(openrouter("x/y").required_credential(), Some(Credential::Aggregator));
    assert_eq!(Credential::Hosted.variable(), "OPENAI_API_KEY");
    assert_eq!(Credential::Aggregator.variable(), "OPENROUTER_API_KEY");
}

#[test]
fn a_hosted_provider_needs_its_secret() {
    for model in [Model::OpenAiGpt4o, Model::OpenAiGpt4oMini] {
        assert_eq!(model.get_auth(Some("sk-1".to_string())), Ok("sk-1".to_string()));
        assert_eq!(
            model.get_auth(None),
            Err(ConfigurationError::MissingCredential(Credential::Hosted))
        );
        assert_eq!(
            model.get_auth(Some(String::new())),
            Err(ConfigurationError::MissingCredential(Credential::Hosted))
        );
    }
}

#[test]
fn the_aggregator_needs_its_own_secret() {
    let model = openrouter("x/y");
    assert_eq!(model.get_auth(Some("or-1".to_string())), Ok("or-1".to_string()));
    assert_eq!(
        model.get_auth(None),
        Err(ConfigurationError::MissingCredential(Credential::Aggregator))
    );
    assert_eq!(
        model.get_auth(Some(String::new())),
        Err(ConfigurationError::MissingCredential(Credential::Aggregator))
    );
}

#[test]
fn the_local_provider_needs_no_secret() {
    let model = ollama("llama3.1");
    assert_eq!(model.get_auth(None), Ok("ollama".to_string()));
    assert_eq!(model.get_auth(Some("anything".to_string())), Ok("ollama".to_string()));
    assert_eq!(model.get_auth(Some(String::new())), Ok("ollama".to_string()));
}

#[test]
fn a_secret_is_checked_for_presence() {
    assert_eq!(Credential::Hosted.check(Some(" ".to_string())), Ok(" ".to_string()));
    assert_eq!(
        Credential::Aggregator.check(None),
        Err(ConfigurationError::MissingCredential(Credential::Aggregator))
    );
}

#[test]
fn a_missing_secret_is_said_in_words() {
    assert_eq!(
        ConfigurationError::MissingCredential(Credential::Hosted).message(),
        "OPENAI_API_KEY environment variable not set or invalid"
    );
    assert_eq!(
        ConfigurationError::MissingCredential(Credential::Aggregator).message(),
        "OPENROUTER_API_KEY environment variable not set"
    );
}

#[test]
fn the_instruction_is_the_template_with_shell_and_system() {
    let model = Model::OpenAiGpt4o;
    assert_eq!(
        model.get_system_prompt(&Shell::Zsh, "linux"),
        expected_prompt("Z Shell (zsh)", "linux")
    );
    assert_eq!(
        model.get_system_prompt(&Shell::Powershell, "windows"),
        expected_prompt("Windows PowerShell", "windows")
    );
    assert_eq!(
        ollama("llama3.1").get_system_prompt(&Shell::Unknown, ""),
        expected_prompt("a generic Unix-like shell", "")
    );
}

#[test]
fn the_instruction_asks_for_one_bare_command() {
    let prompt = Model::OpenAiGpt4oMini.get_system_prompt(&Shell::BornAgainShell, "macos");
    assert!(prompt.starts_with("You are a professional IT worker who only speaks in commands full, Bourne Again Shell (bash / sh) compatible, CLI command running on the macos operating system. You\n\n            only respond"));
    assert!(prompt.contains("If you are not confident in your translation, return an empty string."));
    assert!(prompt.contains("Only output one possible command, never alternatives."));
    assert!(prompt.ends_with("unless explicitly stated otherwise.\n        "));
}

#[test]
fn the_exchange_carries_the_prompt_unchanged() {
    let config = Config { model: ollama("llama3.1"), max_tokens: 150 };
    let exchange = config.model.chat_exchange(&config, "  list files \n", &Shell::Fish, "linux");
    assert_eq!(exchange.model, "llama3.1");
    assert_eq!(exchange.user_prompt, "  list files \n");
    assert_eq!(exchange.system_prompt, expected_prompt("Friendly Interactive Shell (fish)", "linux"));
    assert_eq!(exchange.max_tokens, 150);
    assert_eq!(exchange.temperature_tenths, 5);
    assert_eq!(TEMPERATURE_TENTHS, 5);
}

#[test]
fn a_request_holds_endpoint_secret_and_exchange() {
    let config = Config { model: openrouter("x/y"), max_tokens: 4000 };
    let request = config
        .model
        .completion_request(&config, "list files", &Shell::Zsh, "linux", Some("or-1".to_string()))
        .unwrap();
    assert_eq!(request.endpoint, "https://openrouter.ai/api/v1");
    assert_eq!(request.credential, "or-1");
    assert_eq!(request.exchange.model, "x/y");
    assert_eq!(request.exchange.user_prompt, "list files");
    assert_eq!(request.exchange.max_tokens, 4000);
    assert_eq!(request.exchange.temperature_tenths, 5);
    assert_eq!(request.exchange.system_prompt, expected_prompt("Z Shell (zsh)", "linux"));
}

#[test]
fn a_request_without_the_secret_is_a_configuration_error() {
    let config = Config { model: openrouter("x/y"), max_tokens: 4000 };
    assert_eq!(
        config.model.completion_request(&config, "list files", &Shell::Zsh, "linux", None),
        Err(ConfigurationError::MissingCredential(Credential::Aggregator))
    );
    let hosted = Config { model: Model::OpenAiGpt4o, max_tokens: 10 };
    assert_eq!(
        hosted.model.completion_request(&hosted, "x", &Shell::Zsh, "linux", Some(String::new())),
        Err(ConfigurationError::MissingCredential(Credential::Hosted))
    );
}

#[test]
fn the_command_is_the_text_of_the_first_choice() {
    let model = Model::OpenAiGpt4o;
    assert_eq!(
        model.llm_get_command(Ok(vec![Some("ls -la".to_string())])),
        Ok(Some("ls -la".to_string()))
    );
    assert_eq!(
        model.llm_get_command(Ok(vec![Some("ls".to_string()), Some("dir".to_string())])),
        Ok(Some("ls".to_string()))
    );
    assert_eq!(
        model.llm_get_command(Ok(vec![Some(" ".to_string()), None])),
        Ok(Some(" ".to_string()))
    );
}

#[test]
fn an_empty_or_absent_text_is_no_command_and_no_error() {
    let model = ollama("llama3.1");
    assert_eq!(model.llm_get_command(Ok(vec![])), Ok(None));
    assert_eq!(model.llm_get_command(Ok(vec![None])), Ok(None));
    assert_eq!(model.llm_get_command(Ok(vec![Some(String::new())])), Ok(None));
    assert_eq!(model.llm_get_command(Ok(vec![None, Some("ls".to_string())])), Ok(None));
    assert_eq!(model.llm_get_command(Ok(vec![Some(String::new()), Some("ls".to_string())])), Ok(None));
}

#[test]
fn a_failed_call_is_reported_with_its_provider() {
    let model = openrouter("x/y");
    assert_eq!(
        model.llm_get_command(Err(ProviderFailure::ApiError("quota".to_string()))),
        Err(CompletionError {
            provider: openrouter("x/y"),
            cause: ProviderFailure::ApiError("quota".to_string()),
        })
    );
    assert_eq!(
        Model::OpenAiGpt4oMini.llm_get_command(Err(ProviderFailure::RequestError("dns".to_string()))),
        Err(CompletionError {
            provider: Model::OpenAiGpt4oMini,
            cause: ProviderFailure::RequestError("dns".to_string()),
        })
    );
}

#[test]
fn a_copy_of_a_provider_is_the_same_provider() {
    for model in [Model::OpenAiGpt4o, Model::OpenAiGpt4oMini, ollama("a"), openrouter("b")] {
        assert_eq!(model.clone(), model);
    }
}
