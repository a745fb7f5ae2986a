use std::sync::Arc;

use stratum::core_types::ModelId;
use stratum::llm::LlmError;
use stratum::llm_manager::{ConfigurableLlmProvider, LlmProviderManager, ModelConfig};

#[derive(Debug)]
struct TestProvider;

impl ConfigurableLlmProvider for TestProvider {
    type Configured = ModelId;

    fn model_id(&self) -> ModelId {
        ModelId::new("test", "model").expect("static model id is valid")
    }

    fn parameter_schema(&self) -> String {
        "{\"type\":\"object\",\"additionalProperties\":false,\"default\":{}}".to_string()
    }

    fn default_model_config(&self) -> ModelConfig {
        ModelConfig { model: self.model_id(), parameters: "{}".to_string() }
    }

    fn configure(&self, parameters: &String) -> Result<ModelId, LlmError> {
        if parameters == "{}" {
            Ok(self.model_id())
        } else {
            Err(LlmError::InvalidModelParameters { model: self.model_id() })
        }
    }
}

/// A shared provider, so that lookups can be compared by identity.
struct Shared(Arc<TestProvider>);

impl ConfigurableLlmProvider for Shared {
    type Configured = ModelId;

    fn model_id(&self) -> ModelId {
        self.0.model_id()
    }

    fn parameter_schema(&self) -> String {
        self.0.parameter_schema()
    }

    fn default_model_config(&self) -> ModelConfig {
        self.0.default_model_config()
    }

    fn configure(&self, parameters: &String) -> Result<ModelId, LlmError> {
        self.0.configure(parameters)
    }
}

struct Named(&'static str, &'static str);

impl ConfigurableLlmProvider for Named {
    type Configured = ModelId;

    fn model_id(&self) -> ModelId {
        ModelId::new(self.0, self.1).expect("valid")
    }

    fn parameter_schema(&self) -> String {
        "{}".to_string()
    }

    fn default_model_config(&self) -> ModelConfig {
        ModelConfig { model: self.model_id(), parameters: "{}".to_string() }
    }

    fn configure(&self, _parameters: &String) -> Result<ModelId, LlmError> {
        Ok(self.model_id())
    }
}

#[test]
fn registered_provider_can_be_looked_up() {
    let provider = Arc::new(TestProvider);
    let model = provider.model_id();
    let mut manager = LlmProviderManager::new();

    manager
        .register(Shared(Arc::clone(&provider)))
        .expect("provider should register");

    assert!(Arc::ptr_eq(
        &provider,
        &manager.get(&model).expect("provider should be found").0
    ));
}

#[test]
fn duplicate_registration_returns_duplicate_provider_error() {
    let mut manager = LlmProviderManager::new();
    manager
        .register(TestProvider)
        .expect("provider should register");

    let error = manager
        .register(TestProvider)
        .expect_err("duplicate provider should fail");

    assert!(matches!(error, LlmError::DuplicateProvider { .. }));
}

#[test]
fn missing_provider_returns_provider_not_found_error() {
    let manager: LlmProviderManager<TestProvider> = LlmProviderManager::new();
    let model = ModelId::new("test", "model").expect("static model id is valid");

    let error = match manager.get(&model) {
        Err(error) => error,
        Ok(_) => panic!("missing provider should fail"),
    };

    assert!(matches!(error, LlmError::ProviderNotFound { .. }));
}

#[test]
fn manager_configures_registered_provider_with_model_parameters() {
    let mut manager = LlmProviderManager::new();
    let config = ModelConfig {
        model: ModelId::new("test", "model").expect("static model id is valid"),
        parameters: "{}".to_string(),
    };
    manager.register(TestProvider).expect("provider should register");

    let configured = manager.configure(&config).expect("registered provider should configure");

    assert_eq!(configured, config.model);
}

#[test]
fn configure_and_default_config_fail_for_unknown_models() {
    let manager: LlmProviderManager<TestProvider> = LlmProviderManager::new();
    let config = ModelConfig { model: ModelId::new("x", "y").unwrap(), parameters: "{}".to_string() };
    assert!(matches!(manager.configure(&config), Err(LlmError::ProviderNotFound { .. })));
    assert!(matches!(
        manager.default_model_config(&config.model),
        Err(LlmError::ProviderNotFound { .. })
    ));
}

#[test]
fn models_are_listed_in_model_id_order() {
    let mut manager = LlmProviderManager::new();
    manager.register(Named("zeta", "b")).unwrap();
    manager.register(Named("alpha", "z")).unwrap();
    manager.register(Named("alpha", "a")).unwrap();
    let listed: Vec<String> = manager.models().iter().map(|d| d.model.as_str().to_string()).collect();
    assert_eq!(listed, vec!["alpha:a", "alpha:z", "zeta:b"]);
    let default = manager.default_model_config(&ModelId::new("alpha", "z").unwrap()).unwrap();
    assert_eq!(default.model.as_str(), "alpha:z");
}

#[test]
fn model_ids_parse_only_provider_colon_model() {
    assert_eq!(ModelId::parse("openai:gpt").unwrap().as_str(), "openai:gpt");
    assert_eq!(ModelId::parse("openai:gpt").unwrap().provider_name(), "openai");
    assert_eq!(ModelId::parse("openai:gpt").unwrap().model_name(), "gpt");
    assert!(ModelId::parse("openai").is_err());
    assert!(ModelId::parse(":gpt").is_err());
    assert!(ModelId::parse("a:b:c").is_err());
    assert!(ModelId::new("", "m").is_err());
}

#[test]
fn model_ids_built_from_halves_parse_back() {
    let built = ModelId::new("deepseek", "deepseek-v4-pro").unwrap();
    let parsed = ModelId::parse(built.as_str()).unwrap();
    assert_eq!(parsed.provider_name(), "deepseek");
    assert_eq!(parsed.model_name(), "deepseek-v4-pro");
    assert!(parsed.same_as(&built));
}

#[test]
fn manager_returns_registered_default_model_config() {
    let mut manager = LlmProviderManager::new();
    let model = ModelId::new("test", "model").expect("static model id is valid");
    manager.register(TestProvider).expect("provider should register");

    let config = manager
        .default_model_config(&model)
        .expect("registered provider should have defaults");
    assert_eq!(config.model, model);
    assert_eq!(config.parameters, "{}");
}

#[test]
fn manager_lists_registered_models_with_parameter_schemas() {
    let mut manager = LlmProviderManager::new();
    manager.register(TestProvider).expect("provider should register");

    let models = manager.models();

    assert_eq!(models.len(), 1);
    assert_eq!(models[0].model.as_str(), "test:model");
    let schema: serde_json::Value =
        serde_json::from_str(&models[0].parameters_schema).expect("schema is JSON");
    assert_eq!(schema["default"], serde_json::Value::Object(serde_json::Map::new()));
}

#[test]
fn configuration_errors_of_the_provider_pass_through_unchanged() {
    let mut manager = LlmProviderManager::new();
    manager.register(TestProvider).expect("provider should register");
    let config = ModelConfig {
        model: ModelId::new("test", "model").unwrap(),
        parameters: "{\"temperature\":2}".to_string(),
    };
    match manager.configure(&config) {
        Err(LlmError::InvalidModelParameters { model }) => assert_eq!(model.as_str(), "test:model"),
        other => panic!("unexpected configuration result {other:?}"),
    }
}

#[test]
fn a_refused_duplicate_leaves_the_model_list_unchanged() {
    let mut manager = LlmProviderManager::new();
    manager.register(Named("beta", "b")).unwrap();
    manager.register(Named("alpha", "a")).unwrap();
    let before: Vec<String> = manager.models().iter().map(|d| d.model.as_str().to_string()).collect();
    match manager.register(Named("beta", "b")) {
        Err(LlmError::DuplicateProvider { model }) => assert_eq!(model.as_str(), "beta:b"),
        other => panic!("unexpected registration result {other:?}"),
    }
    let after: Vec<String> = manager.models().iter().map(|d| d.model.as_str().to_string()).collect();
    assert_eq!(before, after);
}
