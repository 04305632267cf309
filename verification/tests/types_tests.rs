use coinbase_agent_kit_blueprint::types::{AgentConfig, AgentMode};

#[test]
fn test_agent_config() {
    let config = AgentConfig {
        mode: AgentMode::Autonomous,
        model: "gpt-4o-mini".to_string(),
    };

    assert!(matches!(config.mode, AgentMode::Autonomous));
}

#[test]
fn agent_mode_names() {
    assert_eq!(AgentMode::Autonomous.to_string(), "Autonomous");
    assert_eq!(AgentMode::Chat.to_string(), "Chat");
    assert_eq!(AgentMode::Autonomous.env_value(), "autonomous");
    assert_eq!(AgentMode::Chat.env_value(), "chat");
}

#[test]
fn clones_are_equal() {
    let keys = coinbase_agent_kit_blueprint::ApiKeyConfig {
        openai_api_key: Some("a".to_string()),
        cdp_api_key_name: None,
        cdp_api_key_private_key: Some("c".to_string()),
    };
    let create = coinbase_agent_kit_blueprint::CreateAgentParams {
        name: "Test Agent".to_string(),
        agent_config: AgentConfig {
            mode: AgentMode::Chat,
            model: "gpt-4o-mini".to_string(),
        },
        deployment_config: coinbase_agent_kit_blueprint::DeploymentConfig {
            tee_enabled: true,
            docker_compose_path: Some("docker-compose.yml".to_string()),
            http_port: Some(3000),
        },
        api_key_config: keys.clone(),
    };
    assert_eq!(create.clone(), create);
    let deploy = coinbase_agent_kit_blueprint::DeployAgentParams {
        agent_id: "abc".to_string(),
        api_key_config: Some(keys),
        encrypted_env: Some("enc".to_string()),
        tee_pubkey: None,
        tee_app_id: Some("app".to_string()),
        tee_salt: None,
    };
    assert_eq!(deploy.clone(), deploy);
    let created = coinbase_agent_kit_blueprint::AgentCreationResult {
        agent_id: "abc".to_string(),
        files_created: vec!["a".to_string(), "b".to_string(), "c".to_string()],
        tee_pubkey: Some("pk".to_string()),
        tee_app_id: None,
        tee_salt: Some("salt".to_string()),
    };
    assert_eq!(created.clone(), created);
    let deployed = coinbase_agent_kit_blueprint::AgentDeploymentResult {
        agent_id: "abc".to_string(),
        tee_pubkey: Some("pk".to_string()),
        tee_app_id: None,
    };
    assert_eq!(deployed.clone(), deployed);
}

#[test]
fn copies_of_texts_are_equal() {
    let items = vec!["x".to_string(), String::new(), "z".to_string()];
    assert_eq!(coinbase_agent_kit_blueprint::text::copy_texts(&items), items);
    assert_eq!(
        coinbase_agent_kit_blueprint::text::copy_texts(&Vec::new()),
        Vec::<String>::new()
    );
    assert_eq!(
        coinbase_agent_kit_blueprint::text::copy_text(&Some("x".to_string())),
        Some("x".to_string())
    );
    assert_eq!(coinbase_agent_kit_blueprint::text::copy_text(&None), None);
}
