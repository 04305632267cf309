use coinbase_agent_kit_blueprint::create_agent::{
    allocate_agent, creation_result, place_agent, register_agent_ports, skips_template_entry,
    AgentSlot, TeeKey,
};
use coinbase_agent_kit_blueprint::ports::{PortError, PortRegistry};
use coinbase_agent_kit_blueprint::{
    create_env_file, AgentConfig, AgentCreationResult, AgentMode, AgentPortConfig, ApiKeyConfig,
    CreateAgentParams, DeploymentConfig, ServiceContext,
};

const TEMPLATE: &str =
    "OPENAI_API_KEY=your_openai_api_key_here\nAGENT_MODE=cli-chat\n# MODEL=gpt-4o-mini\nAGENT_PORT=3000\n";

fn context(base: Option<&str>, registry: Option<PortRegistry>) -> ServiceContext {
    ServiceContext {
        call_id: None,
        agents_base_dir: base.map(|s| s.to_string()),
        tee_enabled: Some(false),
        phala_tee_api_endpoint: None,
        phala_tee_api_key: None,
        agent_ports: registry,
    }
}

fn params(key: Option<&str>, mode: AgentMode, model: &str, port: Option<u16>) -> CreateAgentParams {
    CreateAgentParams {
        name: "Test Agent".to_string(),
        agent_config: AgentConfig {
            mode,
            model: model.to_string(),
        },
        deployment_config: DeploymentConfig {
            tee_enabled: false,
            docker_compose_path: None,
            http_port: port,
        },
        api_key_config: ApiKeyConfig {
            openai_api_key: key.map(|s| s.to_string()),
            cdp_api_key_name: None,
            cdp_api_key_private_key: None,
        },
    }
}

#[test]
fn new_agent_gets_a_random_identifier() {
    let ctx = context(None, None);
    let a = allocate_agent(&ctx);
    let b = allocate_agent(&ctx);
    assert_ne!(a.agent_id, b.agent_id);
    for slot in [&a, &b] {
        let id: Vec<char> = slot.agent_id.chars().collect();
        assert_eq!(id.len(), 36);
        for (i, c) in id.iter().enumerate() {
            if i == 8 || i == 13 || i == 18 || i == 23 {
                assert_eq!(*c, '-');
            } else {
                assert!(c.is_ascii_digit() || ('a'..='f').contains(c));
            }
        }
        assert_eq!(id[14], '4');
        assert_eq!(slot.base_dir, "./agents");
        assert_eq!(slot.app_name, format!("coinbase-agent-{}", slot.agent_id));
    }
}

#[test]
fn agent_is_placed_under_the_configured_directory() {
    let ctx = context(Some("/srv/agents"), None);
    assert_eq!(
        place_agent("abc".to_string(), &ctx),
        AgentSlot {
            agent_id: "abc".to_string(),
            base_dir: "/srv/agents".to_string(),
            app_name: "coinbase-agent-abc".to_string(),
        }
    );
    assert_eq!(ctx.agents_dir(), "/srv/agents");
    assert_eq!(context(None, None).agents_dir(), "./agents");
}

#[test]
fn ports_are_registered_where_a_registry_is_kept() {
    let mut ctx = context(None, Some(PortRegistry::new()));
    let expected = AgentPortConfig {
        http_port: 3000,
        websocket_port: 3001,
    };
    assert_eq!(register_agent_ports("abc", None, &mut ctx), Ok(expected));
    assert_eq!(ctx.agent_ports.as_ref().unwrap().get("abc"), Some(expected));
    let other = AgentPortConfig {
        http_port: 10000,
        websocket_port: 10001,
    };
    assert_eq!(register_agent_ports("def", Some(10000), &mut ctx), Ok(other));
    assert_eq!(ctx.agent_ports.as_ref().unwrap().get("def"), Some(other));
    assert_eq!(ctx.agent_ports.as_ref().unwrap().get("abc"), Some(expected));
}

#[test]
fn ports_are_derived_without_a_registry() {
    let mut ctx = context(None, None);
    assert_eq!(
        register_agent_ports("abc", Some(8080), &mut ctx),
        Ok(AgentPortConfig {
            http_port: 8080,
            websocket_port: 8081,
        })
    );
    assert_eq!(ctx, context(None, None));
}

#[test]
fn highest_port_registers_nothing() {
    let mut ctx = context(None, Some(PortRegistry::new()));
    assert_eq!(
        register_agent_ports("abc", Some(65535), &mut ctx),
        Err(PortError::NoCompanionPort)
    );
    assert_eq!(ctx.agent_ports.as_ref().unwrap().get("abc"), None);
    assert_eq!(ctx.agent_ports.as_ref().unwrap().len(), 0);
}

#[test]
fn dependency_directories_are_not_copied() {
    assert!(skips_template_entry("node_modules"));
    assert!(skips_template_entry(".yarn"));
    assert!(!skips_template_entry("package.json"));
    assert!(!skips_template_entry(".env.example"));
    assert!(!skips_template_entry("node_modules2"));
    assert!(!skips_template_entry(""));
}

#[test]
fn env_file_fills_the_template() {
    let p = params(Some("sk-test"), AgentMode::Autonomous, "gpt-4o", Some(8080));
    assert_eq!(
        create_env_file(&p, TEMPLATE),
        "OPENAI_API_KEY=sk-test\nAGENT_MODE=autonomous\nMODEL=gpt-4o\nAGENT_PORT=8080\n"
    );
}

#[test]
fn env_file_keeps_placeholders_that_were_not_given() {
    let p = params(None, AgentMode::Chat, "gpt-4o-mini", None);
    assert_eq!(
        create_env_file(&p, TEMPLATE),
        "OPENAI_API_KEY=your_openai_api_key_here\nAGENT_MODE=chat\nMODEL=gpt-4o-mini\nAGENT_PORT=3000\n"
    );
}

#[test]
fn env_file_without_placeholders_is_unchanged() {
    let p = params(Some("k"), AgentMode::Chat, "m", Some(1));
    assert_eq!(create_env_file(&p, "FOO=bar\n"), "FOO=bar\n");
    assert_eq!(create_env_file(&p, ""), "");
}

#[test]
fn creation_result_lists_three_files() {
    let r = creation_result(
        "abc".to_string(),
        "/a/abc/.env".to_string(),
        "/a/abc/package.json".to_string(),
        "/a/abc/docker-compose.yml".to_string(),
        None,
    );
    assert_eq!(
        r,
        AgentCreationResult {
            agent_id: "abc".to_string(),
            files_created: vec![
                "/a/abc/.env".to_string(),
                "/a/abc/package.json".to_string(),
                "/a/abc/docker-compose.yml".to_string(),
            ],
            tee_pubkey: None,
            tee_app_id: None,
            tee_salt: None,
        }
    );
    assert_eq!(r.files_created.len(), 3);
}

#[test]
fn creation_result_carries_the_key_material() {
    let r = creation_result(
        "abc".to_string(),
        "e".to_string(),
        "p".to_string(),
        "c".to_string(),
        Some(TeeKey {
            pubkey: "pk".to_string(),
            app_id: "app".to_string(),
            salt: "salt".to_string(),
        }),
    );
    assert_eq!(r.tee_pubkey, Some("pk".to_string()));
    assert_eq!(r.tee_app_id, Some("app".to_string()));
    assert_eq!(r.tee_salt, Some("salt".to_string()));
}
