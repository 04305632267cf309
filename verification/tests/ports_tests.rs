use coinbase_agent_kit_blueprint::ports::{derive_ports, PortError, PortRegistry};
use coinbase_agent_kit_blueprint::AgentPortConfig;

#[test]
fn default_ports_are_3000_and_3001() {
    assert_eq!(
        derive_ports(None),
        Ok(AgentPortConfig {
            http_port: 3000,
            websocket_port: 3001,
        })
    );
}

#[test]
fn websocket_port_follows_the_http_port() {
    assert_eq!(
        derive_ports(Some(8080)),
        Ok(AgentPortConfig {
            http_port: 8080,
            websocket_port: 8081,
        })
    );
    assert_eq!(
        derive_ports(Some(0)),
        Ok(AgentPortConfig {
            http_port: 0,
            websocket_port: 1,
        })
    );
    assert_eq!(
        derive_ports(Some(65534)),
        Ok(AgentPortConfig {
            http_port: 65534,
            websocket_port: 65535,
        })
    );
}

#[test]
fn highest_port_has_no_companion() {
    assert_eq!(derive_ports(Some(65535)), Err(PortError::NoCompanionPort));
}

#[test]
fn registry_remembers_and_replaces() {
    let a = AgentPortConfig {
        http_port: 3000,
        websocket_port: 3001,
    };
    let b = AgentPortConfig {
        http_port: 4000,
        websocket_port: 4001,
    };
    let mut registry = PortRegistry::new();
    assert_eq!(registry.len(), 0);
    assert_eq!(registry.get("one"), None);
    registry.set("one".to_string(), a);
    registry.set("two".to_string(), b);
    assert_eq!(registry.len(), 2);
    assert_eq!(registry.get("one"), Some(a));
    assert_eq!(registry.get("two"), Some(b));
    assert_eq!(registry.get("three"), None);
    assert_eq!(registry.get("on"), None);
    assert_eq!(registry.get("one "), None);
    registry.set("one".to_string(), b);
    assert_eq!(registry.len(), 2);
    assert_eq!(registry.get("one"), Some(b));
    assert_eq!(registry.get("two"), Some(b));
}
