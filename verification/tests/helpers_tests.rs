use coinbase_agent_kit_blueprint::agent_endpoint::DeploymentType;
use coinbase_agent_kit_blueprint::check_agent_health;
use coinbase_agent_kit_blueprint::helpers::{
    policy_for, probes_base_url, server_is_responding, tcp_address, tcp_address_of,
    wallet_setup_failed, EndpointError, UrlParts,
};
use coinbase_agent_kit_blueprint::poller::PollState;

#[test]
fn tcp_address_reads_host_and_port() {
    assert_eq!(
        tcp_address("http://localhost:3000"),
        Ok("localhost:3000".to_string())
    );
    assert_eq!(
        tcp_address("https://agent.example:8443/path?x=1"),
        Ok("agent.example:8443".to_string())
    );
}

#[test]
fn tcp_address_defaults_to_port_eighty() {
    assert_eq!(
        tcp_address("http://agent.example"),
        Ok("agent.example:80".to_string())
    );
    assert_eq!(
        tcp_address("https://agent.example"),
        Ok("agent.example:80".to_string())
    );
}

#[test]
fn tcp_address_rejects_what_is_no_url() {
    match tcp_address("localhost") {
        Err(EndpointError::InvalidUrl { reason }) => {
            assert_eq!(reason, "relative URL without a base");
        }
        other => panic!("unexpected: {:?}", other),
    }
    let e = tcp_address("").unwrap_err();
    assert!(matches!(e, EndpointError::InvalidUrl { .. }));
    assert_eq!(e.message(), "Invalid URL: relative URL without a base");
}

#[test]
fn tcp_address_rejects_a_url_without_host() {
    let e = tcp_address("data:text/plain,Stuff").unwrap_err();
    assert_eq!(e, EndpointError::NoHost);
    assert_eq!(e.message(), "No host in URL");
}

#[test]
fn tcp_address_of_parts() {
    assert_eq!(
        tcp_address_of(&UrlParts {
            host: Some("h".to_string()),
            port: Some(1),
        }),
        Ok("h:1".to_string())
    );
    assert_eq!(
        tcp_address_of(&UrlParts {
            host: Some("h".to_string()),
            port: None,
        }),
        Ok("h:80".to_string())
    );
    assert_eq!(
        tcp_address_of(&UrlParts {
            host: None,
            port: Some(1),
        }),
        Err(EndpointError::NoHost)
    );
}

#[test]
fn local_health_check_opens_a_session() {
    let check = check_agent_health("http://localhost:3000").unwrap();
    assert_eq!(check.tcp_address, "localhost:3000");
    assert_eq!(check.wait.health_url, "http://localhost:3000/health");
    assert_eq!(check.wait.policy, policy_for(DeploymentType::Local));
    assert_eq!(check.wait.state, PollState::Waiting { attempt: 1 });
}

#[test]
fn local_health_check_rejects_a_bad_endpoint() {
    assert!(matches!(
        check_agent_health("not a url"),
        Err(EndpointError::InvalidUrl { .. })
    ));
    assert_eq!(
        check_agent_health("unix:/run/agent.socket").unwrap_err(),
        EndpointError::NoHost
    );
}

#[test]
fn remote_policy_is_more_patient_than_local() {
    let local = policy_for(DeploymentType::Local);
    let tee = policy_for(DeploymentType::Tee);
    assert_eq!(local.max_attempts, 15);
    assert_eq!(local.initial_delay_ms, 1000);
    assert_eq!(local.max_delay_ms, Some(5000));
    assert_eq!(local.per_attempt_timeout_ms, 5000);
    assert_eq!(local.backoff_per_mille, 1500);
    assert_eq!(tee.max_attempts, 30);
    assert_eq!(tee.max_delay_ms, Some(15000));
    assert!(local.is_valid());
    assert!(tee.is_valid());
    assert!(tee.max_attempts > local.max_attempts);
    assert!(tee.max_delay_ms > local.max_delay_ms);
}

#[test]
fn base_url_is_probed_every_third_attempt() {
    let probed: Vec<u32> = (1..=10u32).filter(|a| probes_base_url(*a)).collect();
    assert_eq!(probed, vec![1, 4, 7, 10]);
    assert!(!probes_base_url(0));
}

#[test]
fn not_found_still_shows_a_server() {
    assert!(server_is_responding(200));
    assert!(server_is_responding(204));
    assert!(server_is_responding(404));
    assert!(!server_is_responding(403));
    assert!(!server_is_responding(500));
    assert!(!server_is_responding(301));
}

#[test]
fn wallet_failure_is_found_in_logs() {
    assert!(wallet_setup_failed(
        "boot\nError: Failed to initialize wallet: APIError 401\n"
    ));
    assert!(!wallet_setup_failed("Failed to initialize wallet"));
    assert!(!wallet_setup_failed(""));
}
