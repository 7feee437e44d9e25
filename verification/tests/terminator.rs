use certsync::secret::CertificateMaterial;
use certsync::terminator::{
    find_terminator, plan_upsert, resolve, settle, status_is_success, Algorithm, CipherSuite,
    HealthCheck, ListingReply, NewTerminator, Protocol, ResolveError, Stickiness, TerminatorConfig,
    UpsertError, UpsertRequest, WriteReply, CHECK_ATTEMPTS, CHECK_INTERVAL_SECS,
    CHECK_TIMEOUT_SECS, HTTPS_PORT,
};

fn config(id: &str, port: u16, protocol: Protocol) -> TerminatorConfig {
    TerminatorConfig { id: id.to_string(), port, protocol }
}

fn listed(configs: Vec<TerminatorConfig>) -> ListingReply {
    ListingReply::Answered { status: 200, body: String::new(), configs }
}

fn material() -> CertificateMaterial {
    CertificateMaterial::new("CERT".to_string(), "KEY".to_string()).unwrap()
}

#[test]
fn resolve_returns_the_config_on_port_443() {
    let reply = listed(vec![
        config("cfg-1", 80, Protocol::Http),
        config("cfg-2", 443, Protocol::Https),
        config("cfg-3", 8443, Protocol::Https),
    ]);
    assert_eq!(resolve(reply), Ok(Some(config("cfg-2", 443, Protocol::Https))));
}

#[test]
fn resolve_returns_none_without_a_config_on_port_443() {
    let reply = listed(vec![config("cfg-1", 80, Protocol::Http), config("cfg-3", 8443, Protocol::Https)]);
    assert_eq!(resolve(reply), Ok(None));
    assert_eq!(resolve(listed(vec![])), Ok(None));
}

#[test]
fn resolve_takes_the_first_of_several_configs_on_port_443() {
    let reply = listed(vec![
        config("cfg-1", 8080, Protocol::Http),
        config("cfg-2", 443, Protocol::Tcp),
        config("cfg-3", 443, Protocol::Https),
    ]);
    assert_eq!(resolve(reply), Ok(Some(config("cfg-2", 443, Protocol::Tcp))));
}

#[test]
fn resolve_goes_by_the_port_and_not_by_the_protocol() {
    let reply = listed(vec![config("cfg-1", 8443, Protocol::Https), config("cfg-2", 443, Protocol::Http)]);
    assert_eq!(resolve(reply), Ok(Some(config("cfg-2", 443, Protocol::Http))));
}

#[test]
fn find_terminator_gives_the_place_of_the_first_match() {
    let configs = vec![
        config("a", 80, Protocol::Http),
        config("b", 444, Protocol::Https),
        config("c", 443, Protocol::Https),
        config("d", 443, Protocol::Https),
    ];
    assert_eq!(find_terminator(&configs), Some(2));
    let others = vec![config("a", 80, Protocol::Http), config("b", 444, Protocol::Https)];
    assert_eq!(find_terminator(&others), None);
    assert_eq!(find_terminator(&vec![config("only", 443, Protocol::Https)]), Some(0));
    assert_eq!(find_terminator(&vec![]), None);
}

#[test]
fn resolve_fails_on_a_status_that_is_not_success() {
    let reply = ListingReply::Answered {
        status: 401,
        body: "{\"errors\":[{\"reason\":\"Invalid Token\"}]}".to_string(),
        configs: vec![config("cfg-2", 443, Protocol::Https)],
    };
    assert_eq!(
        resolve(reply),
        Err(ResolveError::Rejected {
            status: 401,
            body: "{\"errors\":[{\"reason\":\"Invalid Token\"}]}".to_string(),
        })
    );
}

#[test]
fn resolve_fails_where_the_call_failed() {
    assert_eq!(
        resolve(ListingReply::Failed("connection reset".to_string())),
        Err(ResolveError::Unreachable("connection reset".to_string()))
    );
}

#[test]
fn success_is_a_status_from_200_to_299() {
    assert!(!status_is_success(0));
    assert!(!status_is_success(199));
    assert!(status_is_success(200));
    assert!(status_is_success(204));
    assert!(status_is_success(299));
    assert!(!status_is_success(300));
    assert!(!status_is_success(404));
    assert!(!status_is_success(u16::MAX));
}

#[test]
fn without_a_terminator_one_is_created_with_the_fixed_configuration() {
    let request = plan_upsert(None, &material());
    assert!(
        request
            == UpsertRequest::Create(NewTerminator {
            port: 443,
            protocol: Protocol::Https,
            algorithm: Algorithm::RoundRobin,
            stickiness: Stickiness::Off,
            check: HealthCheck::HttpBody,
            check_path: "/".to_string(),
            check_interval: 30,
            check_timeout: 5,
            check_attempts: 3,
            cipher_suite: CipherSuite::Recommended,
            ssl_cert: "CERT".to_string(),
            ssl_key: "KEY".to_string(),
        })
    );
    assert!(request != plan_upsert(Some(config("cfg-7", 443, Protocol::Https)), &material()));
}

#[test]
fn the_constants_are_those_of_the_fixed_configuration() {
    assert_eq!(HTTPS_PORT, 443);
    assert_eq!(CHECK_INTERVAL_SECS, 30);
    assert_eq!(CHECK_TIMEOUT_SECS, 5);
    assert_eq!(CHECK_ATTEMPTS, 3);
}

#[test]
fn an_existing_terminator_is_updated_under_its_identifier() {
    let request = plan_upsert(Some(config("cfg-7", 443, Protocol::Http)), &material());
    let expected = UpsertRequest::Update {
        config_id: "cfg-7".to_string(),
        protocol: Protocol::Https,
        ssl_cert: "CERT".to_string(),
        ssl_key: "KEY".to_string(),
    };
    assert!(request == expected);
}

#[test]
fn a_write_is_done_under_a_success_status() {
    assert_eq!(settle(WriteReply::Answered { status: 200, body: "{}".to_string() }), Ok(()));
    assert_eq!(settle(WriteReply::Answered { status: 201, body: String::new() }), Ok(()));
}

#[test]
fn a_rejected_write_carries_the_body_of_the_answer() {
    assert_eq!(
        settle(WriteReply::Answered { status: 400, body: "ssl_cert is invalid".to_string() }),
        Err(UpsertError::Rejected { status: 400, body: "ssl_cert is invalid".to_string() })
    );
    assert_eq!(
        settle(WriteReply::Answered { status: 302, body: String::new() }),
        Err(UpsertError::Rejected { status: 302, body: String::new() })
    );
}

#[test]
fn a_failed_write_carries_the_failure_text() {
    assert_eq!(
        settle(WriteReply::Failed("timed out".to_string())),
        Err(UpsertError::Unreachable("timed out".to_string()))
    );
}

#[test]
fn remote_errors_say_what_went_wrong() {
    assert_eq!(ResolveError::Unreachable("dns".to_string()).message(), "dns");
    assert_eq!(
        ResolveError::Rejected { status: 500, body: "oops".to_string() }.message(),
        "Failed to list configs: oops"
    );
    assert_eq!(UpsertError::Unreachable("dns".to_string()).message(), "dns");
    assert_eq!(
        UpsertError::Rejected { status: 400, body: "bad cert".to_string() }.message(),
        "Failed to update config: bad cert"
    );
}
