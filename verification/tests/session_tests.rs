use docker::CreateNetworkOptions;
use docker::CreateNetworkResults;
use docker::Docker;
use docker::DockerError;
use docker::InspectNetworkOptions;
use docker::Method;
use docker::RawResponse;
use docker::ScriptedTransport;

fn canned(status: u16, body: &str) -> RawResponse {
    RawResponse { status, body: body.to_string() }
}

fn session_with(script: Vec<RawResponse>) -> Docker<ScriptedTransport> {
    Docker::new(ScriptedTransport { script, pos: 0, log: Vec::new() })
}

const DEFAULT_CERTS_BODY: &str = "{\"Name\":\"certs\",\"CheckDuplicate\":false,\"Driver\":\"\",\"Internal\":false,\"Attachable\":false,\"Ingress\":false,\"IPAM\":{\"Driver\":\"\",\"Config\":[],\"Options\":{}},\"EnableIPv6\":false,\"Options\":{},\"Labels\":{}}";

#[test]
fn create_network_end_to_end() {
    let mut session = session_with(vec![canned(201, "{\"Id\":\"abc123\",\"Warning\":\"\"}")]);
    let config = CreateNetworkOptions { name: "certs".to_string(), ..Default::default() };
    let result = session.create_network(&config).unwrap();
    assert_eq!(
        result,
        CreateNetworkResults { id: "abc123".to_string(), warning: "".to_string() }
    );
    let log = &session.transport.log;
    assert_eq!(log.len(), 1);
    assert_eq!(log[0].method, Method::Post);
    assert_eq!(log[0].path, "/networks/create");
    assert!(log[0].query.is_empty());
    assert_eq!(
        log[0].headers,
        vec![("Content-Type".to_string(), "application/json".to_string())]
    );
    assert_eq!(log[0].body.as_deref(), Some(DEFAULT_CERTS_BODY));
}

#[test]
fn remove_network_end_to_end() {
    let mut session = session_with(vec![canned(204, "")]);
    session.remove_network("my_network_name").unwrap();
    let log = &session.transport.log;
    assert_eq!(log.len(), 1);
    assert_eq!(log[0].method, Method::Delete);
    assert_eq!(log[0].path, "/networks/my_network_name");
    assert!(log[0].body.is_none());
    assert!(log[0].headers.is_empty());
    assert_eq!(log[0].uri().unwrap(), "/networks/my_network_name");
}

const INSPECT_BODY: &str = "{\"Name\":\"my_network_name\",\"Id\":\"net-1\",\"Created\":\"2019-01-01\",\"Scope\":\"global\",\"Driver\":\"bridge\",\"EnableIPv6\":false,\"IPAM\":{\"Driver\":\"default\",\"Config\":[{\"Subnet\":\"10.0.0.0/16\"}],\"Options\":{}},\"Internal\":false,\"Attachable\":true,\"Ingress\":false,\"Containers\":{\"abc\":{\"Name\":\"c1\",\"EndpointID\":\"e1\",\"MacAddress\":\"02:42\",\"IPv4Address\":\"10.0.0.2/24\",\"IPv6Address\":\"\"}},\"Options\":{\"k\":\"v\"},\"Labels\":{},\"ConfigFrom\":{},\"ConfigOnly\":false}";

#[test]
fn inspect_network_end_to_end() {
    let mut session = session_with(vec![canned(200, INSPECT_BODY)]);
    let options = InspectNetworkOptions {
        verbose: Some(true),
        scope: Some("global".to_string()),
    };
    let result = session.inspect_network("my_network_name", Some(options)).unwrap();
    assert_eq!(result.name, "my_network_name");
    assert_eq!(result.scope, "global");
    assert_eq!(result.driver, "bridge");
    assert!(result.attachable);
    assert_eq!(result.ipam.driver, "default");
    assert_eq!(result.ipam.config.len(), 1);
    assert_eq!(result.ipam.config[0].subnet.as_deref(), Some("10.0.0.0/16"));
    assert!(result.ipam.config[0].gateway.is_none());
    assert_eq!(result.containers.len(), 1);
    assert_eq!(result.containers[0].0, "abc");
    assert_eq!(result.containers[0].1.name, "c1");
    assert_eq!(result.containers[0].1.endpoint_id, "e1");
    assert_eq!(result.options, vec![("k".to_string(), "v".to_string())]);
    let log = &session.transport.log;
    assert_eq!(log[0].method, Method::Get);
    assert_eq!(
        log[0].uri().unwrap(),
        "/networks/my_network_name?verbose=true&scope=global"
    );
}

#[test]
fn remove_network_api_error() {
    let mut session = session_with(vec![canned(404, "{\"message\":\"network not found\"}")]);
    let err = session.remove_network("gone").unwrap_err();
    assert_eq!(
        err,
        DockerError::Api { status_code: 404, message: "network not found".to_string() }
    );
}

#[test]
fn chain_matches_direct() {
    let script = vec![
        canned(201, "{\"Id\":\"abc123\",\"Warning\":\"\"}"),
        canned(204, ""),
    ];
    let config = CreateNetworkOptions { name: "certs".to_string(), ..Default::default() };

    let mut direct = session_with(script.clone());
    let direct_created = direct.create_network(&config).unwrap();
    direct.remove_network("certs").unwrap();

    let chain = session_with(script).chain();
    let (chain, chained_created) = chain.create_network(&config).unwrap();
    let (chain, ()) = chain.remove_network("certs").unwrap();

    assert_eq!(direct_created, chained_created);
    assert_eq!(direct.transport.log, chain.inner.transport.log);
    assert_eq!(direct.transport.pos, chain.inner.transport.pos);
}

#[test]
fn transport_failure_is_its_own_kind() {
    let mut session = session_with(Vec::new());
    let err = session.remove_network("anything").unwrap_err();
    assert!(matches!(err, DockerError::Transport(_)));
}

#[test]
fn path_parameter_is_percent_encoded() {
    let mut session = session_with(vec![canned(204, "")]);
    session.remove_network("a b/c").unwrap();
    assert_eq!(session.transport.log[0].path, "/networks/a%20b%2Fc");
}

#[test]
fn unit_success_accepts_any_body() {
    let mut session = session_with(vec![canned(200, "some diagnostic text")]);
    assert_eq!(session.remove_network("n").unwrap(), ());
}

#[test]
fn inspect_without_options_has_no_query() {
    let mut session = session_with(vec![canned(200, INSPECT_BODY)]);
    session
        .inspect_network::<InspectNetworkOptions>("my_network_name", None)
        .unwrap();
    let log = &session.transport.log;
    assert!(log[0].query.is_empty());
    assert_eq!(log[0].uri().unwrap(), "/networks/my_network_name");
}

#[test]
fn create_network_api_error_carries_status() {
    let mut session = session_with(vec![canned(500, "{\"message\":\"boom\"}")]);
    let config = CreateNetworkOptions { name: "x".to_string(), ..Default::default() };
    let err = session.create_network(&config).unwrap_err();
    assert_eq!(err, DockerError::Api { status_code: 500, message: "boom".to_string() });
}

#[test]
fn chain_inspect_network_returns_pair() {
    let chain = session_with(vec![canned(200, INSPECT_BODY)]).chain();
    let options = InspectNetworkOptions {
        verbose: Some(true),
        scope: Some("global".to_string()),
    };
    let (chain, result) = chain.inspect_network("my_network_name", Some(options)).unwrap();
    assert_eq!(result.name, "my_network_name");
    assert_eq!(
        chain.inner.transport.log[0].uri().unwrap(),
        "/networks/my_network_name?verbose=true&scope=global"
    );
}

#[test]
fn chain_error_surfaces_the_failure() {
    let chain = session_with(Vec::new()).chain();
    match chain.remove_network("n") {
        Ok(_) => panic!("a transport without responses cannot succeed"),
        Err(err) => assert!(matches!(err, DockerError::Transport(_))),
    }
}
