use docker::decode::decode_create_network_response;
use docker::decode::decode_unit_response;
use docker::encode::serialize_payload;
use docker::request::build_request;
use docker::CreateNetworkOptions;
use docker::DockerError;
use docker::InspectNetworkOptions;
use docker::InspectNetworkQueryParams;
use docker::Method;
use docker::RawResponse;
use docker::IPAM;
use docker::IPAMConfig;

fn reply(status: u16, body: &str) -> RawResponse {
    RawResponse { status, body: body.to_string() }
}

#[test]
fn query_encoder_all_absent_is_empty() {
    let pairs = InspectNetworkOptions::default().into_array().unwrap();
    assert!(pairs.is_empty());
}

#[test]
fn query_encoder_boolean_tokens() {
    let on = InspectNetworkOptions { verbose: Some(true), scope: None };
    assert_eq!(
        on.into_array().unwrap(),
        vec![("verbose".to_string(), "true".to_string())]
    );
    let off = InspectNetworkOptions { verbose: Some(false), scope: None };
    assert_eq!(
        off.into_array().unwrap(),
        vec![("verbose".to_string(), "false".to_string())]
    );
}

#[test]
fn query_encoder_keeps_declared_order() {
    let both = InspectNetworkOptions {
        verbose: Some(true),
        scope: Some("swarm".to_string()),
    };
    assert_eq!(
        both.into_array().unwrap(),
        vec![
            ("verbose".to_string(), "true".to_string()),
            ("scope".to_string(), "swarm".to_string()),
        ]
    );
}

fn sample_query() -> Vec<(String, String)> {
    vec![("verbose".to_string(), "true".to_string())]
}

#[test]
fn request_builder_is_deterministic() {
    let one = build_request(Method::Get, "/networks/", Some("n1"), sample_query(), None).unwrap();
    let two = build_request(Method::Get, "/networks/", Some("n1"), sample_query(), None).unwrap();
    assert_eq!(one, two);
    assert_eq!(one.uri().unwrap(), two.uri().unwrap());
}

#[test]
fn request_builder_query_is_percent_encoded() {
    let query = vec![("k 1".to_string(), "v/2".to_string())];
    let built = build_request(Method::Get, "/x", None, query, None).unwrap();
    assert_eq!(built.uri().unwrap(), "/x?k%201=v%2F2");
}

#[test]
fn unknown_field_is_a_decode_error() {
    let response = reply(201, "{\"Id\":\"a\",\"Warning\":\"\",\"Extra\":1}");
    let err = decode_create_network_response(&response).unwrap_err();
    assert!(matches!(err, DockerError::Decode(_)));
}

#[test]
fn duplicate_field_is_a_decode_error() {
    let response = reply(201, "{\"Id\":\"a\",\"Id\":\"b\",\"Warning\":\"\"}");
    assert!(matches!(
        decode_create_network_response(&response).unwrap_err(),
        DockerError::Decode(_)
    ));
}

#[test]
fn missing_field_is_a_decode_error() {
    let response = reply(201, "{\"Id\":\"a\"}");
    assert!(matches!(
        decode_create_network_response(&response).unwrap_err(),
        DockerError::Decode(_)
    ));
}

#[test]
fn wrong_shape_is_a_decode_error() {
    let response = reply(201, "{\"Id\":5,\"Warning\":\"\"}");
    assert!(matches!(
        decode_create_network_response(&response).unwrap_err(),
        DockerError::Decode(_)
    ));
}

#[test]
fn unparsable_body_is_a_decode_error() {
    let response = reply(201, "not json at all");
    assert!(matches!(
        decode_create_network_response(&response).unwrap_err(),
        DockerError::Decode(_)
    ));
}

#[test]
fn string_escapes_are_decoded() {
    let response = reply(200, "{\"Id\":\"a\\\"b\",\"Warning\":\"line\\nbreak\\\\end\"}");
    let result = decode_create_network_response(&response).unwrap();
    assert_eq!(result.id, "a\"b");
    assert_eq!(result.warning, "line\nbreak\\end");
}

#[test]
fn whitespace_between_tokens_is_tolerated() {
    let response = reply(200, " { \"Id\" : \"a\" ,\n\t\"Warning\" : \"\" } ");
    let result = decode_create_network_response(&response).unwrap();
    assert_eq!(result.id, "a");
}

#[test]
fn serialize_payload_exact_text() {
    let config = CreateNetworkOptions {
        name: "net1".to_string(),
        check_duplicate: true,
        driver: "bridge".to_string(),
        internal: false,
        attachable: false,
        ingress: true,
        ipam: IPAM {
            driver: "default".to_string(),
            config: vec![IPAMConfig {
                subnet: Some("10.0.0.0/16".to_string()),
                ip_range: None,
                gateway: Some("10.0.0.1".to_string()),
                aux_address: Some(vec![("dev0".to_string(), "10.0.0.5".to_string())]),
            }],
            options: vec![("o1".to_string(), "v1".to_string())],
        },
        enable_ipv6: true,
        options: vec![
            ("a".to_string(), "1".to_string()),
            ("b".to_string(), "2".to_string()),
        ],
        labels: vec![("l".to_string(), "m".to_string())],
    };
    let expected = "{\"Name\":\"net1\",\"CheckDuplicate\":true,\"Driver\":\"bridge\",\"Internal\":false,\"Attachable\":false,\"Ingress\":true,\"IPAM\":{\"Driver\":\"default\",\"Config\":[{\"Subnet\":\"10.0.0.0/16\",\"IPRange\":null,\"Gateway\":\"10.0.0.1\",\"AuxAddress\":{\"dev0\":\"10.0.0.5\"}}],\"Options\":{\"o1\":\"v1\"}},\"EnableIPv6\":true,\"Options\":{\"a\":\"1\",\"b\":\"2\"},\"Labels\":{\"l\":\"m\"}}";
    assert_eq!(serialize_payload(&config).unwrap(), expected);
}

#[test]
fn serialize_payload_escapes_strings() {
    let config = CreateNetworkOptions {
        name: "a\"b\\c\nd".to_string(),
        ..Default::default()
    };
    let body = serialize_payload(&config).unwrap();
    assert!(body.starts_with("{\"Name\":\"a\\\"b\\\\c\\nd\","));
}

#[test]
fn serialize_payload_rejects_control_characters() {
    let config = CreateNetworkOptions {
        name: "bad\u{1}name".to_string(),
        ..Default::default()
    };
    assert_eq!(serialize_payload(&config).unwrap_err(), DockerError::Encoding);
}

#[test]
fn error_message_falls_back_to_raw_body() {
    let err = decode_unit_response(&reply(500, "oops not json")).unwrap_err();
    assert_eq!(
        err,
        DockerError::Api { status_code: 500, message: "oops not json".to_string() }
    );
}

#[test]
fn error_body_with_extra_fields_falls_back() {
    let body = "{\"message\":\"x\",\"extra\":\"y\"}";
    let err = decode_unit_response(&reply(500, body)).unwrap_err();
    assert_eq!(err, DockerError::Api { status_code: 500, message: body.to_string() });
}

#[test]
fn status_band_edges() {
    assert!(decode_unit_response(&reply(299, "")).is_ok());
    assert!(decode_unit_response(&reply(300, "")).is_err());
    assert!(decode_unit_response(&reply(199, "")).is_err());
}

#[test]
fn null_optional_field_reads_as_absent() {
    let body = "{\"Name\":\"n\",\"Id\":\"i\",\"Created\":\"c\",\"Scope\":\"local\",\"Driver\":\"d\",\"EnableIPv6\":false,\"IPAM\":{\"Driver\":\"\",\"Config\":[{\"Subnet\":null}],\"Options\":{}},\"Internal\":false,\"Attachable\":false,\"Ingress\":false,\"Containers\":{},\"Options\":{},\"Labels\":{},\"ConfigFrom\":{},\"ConfigOnly\":false}";
    let result =
        docker::decode::decode_inspect_network_response(&reply(200, body)).unwrap();
    assert_eq!(result.ipam.config.len(), 1);
    assert!(result.ipam.config[0].subnet.is_none());
    assert!(result.ipam.config[0].aux_address.is_none());
}

#[test]
fn all_short_escapes_decode() {
    let response = reply(200, "{\"Id\":\"\\/x\\ty\",\"Warning\":\"\\b\\f\\r\"}");
    let result = decode_create_network_response(&response).unwrap();
    assert_eq!(result.id, "/x\ty");
    assert_eq!(result.warning, "\u{8}\u{c}\r");
}

#[test]
fn unicode_escape_is_not_accepted() {
    let response = reply(200, "{\"Id\":\"\\u0041\",\"Warning\":\"\"}");
    assert!(matches!(
        decode_create_network_response(&response).unwrap_err(),
        DockerError::Decode(_)
    ));
}

#[test]
fn parser_handles_nested_values() {
    let text: Vec<char> = "[[true,null],{\"a\":[-1.5e3]},\"s\"]".chars().collect();
    assert!(docker::json::parse_json(&text).is_some());
}

#[test]
fn parser_rejects_trailing_text() {
    let text: Vec<char> = "{} trailing".chars().collect();
    assert!(docker::json::parse_json(&text).is_none());
    let empty: Vec<char> = Vec::new();
    assert!(docker::json::parse_json(&empty).is_none());
}
