use opaque_pake::{
    create_server_registration_response, create_server_setup, finish_client_login, finish_client_registration,
    finish_server_login, finish_server_registration, get_server_public_key, start_client_login,
    start_client_registration, start_server_login, CreateServerRegistrationResponseParams, CustomIdentifiers, Error,
    FinishClientLoginParams, FinishClientLoginResult, FinishClientRegistrationParams, FinishServerLoginParams,
    KeyStretchingFunctionConfig, StartClientLoginParams, StartClientRegistrationParams, StartServerLoginParams,
};
use base64::Engine as _;

fn cheap() -> Option<KeyStretchingFunctionConfig> {
    Some(KeyStretchingFunctionConfig::Custom { iterations: 1, memory: 64, parallelism: 1 })
}

fn ids(client: Option<&str>, server: Option<&str>) -> Option<CustomIdentifiers> {
    Some(CustomIdentifiers { client: client.map(String::from), server: server.map(String::from) })
}

fn decode(text: &str) -> Vec<u8> {
    base64::engine::general_purpose::URL_SAFE_NO_PAD.decode(text).unwrap()
}

fn encode(bytes: &[u8]) -> String {
    base64::engine::general_purpose::URL_SAFE_NO_PAD.encode(bytes)
}

fn flip_byte(text: &str, index: usize) -> String {
    let mut bytes = decode(text);
    bytes[index] ^= 0x01;
    encode(&bytes)
}

/// Registers `password` for `user`; gives the stored record, the export key and
/// the server key the client saw.
fn register(setup: &str, user: &str, password: &str, identifiers: Option<CustomIdentifiers>) -> (String, String, String) {
    let start = start_client_registration(StartClientRegistrationParams { password: password.to_string() }).unwrap();
    let response = create_server_registration_response(CreateServerRegistrationResponseParams {
        server_setup: setup.to_string(),
        user_identifier: user.to_string(),
        registration_request: start.registration_request,
    })
    .unwrap();
    let finish = finish_client_registration(FinishClientRegistrationParams {
        password: password.to_string(),
        registration_response: response.registration_response,
        client_registration_state: start.client_registration_state,
        identifiers,
        key_stretching_function_config: cheap(),
    })
    .unwrap();
    let record = finish_server_registration(finish.registration_record).unwrap();
    (record, finish.export_key, finish.server_static_public_key)
}

/// Runs a login up to the client's finish; gives the client's outcome and the
/// server's state.
fn login(
    setup: &str,
    record: Option<String>,
    user: &str,
    password: &str,
    client_ids: Option<CustomIdentifiers>,
    server_ids: Option<CustomIdentifiers>,
) -> (Option<FinishClientLoginResult>, String) {
    let start = start_client_login(StartClientLoginParams { password: password.to_string() }).unwrap();
    let server = start_server_login(StartServerLoginParams {
        server_setup: setup.to_string(),
        registration_record: record,
        start_login_request: start.start_login_request,
        user_identifier: user.to_string(),
        identifiers: server_ids,
    })
    .unwrap();
    let finish = finish_client_login(FinishClientLoginParams {
        client_login_state: start.client_login_state,
        login_response: server.login_response,
        password: password.to_string(),
        identifiers: client_ids,
        key_stretching_function_config: cheap(),
    })
    .unwrap();
    (finish, server.server_login_state)
}

#[test]
fn round_trip_gives_matching_keys() {
    let setup = create_server_setup();
    let (record, export_key, server_key) = register(&setup, "alice@example.com", "hunter42", None);
    let (client, server_state) = login(&setup, Some(record), "alice@example.com", "hunter42", None, None);
    let client = client.expect("the right password logs in");
    let server = finish_server_login(FinishServerLoginParams {
        server_login_state: server_state,
        finish_login_request: client.finish_login_request.clone(),
    })
    .unwrap();
    assert_eq!(client.session_key, server.session_key);
    assert_eq!(client.export_key, export_key);
    assert_eq!(client.server_static_public_key, server_key);
    assert_eq!(get_server_public_key(setup).unwrap(), server_key);
    assert_eq!(decode(&client.session_key).len(), 64);
    assert_eq!(decode(&client.finish_login_request).len(), 64);
}

#[test]
fn round_trip_with_identifiers() {
    let setup = create_server_setup();
    let both = || ids(Some("alice"), Some("example.com"));
    let (record, export_key, _) = register(&setup, "alice", "pw", both());
    let (client, server_state) = login(&setup, Some(record), "alice", "pw", both(), both());
    let client = client.expect("matching identifiers log in");
    let server = finish_server_login(FinishServerLoginParams {
        server_login_state: server_state,
        finish_login_request: client.finish_login_request.clone(),
    })
    .unwrap();
    assert_eq!(client.session_key, server.session_key);
    assert_eq!(client.export_key, export_key);
}

#[test]
fn wrong_password_is_rejected() {
    let setup = create_server_setup();
    let (record, _, _) = register(&setup, "bob", "correct horse", None);
    let (client, _) = login(&setup, Some(record.clone()), "bob", "battery staple", None, None);
    assert!(client.is_none());

    // A finalization that does not belong to the server's session is refused.
    let (good, _) = login(&setup, Some(record.clone()), "bob", "correct horse", None, None);
    let (_, other_state) = login(&setup, Some(record), "bob", "correct horse", None, None);
    let server = finish_server_login(FinishServerLoginParams {
        server_login_state: other_state,
        finish_login_request: good.unwrap().finish_login_request,
    });
    assert!(matches!(server, Err(Error::Protocol { context: "finish server login", .. })));
}

#[test]
fn unknown_user_response_has_the_same_shape() {
    let setup = create_server_setup();
    let (record, _, _) = register(&setup, "carol", "pw", None);
    let start = start_client_login(StartClientLoginParams { password: "pw".to_string() }).unwrap();
    let known = start_server_login(StartServerLoginParams {
        server_setup: setup.clone(),
        registration_record: Some(record),
        start_login_request: start.start_login_request.clone(),
        user_identifier: "carol".to_string(),
        identifiers: None,
    })
    .unwrap();
    let unknown = start_server_login(StartServerLoginParams {
        server_setup: setup.clone(),
        registration_record: None,
        start_login_request: start.start_login_request,
        user_identifier: "mallory".to_string(),
        identifiers: None,
    })
    .unwrap();
    assert_eq!(known.login_response.len(), unknown.login_response.len());
    assert_eq!(decode(&unknown.login_response).len(), 320);
    assert_eq!(known.login_response.len(), 427);
    assert_eq!(known.server_login_state.len(), unknown.server_login_state.len());
    assert_ne!(known.login_response, unknown.login_response);

    let (client, _) = login(&setup, None, "mallory", "pw", None, None);
    assert!(client.is_none());
}

#[test]
fn tampered_registration_response_is_not_accepted() {
    let setup = create_server_setup();
    for index in [0usize, 31, 32, 63] {
        let start = start_client_registration(StartClientRegistrationParams { password: "pw".to_string() }).unwrap();
        let response = create_server_registration_response(CreateServerRegistrationResponseParams {
            server_setup: setup.clone(),
            user_identifier: "dave".to_string(),
            registration_request: start.registration_request,
        })
        .unwrap();
        let finish = finish_client_registration(FinishClientRegistrationParams {
            password: "pw".to_string(),
            registration_response: flip_byte(&response.registration_response, index),
            client_registration_state: start.client_registration_state,
            identifiers: None,
            key_stretching_function_config: cheap(),
        });
        // A changed element either fails to decode or enrolls a record that
        // the real server key cannot log in with.
        match finish {
            Err(e) => assert!(matches!(e, Error::Protocol { .. })),
            Ok(done) => {
                let record = finish_server_registration(done.registration_record).unwrap();
                let (client, _) = login(&setup, Some(record), "dave", "pw", None, None);
                assert!(client.is_none());
            }
        }
    }
}

#[test]
fn tampered_login_response_is_rejected() {
    let setup = create_server_setup();
    let (record, _, _) = register(&setup, "erin", "pw", None);
    for index in [0usize, 40, 100, 200, 319] {
        let start = start_client_login(StartClientLoginParams { password: "pw".to_string() }).unwrap();
        let server = start_server_login(StartServerLoginParams {
            server_setup: setup.clone(),
            registration_record: Some(record.clone()),
            start_login_request: start.start_login_request,
            user_identifier: "erin".to_string(),
            identifiers: None,
        })
        .unwrap();
        let finish = finish_client_login(FinishClientLoginParams {
            client_login_state: start.client_login_state,
            login_response: flip_byte(&server.login_response, index),
            password: "pw".to_string(),
            identifiers: None,
            key_stretching_function_config: cheap(),
        });
        assert!(matches!(finish, Ok(None) | Err(Error::Protocol { .. })));
    }
}

#[test]
fn tampered_finalization_is_rejected() {
    let setup = create_server_setup();
    let (record, _, _) = register(&setup, "frank", "pw", None);
    for index in [0usize, 63] {
        let (client, state) = login(&setup, Some(record.clone()), "frank", "pw", None, None);
        let client = client.unwrap();
        let server = finish_server_login(FinishServerLoginParams {
            server_login_state: state,
            finish_login_request: flip_byte(&client.finish_login_request, index),
        });
        assert!(matches!(server, Err(Error::Protocol { context: "finish server login", .. })));
    }
}

#[test]
fn record_is_bound_to_its_setup() {
    let setup_a = create_server_setup();
    let setup_b = create_server_setup();
    assert_ne!(setup_a, setup_b);
    let (record, _, _) = register(&setup_a, "grace", "pw", None);
    let (client, _) = login(&setup_b, Some(record), "grace", "pw", None, None);
    assert!(client.is_none());
}

#[test]
fn identifiers_are_bound() {
    let setup = create_server_setup();
    let (record, _, _) = register(&setup, "heidi", "pw", ids(Some("alice"), None));
    let (client, _) =
        login(&setup, Some(record), "heidi", "pw", ids(Some("bob"), None), ids(Some("bob"), None));
    assert!(client.is_none());
}

#[test]
fn zero_costs_are_a_configuration_error() {
    let zero = Some(KeyStretchingFunctionConfig::Custom { iterations: 0, memory: 0, parallelism: 0 });
    let registration = finish_client_registration(FinishClientRegistrationParams {
        password: "pw".to_string(),
        registration_response: "not base64 !".to_string(),
        client_registration_state: "".to_string(),
        identifiers: None,
        key_stretching_function_config: zero,
    });
    match registration {
        Err(e) => {
            assert!(matches!(e, Error::Configuration { context: "Invalid keyStretching (argon2id) combination", .. }));
            assert!(e.message().starts_with("Internal error at \"Invalid keyStretching (argon2id) combination\""));
        }
        Ok(_) => panic!("zero costs were accepted"),
    }
    let login = finish_client_login(FinishClientLoginParams {
        client_login_state: "".to_string(),
        login_response: "".to_string(),
        password: "pw".to_string(),
        identifiers: None,
        key_stretching_function_config: zero,
    });
    match login {
        Err(e) => assert!(e.message().starts_with("Internal error at \"Invalid keyStretching (argon2id) combination\"")),
        Ok(_) => panic!("zero costs were accepted"),
    }
}

#[test]
fn too_little_memory_per_lane_is_a_configuration_error() {
    let config = Some(KeyStretchingFunctionConfig::Custom { iterations: 1, memory: 31, parallelism: 4 });
    let login = finish_client_login(FinishClientLoginParams {
        client_login_state: "".to_string(),
        login_response: "".to_string(),
        password: "pw".to_string(),
        identifiers: None,
        key_stretching_function_config: config,
    });
    assert!(matches!(login, Err(Error::Configuration { .. })));
    let huge = Some(KeyStretchingFunctionConfig::Custom { iterations: 1, memory: u32::MAX, parallelism: u32::MAX });
    let login = finish_client_login(FinishClientLoginParams {
        client_login_state: "".to_string(),
        login_response: "".to_string(),
        password: "pw".to_string(),
        identifiers: None,
        key_stretching_function_config: huge,
    });
    assert!(matches!(login, Err(Error::Configuration { .. })));
}

#[test]
fn other_stretching_costs_are_rejected() {
    let setup = create_server_setup();
    let (record, _, _) = register(&setup, "ivan", "pw", None);
    let start = start_client_login(StartClientLoginParams { password: "pw".to_string() }).unwrap();
    let server = start_server_login(StartServerLoginParams {
        server_setup: setup,
        registration_record: Some(record),
        start_login_request: start.start_login_request,
        user_identifier: "ivan".to_string(),
        identifiers: None,
    })
    .unwrap();
    let finish = finish_client_login(FinishClientLoginParams {
        client_login_state: start.client_login_state,
        login_response: server.login_response,
        password: "pw".to_string(),
        identifiers: None,
        key_stretching_function_config: Some(KeyStretchingFunctionConfig::Custom {
            iterations: 2,
            memory: 64,
            parallelism: 1,
        }),
    })
    .unwrap();
    assert!(finish.is_none());
}
