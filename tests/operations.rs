use opaque_pake::stretching::{build_argon2_ksf, get_custom_ksf, StretchCosts};
use opaque_pake::{
    create_server_registration_response, create_server_setup, finish_client_login, finish_server_login,
    finish_server_registration, get_server_public_key, start_client_registration, start_server_login,
    CreateServerRegistrationResponseParams, Error, FinishClientLoginParams, FinishServerLoginParams,
    KeyStretchingFunctionConfig, StartClientRegistrationParams, StartServerLoginParams,
};
use base64::Engine as _;

fn decode(text: &str) -> Vec<u8> {
    base64::engine::general_purpose::URL_SAFE_NO_PAD.decode(text).unwrap()
}

#[test]
fn named_configurations_have_their_costs() {
    assert_eq!(
        KeyStretchingFunctionConfig::costs(None),
        StretchCosts { iterations: 1, memory: 2097151, parallelism: 4 }
    );
    assert_eq!(
        KeyStretchingFunctionConfig::costs(Some(KeyStretchingFunctionConfig::Recommended)),
        StretchCosts { iterations: 1, memory: 2097151, parallelism: 4 }
    );
    assert_eq!(
        KeyStretchingFunctionConfig::costs(Some(KeyStretchingFunctionConfig::MemoryConstrained)),
        StretchCosts { iterations: 3, memory: 65536, parallelism: 4 }
    );
    assert_eq!(
        KeyStretchingFunctionConfig::costs(Some(KeyStretchingFunctionConfig::Custom {
            iterations: 5,
            memory: 100,
            parallelism: 2
        })),
        StretchCosts { iterations: 5, memory: 100, parallelism: 2 }
    );
}

#[test]
fn argon2_limits() {
    assert!(build_argon2_ksf(1, 8, 1).is_ok());
    assert!(build_argon2_ksf(1, 32, 4).is_ok());
    assert!(build_argon2_ksf(1, 31, 4).is_err());
    assert!(build_argon2_ksf(0, 64, 1).is_err());
    assert!(build_argon2_ksf(1, 64, 0).is_err());
    assert!(build_argon2_ksf(1, 7, 1).is_err());
    assert!(build_argon2_ksf(1, u32::MAX, 0xFFFFFF).is_ok());
    assert!(build_argon2_ksf(1, u32::MAX, 0x1000000).is_err());
    assert_eq!(build_argon2_ksf(2, 100, 3).unwrap(), StretchCosts { iterations: 2, memory: 100, parallelism: 3 });
    assert_eq!(get_custom_ksf(None).unwrap(), StretchCosts { iterations: 1, memory: 2097151, parallelism: 4 });
    assert_eq!(
        get_custom_ksf(Some(KeyStretchingFunctionConfig::Recommended)).unwrap(),
        get_custom_ksf(None).unwrap()
    );
    assert_eq!(
        get_custom_ksf(Some(KeyStretchingFunctionConfig::MemoryConstrained)).unwrap(),
        StretchCosts { iterations: 3, memory: 65536, parallelism: 4 }
    );
    assert_eq!(
        get_custom_ksf(Some(KeyStretchingFunctionConfig::Custom { iterations: 4, memory: 64, parallelism: 8 })).unwrap(),
        build_argon2_ksf(4, 64, 8).unwrap()
    );
    let e = build_argon2_ksf(0, 0, 0).unwrap_err();
    assert!(e.message().starts_with("Internal error at \"Invalid keyStretching (argon2id) combination\"; "));
}

#[test]
fn setup_round_trips_and_yields_its_public_key() {
    let setup = create_server_setup();
    assert_eq!(decode(&setup).len(), 128);
    let key = get_server_public_key(setup.clone()).unwrap();
    assert_eq!(decode(&key).len(), 32);
    assert_eq!(get_server_public_key(setup).unwrap(), key);
    assert_ne!(create_server_setup(), create_server_setup());
}

#[test]
fn malformed_setup_is_reported_by_field() {
    let e = get_server_public_key("@@".to_string()).unwrap_err();
    assert!(matches!(e, Error::Decode { context: "serverSetup", .. }));
    let e = get_server_public_key("AAAA".to_string()).unwrap_err();
    assert!(matches!(e, Error::Protocol { context: "deserialize serverSetup", .. }));
}

#[test]
fn registration_response_is_deterministic() {
    let setup = create_server_setup();
    let start = start_client_registration(StartClientRegistrationParams { password: "pw".to_string() }).unwrap();
    assert_eq!(decode(&start.registration_request).len(), 32);
    let respond = |user: &str| {
        create_server_registration_response(CreateServerRegistrationResponseParams {
            server_setup: setup.clone(),
            user_identifier: user.to_string(),
            registration_request: start.registration_request.clone(),
        })
        .unwrap()
        .registration_response
    };
    let first = respond("alice");
    assert_eq!(decode(&first).len(), 64);
    assert_eq!(first, respond("alice"));
    assert_ne!(first, respond("bob"));
}

#[test]
fn registration_errors_name_their_field() {
    let setup = create_server_setup();
    let e = create_server_registration_response(CreateServerRegistrationResponseParams {
        server_setup: setup.clone(),
        user_identifier: "u".to_string(),
        registration_request: "!".to_string(),
    })
    .unwrap_err();
    assert!(matches!(e, Error::Decode { context: "registrationRequest", .. }));
    let e = create_server_registration_response(CreateServerRegistrationResponseParams {
        server_setup: setup,
        user_identifier: "u".to_string(),
        registration_request: "AAAA".to_string(),
    })
    .unwrap_err();
    assert!(matches!(e, Error::Protocol { context: "deserialize registrationRequest", .. }));
    let e = finish_server_registration("AAAA".to_string()).unwrap_err();
    assert!(matches!(e, Error::Protocol { context: "deserialize registrationUpload", .. }));
}

#[test]
fn login_errors_name_their_field() {
    let setup = create_server_setup();
    let e = start_server_login(StartServerLoginParams {
        server_setup: setup.clone(),
        registration_record: Some("#".to_string()),
        start_login_request: "AAAA".to_string(),
        user_identifier: "u".to_string(),
        identifiers: None,
    })
    .unwrap_err();
    assert!(matches!(e, Error::Decode { context: "registrationRecord", .. }));
    let e = start_server_login(StartServerLoginParams {
        server_setup: setup,
        registration_record: None,
        start_login_request: "AAAA".to_string(),
        user_identifier: "u".to_string(),
        identifiers: None,
    })
    .unwrap_err();
    assert!(matches!(e, Error::Protocol { context: "deserialize startLoginRequest", .. }));
    let e = finish_server_login(FinishServerLoginParams {
        server_login_state: "AAAA".to_string(),
        finish_login_request: "AAAA".to_string(),
    })
    .unwrap_err();
    assert!(matches!(e, Error::Protocol { context: "deserialize serverLoginState", .. }));
    let e = finish_client_login(FinishClientLoginParams {
        client_login_state: "AAAA".to_string(),
        login_response: "%".to_string(),
        password: "pw".to_string(),
        identifiers: None,
        key_stretching_function_config: None,
    })
    .unwrap_err();
    assert!(matches!(e, Error::Decode { context: "loginResponse", .. }));
}

#[test]
fn messages_name_kind_and_context() {
    let e = Error::Decode { context: "serverSetup", detail: "Invalid symbol 64, offset 0.".to_string() };
    assert_eq!(e.message(), "base64 decoding failed at \"serverSetup\"; Invalid symbol 64, offset 0.");
    let e = Error::Protocol { context: "finish server login", detail: "x".to_string() };
    assert_eq!(e.message(), "opaque protocol error at \"finish server login\"; x");
    let e = Error::Configuration { context: "Invalid keyStretching (argon2id) combination", detail: "y".to_string() };
    assert_eq!(e.message(), "Internal error at \"Invalid keyStretching (argon2id) combination\"; y");
}
