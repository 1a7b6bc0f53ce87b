use vstd::prelude::*;
use crate::codec::{
    b64, b64_len, base64_decode, base64_encode, decoded, encodes_len, is_b64, lemma_b64_len, lemma_decoded_b64,
};
use crate::engine::{
    check_client_login, check_credential_request, check_credential_response, check_finalization, check_record,
    check_server_login, client_login_accepted, client_login_outcome_of, client_login_finish, client_login_start, credential_request_accepted,
    credential_response_accepted, finalization_accepted, record_accepted, server_login_accepted, server_login_finish,
    server_login_start, server_session_key_of, CREDENTIAL_FINALIZATION_LEN, CREDENTIAL_REQUEST_LEN,
    CREDENTIAL_RESPONSE_LEN, KEY_LEN, PUBLIC_KEY_LEN,
};
use crate::error::Error;
use vstd::utf8::encode_utf8;
use crate::identifiers::{client_id_of, get_identifiers, server_id_of, CustomIdentifiers};
use crate::setup::{decode_server_setup, setup_error, setup_ok};
use crate::stretching::{config_valid, costs_of, get_custom_ksf, refused_costs, KeyStretchingFunctionConfig};

verus! {

#[derive(Debug)]
pub struct StartClientLoginParams {
    pub password: String,
}

#[derive(Debug)]
pub struct StartClientLoginResult {
    pub client_login_state: String,
    pub start_login_request: String,
}

/// Blinds the password and draws a fresh ephemeral key pair: the state to
/// keep, and the request for the server.
pub fn start_client_login(params: StartClientLoginParams) -> (r: Result<StartClientLoginResult, Error>)
    ensures
        match r {
            Ok(res) => {
                &&& is_b64(res.client_login_state@)
                &&& client_login_accepted(decoded(res.client_login_state@))
                &&& encodes_len(res.start_login_request@, CREDENTIAL_REQUEST_LEN as nat)
                &&& credential_request_accepted(decoded(res.start_login_request@))
            },
            Err(e) => e.is_protocol_at("start client login"@),
        },
{
    let (state, request) = match client_login_start(params.password.as_str().as_bytes()) {
        Ok(started) => started,
        Err(detail) => return Err(Error::Protocol { context: "start client login", detail }),
    };
    proof {
        lemma_decoded_b64(state@);
        lemma_decoded_b64(request@);
    }
    Ok(start_client_login_result(state.as_slice(), request.as_slice()))
}

/// The transport form of a login start: the state and the request.
pub fn start_client_login_result(state: &[u8], request: &[u8]) -> (res: StartClientLoginResult)
    ensures
        res.client_login_state@ == b64(state@),
        res.start_login_request@ == b64(request@),
{
    StartClientLoginResult { client_login_state: base64_encode(state), start_login_request: base64_encode(request) }
}

#[derive(Debug)]
pub struct StartServerLoginParams {
    pub server_setup: String,
    pub registration_record: Option<String>,
    pub start_login_request: String,
    pub user_identifier: String,
    pub identifiers: Option<CustomIdentifiers>,
}

#[derive(Debug)]
pub struct StartServerLoginResult {
    pub server_login_state: String,
    pub login_response: String,
}

/// The stored record text, where one is given, can be used.
pub open spec fn record_ok(record: Option<String>) -> bool {
    match record {
        Some(t) => is_b64(t@) && record_accepted(decoded(t@)),
        None => true,
    }
}

/// Answers a login request. For an unknown user (no record) the answer comes
/// from the setup's fake key pair in the same format, so that it cannot be
/// told apart from a known user's: the response text has one length either
/// way.
pub fn start_server_login(params: StartServerLoginParams) -> (r: Result<StartServerLoginResult, Error>)
    ensures
        ({
            let s = params.server_setup@;
            let rec = params.registration_record;
            let q = params.start_login_request@;
            match r {
                Ok(res) => {
                    &&& setup_ok(s)
                    &&& record_ok(rec)
                    &&& is_b64(q) && credential_request_accepted(decoded(q))
                    &&& is_b64(res.server_login_state@)
                    &&& server_login_accepted(decoded(res.server_login_state@))
                    &&& encodes_len(res.login_response@, CREDENTIAL_RESPONSE_LEN as nat)
                    &&& credential_response_accepted(decoded(res.login_response@))
                    &&& res.login_response@.len() == b64_len(CREDENTIAL_RESPONSE_LEN as nat)
                },
                Err(e) => if !setup_ok(s) {
                    setup_error(s, e)
                } else if rec matches Some(t) && !is_b64(t@) {
                    e.is_decode_at("registrationRecord"@)
                } else if !is_b64(q) {
                    e.is_decode_at("startLoginRequest"@)
                } else if !record_ok(rec) {
                    e.is_protocol_at("deserialize registrationRecord"@)
                } else if !credential_request_accepted(decoded(q)) {
                    e.is_protocol_at("deserialize startLoginRequest"@)
                } else {
                    e.is_protocol_at("start server login"@)
                },
            }
        }),
{
    let setup = decode_server_setup(params.server_setup.as_str())?;
    let record = match &params.registration_record {
        Some(text) => Some(base64_decode("registrationRecord", text.as_str())?),
        None => None,
    };
    let request = base64_decode("startLoginRequest", params.start_login_request.as_str())?;
    let record_bytes: Option<&[u8]> = match &record {
        Some(b) => {
            if let Err(detail) = check_record(b.as_slice()) {
                return Err(Error::Protocol { context: "deserialize registrationRecord", detail });
            }
            Some(b.as_slice())
        },
        None => None,
    };
    if let Err(detail) = check_credential_request(request.as_slice()) {
        return Err(Error::Protocol { context: "deserialize startLoginRequest", detail });
    }
    let (client, server) = get_identifiers(&params.identifiers);
    let user = params.user_identifier.as_str().as_bytes();
    match server_login_start(setup.as_slice(), record_bytes, request.as_slice(), user, client, server) {
        Ok((state, response)) => {
            proof {
                lemma_decoded_b64(state@);
                lemma_decoded_b64(response@);
                lemma_b64_len(response@);
            }
            Ok(start_server_login_result(state.as_slice(), response.as_slice()))
        },
        Err(detail) => Err(Error::Protocol { context: "start server login", detail }),
    }
}

/// The transport form of the server's login start: its state and the response.
pub fn start_server_login_result(state: &[u8], response: &[u8]) -> (res: StartServerLoginResult)
    ensures
        res.server_login_state@ == b64(state@),
        res.login_response@ == b64(response@),
{
    StartServerLoginResult { server_login_state: base64_encode(state), login_response: base64_encode(response) }
}

/// Login responses have one shape whether or not the user is known: any two
/// response texts that `start_server_login` gives, one answered from a stored
/// record and one from the fake key pair, have the same length.
pub proof fn lemma_login_response_shape(known: StartServerLoginResult, unknown: StartServerLoginResult)
    requires
        encodes_len(known.login_response@, CREDENTIAL_RESPONSE_LEN as nat),
        encodes_len(unknown.login_response@, CREDENTIAL_RESPONSE_LEN as nat),
    ensures
        known.login_response@.len() == unknown.login_response@.len(),
{
    let a = known.login_response@;
    let b = unknown.login_response@;
    assert(b64(decoded(a)) == a);
    assert(b64(decoded(b)) == b);
    lemma_b64_len(decoded(a));
    lemma_b64_len(decoded(b));
}

#[derive(Debug)]
pub struct FinishServerLoginParams {
    pub server_login_state: String,
    pub finish_login_request: String,
}

#[derive(Debug)]
pub struct FinishServerLoginResult {
    pub session_key: String,
}

/// Checks the client's MAC against the transcript: the session key where it
/// verifies, a protocol error where it does not.
pub fn finish_server_login(params: FinishServerLoginParams) -> (r: Result<FinishServerLoginResult, Error>)
    ensures
        ({
            let st = params.server_login_state@;
            let f = params.finish_login_request@;
            match r {
                Ok(res) => {
                    &&& is_b64(f) && finalization_accepted(decoded(f))
                    &&& is_b64(st) && server_login_accepted(decoded(st))
                    &&& server_session_key_of(decoded(st), decoded(f)) matches Some(k) && res.session_key@ == b64(k)
                    &&& encodes_len(res.session_key@, KEY_LEN as nat)
                },
                Err(e) => if !is_b64(f) {
                    e.is_decode_at("finishLoginRequest"@)
                } else if !is_b64(st) {
                    e.is_decode_at("serverLoginState"@)
                } else if !server_login_accepted(decoded(st)) {
                    e.is_protocol_at("deserialize serverLoginState"@)
                } else if !finalization_accepted(decoded(f)) {
                    e.is_protocol_at("deserialize finishLoginRequest"@)
                } else {
                    server_session_key_of(decoded(st), decoded(f)) is None && e.is_protocol_at("finish server login"@)
                },
            }
        }),
{
    let finalization = base64_decode("finishLoginRequest", params.finish_login_request.as_str())?;
    let state = base64_decode("serverLoginState", params.server_login_state.as_str())?;
    if let Err(detail) = check_server_login(state.as_slice()) {
        return Err(Error::Protocol { context: "deserialize serverLoginState", detail });
    }
    if let Err(detail) = check_finalization(finalization.as_slice()) {
        return Err(Error::Protocol { context: "deserialize finishLoginRequest", detail });
    }
    match server_login_finish(state.as_slice(), finalization.as_slice()) {
        Ok(key) => {
            proof {
                lemma_decoded_b64(key@);
            }
            Ok(FinishServerLoginResult { session_key: base64_encode(key.as_slice()) })
        },
        Err(detail) => Err(Error::Protocol { context: "finish server login", detail }),
    }
}

#[derive(Debug)]
pub struct FinishClientLoginParams {
    pub client_login_state: String,
    pub login_response: String,
    pub password: String,
    pub identifiers: Option<CustomIdentifiers>,
    pub key_stretching_function_config: Option<KeyStretchingFunctionConfig>,
}

#[derive(Debug)]
pub struct FinishClientLoginResult {
    pub finish_login_request: String,
    pub session_key: String,
    pub export_key: String,
    pub server_static_public_key: String,
}

/// The engine's outcome of a client login finish on the given call's inputs.
pub open spec fn client_login_outcome(params: FinishClientLoginParams) -> Option<(Seq<u8>, Seq<u8>, Seq<u8>, Seq<u8>)> {
    client_login_outcome_of(
        decoded(params.client_login_state@),
        encode_utf8(params.password@),
        decoded(params.login_response@),
        client_id_of(params.identifiers),
        server_id_of(params.identifiers),
        costs_of(params.key_stretching_function_config),
    )
}

/// Opens the envelope and checks the server's part of the transcript, with
/// the configuration's costs. A rejection (wrong password, altered response,
/// unknown user, other identifiers or costs) is `Ok(None)`, with no reason
/// given.
pub fn finish_client_login(params: FinishClientLoginParams) -> (r: Result<Option<FinishClientLoginResult>, Error>)
    ensures
        ({
            let config = params.key_stretching_function_config;
            let m = params.login_response@;
            let st = params.client_login_state@;
            let inputs_ok = config_valid(config) && is_b64(m) && credential_response_accepted(decoded(m))
                && is_b64(st) && client_login_accepted(decoded(st));
            match r {
                Ok(None) => inputs_ok && client_login_outcome(params) is None,
                Ok(Some(res)) => {
                    &&& inputs_ok
                    &&& client_login_outcome(params) matches Some((f, s, e, k)) && {
                        &&& res.finish_login_request@ == b64(f)
                        &&& res.session_key@ == b64(s)
                        &&& res.export_key@ == b64(e)
                        &&& res.server_static_public_key@ == b64(k)
                    }
                    &&& encodes_len(res.finish_login_request@, CREDENTIAL_FINALIZATION_LEN as nat)
                    &&& finalization_accepted(decoded(res.finish_login_request@))
                    &&& encodes_len(res.session_key@, KEY_LEN as nat)
                    &&& encodes_len(res.export_key@, KEY_LEN as nat)
                    &&& encodes_len(res.server_static_public_key@, PUBLIC_KEY_LEN as nat)
                },
                Err(e) => if !config_valid(config) {
                    refused_costs(e)
                } else if !is_b64(m) {
                    e.is_decode_at("loginResponse"@)
                } else if !is_b64(st) {
                    e.is_decode_at("clientLoginState"@)
                } else if !client_login_accepted(decoded(st)) {
                    e.is_protocol_at("deserialize clientLoginState"@)
                } else {
                    !credential_response_accepted(decoded(m)) && e.is_protocol_at("deserialize loginResponse"@)
                },
            }
        }),
{
    let costs = get_custom_ksf(params.key_stretching_function_config)?;
    let response = base64_decode("loginResponse", params.login_response.as_str())?;
    let state = base64_decode("clientLoginState", params.client_login_state.as_str())?;
    if let Err(detail) = check_client_login(state.as_slice()) {
        return Err(Error::Protocol { context: "deserialize clientLoginState", detail });
    }
    if let Err(detail) = check_credential_response(response.as_slice()) {
        return Err(Error::Protocol { context: "deserialize loginResponse", detail });
    }
    let (client, server) = get_identifiers(&params.identifiers);
    let password = params.password.as_str().as_bytes();
    let outcome = client_login_finish(state.as_slice(), password, response.as_slice(), client, server, costs);
    if let Ok((finalization, session_key, export_key, server_key)) = &outcome {
        proof {
            lemma_decoded_b64(finalization@);
            lemma_decoded_b64(session_key@);
            lemma_decoded_b64(export_key@);
            lemma_decoded_b64(server_key@);
        }
    }
    Ok(finish_client_login_result(&outcome))
}

/// The client's verdict on the engine's outcome: the keys in transport form
/// where the server's part verified, and `None`, with no reason kept, where
/// it did not.
pub fn finish_client_login_result(outcome: &Result<(Vec<u8>, Vec<u8>, Vec<u8>, Vec<u8>), String>) -> (res: Option<
    FinishClientLoginResult,
>)
    ensures
        match outcome {
            Ok((finalization, session_key, export_key, server_key)) => res matches Some(r) && {
                &&& r.finish_login_request@ == b64(finalization@)
                &&& r.session_key@ == b64(session_key@)
                &&& r.export_key@ == b64(export_key@)
                &&& r.server_static_public_key@ == b64(server_key@)
            },
            Err(_) => res is None,
        },
{
    match outcome {
        Ok((finalization, session_key, export_key, server_key)) => Some(FinishClientLoginResult {
            finish_login_request: base64_encode(finalization.as_slice()),
            session_key: base64_encode(session_key.as_slice()),
            export_key: base64_encode(export_key.as_slice()),
            server_static_public_key: base64_encode(server_key.as_slice()),
        }),
        Err(_) => None,
    }
}

} // verus!
