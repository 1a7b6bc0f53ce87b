use vstd::prelude::*;
use vstd::utf8::encode_utf8;
use crate::codec::{b64, base64_decode, base64_encode, decoded, encodes_len, is_b64, lemma_decoded_b64};
use crate::engine::{
    check_client_registration, check_registration_request, check_registration_response,
    client_registration_accepted, client_registration_finish, client_registration_start, record_accepted,
    registration_request_accepted, registration_response_accepted, registration_response_of,
    server_registration_finish, server_registration_start, KEY_LEN, PUBLIC_KEY_LEN,
    REGISTRATION_RECORD_LEN, REGISTRATION_REQUEST_LEN,
};
use crate::error::Error;
use crate::identifiers::{get_identifiers, CustomIdentifiers};
use crate::setup::{decode_server_setup, setup_error, setup_ok};
use crate::stretching::{config_valid, get_custom_ksf, refused_costs, KeyStretchingFunctionConfig};

verus! {

#[derive(Debug)]
pub struct StartClientRegistrationParams {
    pub password: String,
}

#[derive(Debug)]
pub struct StartClientRegistrationResult {
    pub client_registration_state: String,
    pub registration_request: String,
}

/// Blinds the password: the state to keep, and the request for the server.
pub fn start_client_registration(params: StartClientRegistrationParams) -> (r: Result<
    StartClientRegistrationResult,
    Error,
>)
    ensures
        match r {
            Ok(res) => {
                &&& is_b64(res.client_registration_state@)
                &&& client_registration_accepted(decoded(res.client_registration_state@))
                &&& encodes_len(res.registration_request@, REGISTRATION_REQUEST_LEN as nat)
                &&& registration_request_accepted(decoded(res.registration_request@))
            },
            Err(e) => e.is_protocol_at("start client registration"@),
        },
{
    let (state, request) = match client_registration_start(params.password.as_str().as_bytes()) {
        Ok(started) => started,
        Err(detail) => return Err(Error::Protocol { context: "start client registration", detail }),
    };
    proof {
        lemma_decoded_b64(state@);
        lemma_decoded_b64(request@);
    }
    Ok(start_client_registration_result(state.as_slice(), request.as_slice()))
}

/// The transport form of a registration start: the state and the request.
pub fn start_client_registration_result(state: &[u8], request: &[u8]) -> (res: StartClientRegistrationResult)
    ensures
        res.client_registration_state@ == b64(state@),
        res.registration_request@ == b64(request@),
{
    StartClientRegistrationResult {
        client_registration_state: base64_encode(state),
        registration_request: base64_encode(request),
    }
}

#[derive(Debug)]
pub struct CreateServerRegistrationResponseParams {
    pub server_setup: String,
    pub user_identifier: String,
    pub registration_request: String,
}

#[derive(Debug)]
pub struct CreateServerRegistrationResponseResult {
    pub registration_response: String,
}

/// Evaluates the OPRF on the client's blinded password under the seed keyed
/// by the user identifier. Retains nothing.
pub fn create_server_registration_response(params: CreateServerRegistrationResponseParams) -> (r: Result<
    CreateServerRegistrationResponseResult,
    Error,
>)
    ensures
        ({
            let s = params.server_setup@;
            let q = params.registration_request@;
            let u = encode_utf8(params.user_identifier@);
            match r {
                Ok(res) => {
                    &&& setup_ok(s)
                    &&& is_b64(q) && registration_request_accepted(decoded(q))
                    &&& is_b64(res.registration_response@)
                    &&& registration_response_of(decoded(s), decoded(q), u) == Some(decoded(res.registration_response@))
                },
                Err(e) => if !setup_ok(s) {
                    setup_error(s, e)
                } else if !is_b64(q) {
                    e.is_decode_at("registrationRequest"@)
                } else if !registration_request_accepted(decoded(q)) {
                    e.is_protocol_at("deserialize registrationRequest"@)
                } else {
                    registration_response_of(decoded(s), decoded(q), u) is None
                        && e.is_protocol_at("start server registration"@)
                },
            }
        }),
{
    let setup = decode_server_setup(params.server_setup.as_str())?;
    let request = base64_decode("registrationRequest", params.registration_request.as_str())?;
    if let Err(detail) = check_registration_request(request.as_slice()) {
        return Err(Error::Protocol { context: "deserialize registrationRequest", detail });
    }
    let user = params.user_identifier.as_str().as_bytes();
    match server_registration_start(setup.as_slice(), request.as_slice(), user) {
        Ok(response) => {
            proof {
                lemma_decoded_b64(response@);
            }
            Ok(CreateServerRegistrationResponseResult { registration_response: base64_encode(response.as_slice()) })
        },
        Err(detail) => Err(Error::Protocol { context: "start server registration", detail }),
    }
}

#[derive(Debug)]
pub struct FinishClientRegistrationParams {
    pub password: String,
    pub registration_response: String,
    pub client_registration_state: String,
    pub identifiers: Option<CustomIdentifiers>,
    pub key_stretching_function_config: Option<KeyStretchingFunctionConfig>,
}

#[derive(Debug)]
pub struct FinishClientRegistrationResult {
    pub registration_record: String,
    pub export_key: String,
    pub server_static_public_key: String,
}

/// Unblinds, stretches the password-derived secret, and seals the record to
/// upload. A server key that differs from the one enrolled against is not
/// detected here, only at login.
pub fn finish_client_registration(params: FinishClientRegistrationParams) -> (r: Result<
    FinishClientRegistrationResult,
    Error,
>)
    ensures
        ({
            let config = params.key_stretching_function_config;
            let m = params.registration_response@;
            let st = params.client_registration_state@;
            match r {
                Ok(res) => {
                    &&& config_valid(config)
                    &&& is_b64(m) && registration_response_accepted(decoded(m))
                    &&& is_b64(st) && client_registration_accepted(decoded(st))
                    &&& encodes_len(res.registration_record@, REGISTRATION_RECORD_LEN as nat)
                    &&& record_accepted(decoded(res.registration_record@))
                    &&& encodes_len(res.export_key@, KEY_LEN as nat)
                    &&& encodes_len(res.server_static_public_key@, PUBLIC_KEY_LEN as nat)
                },
                Err(e) => if !config_valid(config) {
                    refused_costs(e)
                } else if !is_b64(m) {
                    e.is_decode_at("registrationResponse"@)
                } else if !is_b64(st) {
                    e.is_decode_at("clientRegistrationState"@)
                } else if !client_registration_accepted(decoded(st)) {
                    e.is_protocol_at("deserialize clientRegistrationState"@)
                } else if !registration_response_accepted(decoded(m)) {
                    e.is_protocol_at("deserialize registrationResponse"@)
                } else {
                    e.is_protocol_at("finish client registration"@)
                },
            }
        }),
{
    let costs = get_custom_ksf(params.key_stretching_function_config)?;
    let response = base64_decode("registrationResponse", params.registration_response.as_str())?;
    let state = base64_decode("clientRegistrationState", params.client_registration_state.as_str())?;
    if let Err(detail) = check_client_registration(state.as_slice()) {
        return Err(Error::Protocol { context: "deserialize clientRegistrationState", detail });
    }
    if let Err(detail) = check_registration_response(response.as_slice()) {
        return Err(Error::Protocol { context: "deserialize registrationResponse", detail });
    }
    let (client, server) = get_identifiers(&params.identifiers);
    let password = params.password.as_str().as_bytes();
    match client_registration_finish(state.as_slice(), password, response.as_slice(), client, server, costs) {
        Ok((record, export_key, server_key)) => {
            proof {
                lemma_decoded_b64(record@);
                lemma_decoded_b64(export_key@);
                lemma_decoded_b64(server_key@);
            }
            Ok(finish_client_registration_result(record.as_slice(), export_key.as_slice(), server_key.as_slice()))
        },
        Err(detail) => Err(Error::Protocol { context: "finish client registration", detail }),
    }
}

/// The transport form of a finished registration: the record to upload, the
/// export key, and the server's public key.
pub fn finish_client_registration_result(record: &[u8], export_key: &[u8], server_key: &[u8]) -> (res:
    FinishClientRegistrationResult)
    ensures
        res.registration_record@ == b64(record@),
        res.export_key@ == b64(export_key@),
        res.server_static_public_key@ == b64(server_key@),
{
    FinishClientRegistrationResult {
        registration_record: base64_encode(record),
        export_key: base64_encode(export_key),
        server_static_public_key: base64_encode(server_key),
    }
}

/// The server's storage step: reads the uploaded record and writes it back in
/// the form that login reads.
pub fn finish_server_registration(registration_upload: String) -> (r: Result<String, Error>)
    ensures
        ({
            let u = registration_upload@;
            match r {
                Ok(rec) => {
                    &&& is_b64(u) && record_accepted(decoded(u))
                    &&& encodes_len(rec@, REGISTRATION_RECORD_LEN as nat)
                    &&& record_accepted(decoded(rec@))
                },
                Err(e) => if !is_b64(u) {
                    e.is_decode_at("registrationUpload"@)
                } else {
                    !record_accepted(decoded(u)) && e.is_protocol_at("deserialize registrationUpload"@)
                },
            }
        }),
{
    let upload = base64_decode("registrationUpload", registration_upload.as_str())?;
    match server_registration_finish(upload.as_slice()) {
        Ok(record) => {
            proof {
                lemma_decoded_b64(record@);
            }
            Ok(base64_encode(record.as_slice()))
        },
        Err(detail) => Err(Error::Protocol { context: "deserialize registrationUpload", detail }),
    }
}

} // verus!
