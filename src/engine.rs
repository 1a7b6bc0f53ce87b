//! The protocol engine: opaque_ke over Ristretto255, triple Diffie-Hellman and
//! Argon2id. opaque_ke's message and state types are bound by where-clauses
//! over the crate's private hash aliases, so they cannot be named here: the
//! library holds each of them in the serialized form in which it crosses the
//! network, and each call below reads its inputs from that form and writes its
//! outputs to it.
use vstd::prelude::*;
use opaque_ke::{
    ClientLogin, ClientLoginFinishParameters, ClientRegistration,
    ClientRegistrationFinishParameters, CredentialFinalization, CredentialRequest,
    CredentialResponse, Identifiers, RegistrationRequest, RegistrationResponse, RegistrationUpload,
    ServerLogin,
    ServerLoginStartParameters, ServerRegistration, ServerSetup,
};
use argon2::{Algorithm, Argon2, Params, Version};
use rand::rngs::OsRng;
use crate::identifiers::opt_slice;
use crate::stretching::{argon2_accepts, StretchCosts};

verus! {

#[verifier::external_type_specification]
#[verifier::external_body]
pub struct ExRistretto255(opaque_ke::Ristretto255);

#[verifier::external_type_specification]
#[verifier::external_body]
pub struct ExTripleDh(opaque_ke::key_exchange::tripledh::TripleDh);

pub struct DefaultCipherSuite;

impl opaque_ke::CipherSuite for DefaultCipherSuite {
    type OprfCs = opaque_ke::Ristretto255;
    type KeGroup = opaque_ke::Ristretto255;
    type KeyExchange = opaque_ke::key_exchange::tripledh::TripleDh;
    type Ksf = argon2::Argon2<'static>;
}

/// Serialized sizes under this suite: 32-byte group elements and scalars,
/// 32-byte nonces, 64-byte SHA-512 outputs and MACs.
pub const SERVER_SETUP_LEN: usize = 128;
pub const PUBLIC_KEY_LEN: usize = 32;
pub const REGISTRATION_REQUEST_LEN: usize = 32;
pub const REGISTRATION_RESPONSE_LEN: usize = 64;
pub const REGISTRATION_RECORD_LEN: usize = 192;
pub const CREDENTIAL_REQUEST_LEN: usize = 96;
pub const CREDENTIAL_RESPONSE_LEN: usize = 320;
pub const CREDENTIAL_FINALIZATION_LEN: usize = 64;
pub const KEY_LEN: usize = 64;

/// `ServerSetup::deserialize` accepts the bytes.
pub uninterp spec fn setup_accepted(b: Seq<u8>) -> bool;

/// `RegistrationRequest::deserialize` accepts the bytes.
pub uninterp spec fn registration_request_accepted(b: Seq<u8>) -> bool;

/// `RegistrationResponse::deserialize` accepts the bytes.
pub uninterp spec fn registration_response_accepted(b: Seq<u8>) -> bool;

/// `ClientRegistration::deserialize` accepts the bytes.
pub uninterp spec fn client_registration_accepted(b: Seq<u8>) -> bool;

/// `ServerRegistration::deserialize` accepts the bytes.
pub uninterp spec fn record_accepted(b: Seq<u8>) -> bool;

/// `CredentialRequest::deserialize` accepts the bytes.
pub uninterp spec fn credential_request_accepted(b: Seq<u8>) -> bool;

/// `CredentialResponse::deserialize` accepts the bytes.
pub uninterp spec fn credential_response_accepted(b: Seq<u8>) -> bool;

/// `ClientLogin::deserialize` accepts the bytes.
pub uninterp spec fn client_login_accepted(b: Seq<u8>) -> bool;

/// `ServerLogin::deserialize` accepts the bytes.
pub uninterp spec fn server_login_accepted(b: Seq<u8>) -> bool;

/// `CredentialFinalization::deserialize` accepts the bytes.
pub uninterp spec fn finalization_accepted(b: Seq<u8>) -> bool;

/// The static public key held in a serialized setup.
pub uninterp spec fn server_public_key_of(setup: Seq<u8>) -> Seq<u8>;

/// What `ServerRegistration::start` makes of a setup, a request and a user
/// identifier: the serialized response, or `None` where it fails.
pub uninterp spec fn registration_response_of(setup: Seq<u8>, request: Seq<u8>, user: Seq<u8>) -> Option<Seq<u8>>;

/// What `ClientLogin::finish` makes of a client state, a password, a
/// response, the two optional identifiers and Argon2id costs: the
/// finalization, the session key, the export key and the server's public key,
/// or `None` where the envelope does not open or the server's MAC does not
/// verify. It draws no randomness.
pub uninterp spec fn client_login_outcome_of(
    state: Seq<u8>,
    password: Seq<u8>,
    response: Seq<u8>,
    client: Option<Seq<u8>>,
    server: Option<Seq<u8>>,
    costs: StretchCosts,
) -> Option<(Seq<u8>, Seq<u8>, Seq<u8>, Seq<u8>)>;

/// What `ServerLogin::finish` makes of a server state and a finalization: the
/// session key, or `None` where the client's MAC does not verify.
pub uninterp spec fn server_session_key_of(state: Seq<u8>, finalization: Seq<u8>) -> Option<Seq<u8>>;

/// Relies on `ServerSetup::deserialize`.
#[verifier::external_body]
pub(crate) fn check_setup(b: &[u8]) -> (r: Result<(), String>)
    ensures
        r is Ok <==> setup_accepted(b@),
{
    ServerSetup::<DefaultCipherSuite>::deserialize(b).map(|_| ()).map_err(|e| e.to_string())
}

/// Relies on `RegistrationRequest::deserialize`.
#[verifier::external_body]
pub(crate) fn check_registration_request(b: &[u8]) -> (r: Result<(), String>)
    ensures
        r is Ok <==> registration_request_accepted(b@),
{
    RegistrationRequest::<DefaultCipherSuite>::deserialize(b).map(|_| ()).map_err(|e| e.to_string())
}

/// Relies on `RegistrationResponse::deserialize`.
#[verifier::external_body]
pub(crate) fn check_registration_response(b: &[u8]) -> (r: Result<(), String>)
    ensures
        r is Ok <==> registration_response_accepted(b@),
{
    RegistrationResponse::<DefaultCipherSuite>::deserialize(b).map(|_| ()).map_err(|e| e.to_string())
}

/// Relies on `ClientRegistration::deserialize`.
#[verifier::external_body]
pub(crate) fn check_client_registration(b: &[u8]) -> (r: Result<(), String>)
    ensures
        r is Ok <==> client_registration_accepted(b@),
{
    ClientRegistration::<DefaultCipherSuite>::deserialize(b).map(|_| ()).map_err(|e| e.to_string())
}

/// Relies on `ServerRegistration::deserialize`.
#[verifier::external_body]
pub(crate) fn check_record(b: &[u8]) -> (r: Result<(), String>)
    ensures
        r is Ok <==> record_accepted(b@),
{
    ServerRegistration::<DefaultCipherSuite>::deserialize(b).map(|_| ()).map_err(|e| e.to_string())
}

/// Relies on `CredentialRequest::deserialize`.
#[verifier::external_body]
pub(crate) fn check_credential_request(b: &[u8]) -> (r: Result<(), String>)
    ensures
        r is Ok <==> credential_request_accepted(b@),
{
    CredentialRequest::<DefaultCipherSuite>::deserialize(b).map(|_| ()).map_err(|e| e.to_string())
}

/// Relies on `CredentialResponse::deserialize`.
#[verifier::external_body]
pub(crate) fn check_credential_response(b: &[u8]) -> (r: Result<(), String>)
    ensures
        r is Ok <==> credential_response_accepted(b@),
{
    CredentialResponse::<DefaultCipherSuite>::deserialize(b).map(|_| ()).map_err(|e| e.to_string())
}

/// Relies on `ClientLogin::deserialize`.
#[verifier::external_body]
pub(crate) fn check_client_login(b: &[u8]) -> (r: Result<(), String>)
    ensures
        r is Ok <==> client_login_accepted(b@),
{
    ClientLogin::<DefaultCipherSuite>::deserialize(b).map(|_| ()).map_err(|e| e.to_string())
}

/// Relies on `ServerLogin::deserialize`.
#[verifier::external_body]
pub(crate) fn check_server_login(b: &[u8]) -> (r: Result<(), String>)
    ensures
        r is Ok <==> server_login_accepted(b@),
{
    ServerLogin::<DefaultCipherSuite>::deserialize(b).map(|_| ()).map_err(|e| e.to_string())
}

/// Relies on `CredentialFinalization::deserialize`.
#[verifier::external_body]
pub(crate) fn check_finalization(b: &[u8]) -> (r: Result<(), String>)
    ensures
        r is Ok <==> finalization_accepted(b@),
{
    CredentialFinalization::<DefaultCipherSuite>::deserialize(b).map(|_| ()).map_err(|e| e.to_string())
}

/// Relies on `ServerSetup::new` with the operating system's random source, and
/// on `serialize`: seed, key and fake key, which `deserialize` reads back.
#[verifier::external_body]
pub(crate) fn new_server_setup() -> (r: Vec<u8>)
    ensures
        setup_accepted(r@),
        r@.len() == SERVER_SETUP_LEN,
{
    ServerSetup::<DefaultCipherSuite>::new(&mut OsRng).serialize().to_vec()
}

/// Relies on `ServerSetup::keypair`: the public half of the static key pair.
#[verifier::external_body]
pub(crate) fn server_public_key(setup: &[u8]) -> (r: Vec<u8>)
    requires
        setup_accepted(setup@),
    ensures
        r@ == server_public_key_of(setup@),
        r@.len() == PUBLIC_KEY_LEN,
{
    match ServerSetup::<DefaultCipherSuite>::deserialize(setup) {
        Ok(s) => s.keypair().public().serialize().to_vec(),
        Err(_) => Vec::new(),
    }
}

/// Relies on `ServerRegistration::start`: the OPRF evaluation under the seed
/// keyed by the user identifier, and the server's public key.
#[verifier::external_body]
pub(crate) fn server_registration_start(setup: &[u8], request: &[u8], user: &[u8]) -> (r: Result<Vec<u8>, String>)
    requires
        setup_accepted(setup@),
        registration_request_accepted(request@),
    ensures
        match r {
            Ok(v) => registration_response_of(setup@, request@, user@) == Some(v@),
            Err(_) => registration_response_of(setup@, request@, user@) is None,
        },
        r matches Ok(v) ==> v@.len() == REGISTRATION_RESPONSE_LEN && registration_response_accepted(v@),
{
    let s = ServerSetup::<DefaultCipherSuite>::deserialize(setup).map_err(|e| e.to_string())?;
    let m = RegistrationRequest::deserialize(request).map_err(|e| e.to_string())?;
    let started = ServerRegistration::start(&s, m, user).map_err(|e| e.to_string())?;
    Ok(started.message.serialize().to_vec())
}

/// Relies on `ClientRegistration::start` with the operating system's random
/// source: a fresh blind for each call. Gives the state, then the request.
#[verifier::external_body]
pub(crate) fn client_registration_start(password: &[u8]) -> (r: Result<(Vec<u8>, Vec<u8>), String>)
    ensures
        r matches Ok((state, request)) ==> client_registration_accepted(state@)
            && registration_request_accepted(request@) && request@.len() == REGISTRATION_REQUEST_LEN,
{
    let started = ClientRegistration::<DefaultCipherSuite>::start(&mut OsRng, password)
        .map_err(|e| e.to_string())?;
    Ok((started.state.serialize().to_vec(), started.message.serialize().to_vec()))
}

/// Relies on `ClientRegistration::finish`: it unblinds, stretches with
/// Argon2id (version 0x13) at the given costs, and seals a fresh envelope.
/// Gives the record, the export key and the server's public key.
#[verifier::external_body]
pub(crate) fn client_registration_finish(
    state: &[u8],
    password: &[u8],
    response: &[u8],
    client: Option<&[u8]>,
    server: Option<&[u8]>,
    costs: StretchCosts,
) -> (r: Result<(Vec<u8>, Vec<u8>, Vec<u8>), String>)
    requires
        client_registration_accepted(state@),
        registration_response_accepted(response@),
        argon2_accepts(costs),
    ensures
        r matches Ok((record, export_key, server_key)) ==> record@.len() == REGISTRATION_RECORD_LEN
            && record_accepted(record@) && export_key@.len() == KEY_LEN && server_key@.len() == PUBLIC_KEY_LEN,
{
    let p = Params::new(costs.memory, costs.iterations, costs.parallelism, None).map_err(|e| e.to_string())?;
    let ksf = Argon2::new(Algorithm::Argon2id, Version::V0x13, p);
    let st = ClientRegistration::<DefaultCipherSuite>::deserialize(state).map_err(|e| e.to_string())?;
    let m = RegistrationResponse::deserialize(response).map_err(|e| e.to_string())?;
    let params = ClientRegistrationFinishParameters::new(Identifiers { client, server }, Some(&ksf));
    let done = st.finish(&mut OsRng, password, m, params).map_err(|e| e.to_string())?;
    Ok((done.message.serialize().to_vec(), done.export_key.to_vec(), done.server_s_pk.serialize().to_vec()))
}

/// Relies on `RegistrationUpload::deserialize`, which `ServerRegistration`'s
/// own `deserialize` calls, and on `ServerRegistration::finish`, which keeps the
/// upload as it is: the stored record.
#[verifier::external_body]
pub(crate) fn server_registration_finish(upload: &[u8]) -> (r: Result<Vec<u8>, String>)
    ensures
        r is Ok <==> record_accepted(upload@),
        r matches Ok(v) ==> record_accepted(v@) && v@.len() == REGISTRATION_RECORD_LEN,
{
    let m = RegistrationUpload::<DefaultCipherSuite>::deserialize(upload).map_err(|e| e.to_string())?;
    Ok(ServerRegistration::finish(m).serialize().to_vec())
}

/// Relies on `ClientLogin::start` with the operating system's random source:
/// a fresh blind and ephemeral key for each call. Gives the state, then the
/// request.
#[verifier::external_body]
pub(crate) fn client_login_start(password: &[u8]) -> (r: Result<(Vec<u8>, Vec<u8>), String>)
    ensures
        r matches Ok((state, request)) ==> client_login_accepted(state@)
            && credential_request_accepted(request@) && request@.len() == CREDENTIAL_REQUEST_LEN,
{
    let started = ClientLogin::<DefaultCipherSuite>::start(&mut OsRng, password).map_err(|e| e.to_string())?;
    Ok((started.state.serialize().to_vec(), started.message.serialize().to_vec()))
}

/// Relies on `ServerLogin::start` with the operating system's random source.
/// Without a record it answers from the setup's fake key pair and a masking
/// key drawn at random, in the same format. Gives the state, then the response.
#[verifier::external_body]
pub(crate) fn server_login_start(
    setup: &[u8],
    record: Option<&[u8]>,
    request: &[u8],
    user: &[u8],
    client: Option<&[u8]>,
    server: Option<&[u8]>,
) -> (r: Result<(Vec<u8>, Vec<u8>), String>)
    requires
        setup_accepted(setup@),
        record matches Some(b) ==> record_accepted(b@),
        credential_request_accepted(request@),
    ensures
        r matches Ok((state, response)) ==> server_login_accepted(state@)
            && response@.len() == CREDENTIAL_RESPONSE_LEN && credential_response_accepted(response@),
{
    let s = ServerSetup::<DefaultCipherSuite>::deserialize(setup).map_err(|e| e.to_string())?;
    let file = match record {
        Some(b) => Some(ServerRegistration::deserialize(b).map_err(|e| e.to_string())?),
        None => None,
    };
    let m = CredentialRequest::deserialize(request).map_err(|e| e.to_string())?;
    let params = ServerLoginStartParameters { context: None, identifiers: Identifiers { client, server } };
    let started = ServerLogin::start(&mut OsRng, &s, file, m, user, params).map_err(|e| e.to_string())?;
    Ok((started.state.serialize().to_vec(), started.message.serialize().to_vec()))
}

/// Relies on `ClientLogin::finish`: it stretches with Argon2id (version 0x13)
/// at the given costs, opens the envelope and checks the server's MAC. Gives
/// the finalization, the session key, the export key and the server's public
/// key.
#[verifier::external_body]
pub(crate) fn client_login_finish(
    state: &[u8],
    password: &[u8],
    response: &[u8],
    client: Option<&[u8]>,
    server: Option<&[u8]>,
    costs: StretchCosts,
) -> (r: Result<(Vec<u8>, Vec<u8>, Vec<u8>, Vec<u8>), String>)
    requires
        client_login_accepted(state@),
        credential_response_accepted(response@),
        argon2_accepts(costs),
    ensures
        match r {
            Ok((f, s, e, k)) => client_login_outcome_of(state@, password@, response@, opt_slice(client), opt_slice(server), costs)
                == Some((f@, s@, e@, k@)),
            Err(_) => client_login_outcome_of(state@, password@, response@, opt_slice(client), opt_slice(server), costs) is None,
        },
        r matches Ok((f, s, e, k)) ==> f@.len() == CREDENTIAL_FINALIZATION_LEN && finalization_accepted(f@)
            && s@.len() == KEY_LEN && e@.len() == KEY_LEN && k@.len() == PUBLIC_KEY_LEN,
{
    let p = Params::new(costs.memory, costs.iterations, costs.parallelism, None).map_err(|e| e.to_string())?;
    let ksf = Argon2::new(Algorithm::Argon2id, Version::V0x13, p);
    let st = ClientLogin::<DefaultCipherSuite>::deserialize(state).map_err(|e| e.to_string())?;
    let m = CredentialResponse::deserialize(response).map_err(|e| e.to_string())?;
    let params = ClientLoginFinishParameters::new(None, Identifiers { client, server }, Some(&ksf));
    let done = st.finish(password, m, params).map_err(|e| e.to_string())?;
    Ok((done.message.serialize().to_vec(), done.session_key.to_vec(), done.export_key.to_vec(), done.server_s_pk.serialize().to_vec()))
}

/// Relies on `ServerLogin::finish`: it checks the client's MAC over the
/// transcript and gives the session key.
#[verifier::external_body]
pub(crate) fn server_login_finish(state: &[u8], finalization: &[u8]) -> (r: Result<Vec<u8>, String>)
    requires
        server_login_accepted(state@),
        finalization_accepted(finalization@),
    ensures
        match r {
            Ok(k) => server_session_key_of(state@, finalization@) == Some(k@),
            Err(_) => server_session_key_of(state@, finalization@) is None,
        },
        r matches Ok(k) ==> k@.len() == KEY_LEN,
{
    let st = ServerLogin::<DefaultCipherSuite>::deserialize(state).map_err(|e| e.to_string())?;
    let m = CredentialFinalization::deserialize(finalization).map_err(|e| e.to_string())?;
    let done = st.finish(m).map_err(|e| e.to_string())?;
    Ok(done.session_key.to_vec())
}

} // verus!
