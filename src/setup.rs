use vstd::prelude::*;
use crate::codec::{b64, base64_decode, base64_encode, decoded, is_b64, lemma_decoded_b64};
use crate::engine::{check_setup, new_server_setup, server_public_key, server_public_key_of, setup_accepted, SERVER_SETUP_LEN};
use crate::error::Error;

verus! {

/// The outcome of reading a serialized setup from its transport text: its
/// bytes, a decode error, or the engine's refusal.
pub open spec fn setup_outcome(text: Seq<char>, r: Result<Vec<u8>, Error>) -> bool {
    match r {
        Ok(b) => is_b64(text) && setup_accepted(decoded(text)) && b@ == decoded(text),
        Err(e) => setup_error(text, e),
    }
}

/// The error owed for a setup text that cannot be used.
pub open spec fn setup_error(text: Seq<char>, e: Error) -> bool {
    if !is_b64(text) {
        e.is_decode_at("serverSetup"@)
    } else {
        !setup_accepted(decoded(text)) && e.is_protocol_at("deserialize serverSetup"@)
    }
}

/// The setup text can be used.
pub open spec fn setup_ok(text: Seq<char>) -> bool {
    is_b64(text) && setup_accepted(decoded(text))
}

/// Fresh long-term server key material and OPRF seed, as transport text.
pub fn create_server_setup() -> (r: String)
    ensures
        setup_ok(r@),
        decoded(r@).len() == SERVER_SETUP_LEN,
{
    let bytes = new_server_setup();
    proof {
        lemma_decoded_b64(bytes@);
    }
    base64_encode(bytes.as_slice())
}

pub fn decode_server_setup(data: &str) -> (r: Result<Vec<u8>, Error>)
    ensures
        setup_outcome(data@, r),
{
    let bytes = base64_decode("serverSetup", data)?;
    match check_setup(bytes.as_slice()) {
        Ok(()) => Ok(bytes),
        Err(detail) => Err(Error::Protocol { context: "deserialize serverSetup", detail }),
    }
}

/// The server's static public key, as transport text.
pub fn get_server_public_key(data: String) -> (r: Result<String, Error>)
    ensures
        match r {
            Ok(k) => setup_ok(data@) && k@ == b64(server_public_key_of(decoded(data@))),
            Err(e) => setup_error(data@, e),
        },
{
    let setup = decode_server_setup(data.as_str())?;
    let key = server_public_key(setup.as_slice());
    Ok(base64_encode(key.as_slice()))
}

} // verus!
