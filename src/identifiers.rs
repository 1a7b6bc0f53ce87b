use vstd::prelude::*;
use vstd::utf8::encode_utf8;

verus! {

/// Optional identity strings folded into the key-exchange transcript. Where
/// one is absent, that party's static public key stands for it.
#[derive(Debug)]
pub struct CustomIdentifiers {
    pub client: Option<String>,
    pub server: Option<String>,
}

/// The UTF-8 bytes of an optional string.
pub open spec fn opt_utf8(s: Option<String>) -> Option<Seq<u8>> {
    match s {
        Some(t) => Some(encode_utf8(t@)),
        None => None,
    }
}

pub open spec fn opt_slice(b: Option<&[u8]>) -> Option<Seq<u8>> {
    match b {
        Some(s) => Some(s@),
        None => None,
    }
}

/// The client identifier that a call binds, as bytes.
pub open spec fn client_id_of(idents: Option<CustomIdentifiers>) -> Option<Seq<u8>> {
    match idents {
        Some(i) => opt_utf8(i.client),
        None => None,
    }
}

/// The server identifier that a call binds, as bytes.
pub open spec fn server_id_of(idents: Option<CustomIdentifiers>) -> Option<Seq<u8>> {
    match idents {
        Some(i) => opt_utf8(i.server),
        None => None,
    }
}

fn utf8_bytes<'a>(s: &'a Option<String>) -> (r: Option<&'a [u8]>)
    ensures
        opt_slice(r) == opt_utf8(*s),
{
    match s {
        Some(t) => Some(t.as_str().as_bytes()),
        None => None,
    }
}

/// The client and server identifiers as the engine takes them.
pub fn get_identifiers<'a>(idents: &'a Option<CustomIdentifiers>) -> (r: (Option<&'a [u8]>, Option<&'a [u8]>))
    ensures
        opt_slice(r.0) == client_id_of(*idents),
        opt_slice(r.1) == server_id_of(*idents),
{
    match idents {
        Some(i) => (utf8_bytes(&i.client), utf8_bytes(&i.server)),
        None => (None, None),
    }
}

} // verus!
