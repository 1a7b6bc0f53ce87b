use vstd::prelude::*;
use vstd::string::StringExecFns;

verus! {

/// A hard failure of an operation. Each carries the field or step at which it
/// arose, and the text that the failing component gave.
#[derive(Debug)]
pub enum Error {
    /// Malformed transport text: a field is not URL-safe base64 without padding.
    Decode { context: &'static str, detail: String },
    /// A well-formed message that the protocol engine refused.
    Protocol { context: &'static str, detail: String },
    /// A key-stretching parameter combination that the hash function refuses.
    Configuration { context: &'static str, detail: String },
}

impl Error {
    pub open spec fn context_view(&self) -> Seq<char> {
        match self {
            Error::Decode { context, .. } => context@,
            Error::Protocol { context, .. } => context@,
            Error::Configuration { context, .. } => context@,
        }
    }

    pub open spec fn detail_view(&self) -> Seq<char> {
        match self {
            Error::Decode { detail, .. } => detail@,
            Error::Protocol { detail, .. } => detail@,
            Error::Configuration { detail, .. } => detail@,
        }
    }

    /// A decode failure of the named field.
    pub open spec fn is_decode_at(&self, field: Seq<char>) -> bool {
        self is Decode && self.context_view() == field
    }

    /// An engine refusal at the named step.
    pub open spec fn is_protocol_at(&self, step: Seq<char>) -> bool {
        self is Protocol && self.context_view() == step
    }

    /// The leading words of the message, by kind.
    pub open spec fn prefix_view(&self) -> Seq<char> {
        match self {
            Error::Decode { .. } => "base64 decoding failed at \""@,
            Error::Protocol { .. } => "opaque protocol error at \""@,
            Error::Configuration { .. } => "Internal error at \""@,
        }
    }

    /// The human-readable text of the failure.
    pub open spec fn message_view(&self) -> Seq<char> {
        self.prefix_view() + self.context_view() + "\"; "@ + self.detail_view()
    }

    pub fn message(&self) -> (r: String)
        ensures
            r@ == self.message_view(),
    {
        let (prefix, context, detail) = match self {
            Error::Decode { context, detail } => ("base64 decoding failed at \"", *context, detail),
            Error::Protocol { context, detail } => ("opaque protocol error at \"", *context, detail),
            Error::Configuration { context, detail } => ("Internal error at \"", *context, detail),
        };
        let mut text = String::from_str(prefix);
        text.append(context);
        text.append("\"; ");
        text.append(detail.as_str());
        text
    }
}

} // verus!
