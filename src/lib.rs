//! The OPAQUE asymmetric password-authenticated key exchange as stateless
//! request and response operations over transport text: registration, login,
//! key stretching, and the failures around them.
pub mod codec;
pub mod engine;
pub mod error;
pub mod identifiers;
pub mod login;
pub mod registration;
pub mod setup;
pub mod stretching;

pub use error::Error;
pub use identifiers::CustomIdentifiers;
pub use login::{
    finish_client_login, finish_server_login, start_client_login, start_server_login, FinishClientLoginParams,
    FinishClientLoginResult, FinishServerLoginParams, FinishServerLoginResult, StartClientLoginParams,
    StartClientLoginResult, StartServerLoginParams, StartServerLoginResult,
};
pub use registration::{
    create_server_registration_response, finish_client_registration, finish_server_registration,
    start_client_registration, CreateServerRegistrationResponseParams, CreateServerRegistrationResponseResult,
    FinishClientRegistrationParams, FinishClientRegistrationResult, StartClientRegistrationParams,
    StartClientRegistrationResult,
};
pub use setup::{create_server_setup, get_server_public_key};
pub use stretching::KeyStretchingFunctionConfig;
