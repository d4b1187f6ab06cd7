//! Relying-party side of the OpenID 2.0 handshake against Steam's community
//! endpoint: building the login redirect, and deciding what a callback is
//! worth once the provider has been asked to confirm it.
//!
//! Nothing here touches the network. A caller sends the user to `redirect`'s
//! URL, hands the query string of the callback to `prepare`, posts the body it
//! gets to `LOGIN_URL` as `application/x-www-form-urlencoded`, and hands the
//! answer to `conclude`.

pub mod assertion;
pub mod error;
pub mod form;
pub mod identity;
pub mod redirect;
pub mod text;
pub mod verification;

pub use assertion::CallbackAssertion;
pub use error::VerifyError;
pub use identity::{parse_u64, steam_id};
pub use redirect::{redirect, redirect_form, try_redirect, LOGIN_URL};
pub use verification::{
    conclude, contains_line, is_confirmed, prepare, submission, verify, Submission,
};
