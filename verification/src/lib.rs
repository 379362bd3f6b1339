//! A permission-gated dispatcher for filesystem operation requests.
//!
//! The dispatcher never touches a filesystem itself. It decides, from the
//! session's permissions and a request, which single filesystem call the
//! caller has to perform next, and turns the outcome of that call into the
//! result that is reported back.
pub mod dispatch;
pub mod guarantees;
pub mod request;
pub mod response;
pub mod session;
pub mod text;
pub mod wire;
