//! Session-based authentication for a small web service: a credential store
//! of users and sessions, a session resolver, an authenticator, signup and
//! logout, and the responses the request handlers answer with.

pub mod error;
pub mod forms;
pub mod handlers;
pub mod html;
pub mod models;
pub mod password;
pub mod response;
pub mod schema;
pub mod secret;
pub mod session;
pub mod statics;
pub mod store;
pub mod text;
