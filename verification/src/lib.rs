//! Decision logic of the copycat_code learning-platform backend: accounts and
//! sessions, courses and their modules, and the HTTP replies of each endpoint.
//! Database, session storage and the web server stay outside; the functions here
//! take what those produce and decide what happens next.

pub mod auth;
pub mod course;
pub mod error;
pub mod flow;
pub mod lecture;
pub mod module;
pub mod password;
pub mod reply;
pub mod store;
pub mod user;
