//! Decision logic of a self-updating launcher: where a release is installed,
//! how its version is resolved, when the running binary hands over to the
//! current one, which steps rebuild an installation, how an invocation string
//! is read and which command finally starts the client.
pub mod digest;
pub mod layout;
pub mod urls;
pub mod resolver;
pub mod manifest;
pub mod installer;
pub mod relaunch;
pub mod directives;
pub mod launch;
pub mod laws;
