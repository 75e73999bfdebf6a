//! Health evaluation for a blockchain node pair: an execution client and a
//! consensus (beacon) client. The library decodes the clients' responses,
//! applies the ordered readiness check policy, and drives the startup and
//! polling state machines whose verdict the HTTP layer publishes.

pub mod codec;
pub mod env;
pub mod errors;
pub mod execution_node;
pub mod json;
pub mod lighthouse;
pub mod readiness;
pub mod scheduler;
pub mod server;
