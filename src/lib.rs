//! A local control bridge: capability tokens granted by a local user, a
//! multiplexed session protocol that relays requests and the output of an
//! external tool, and a single-flight coordinator for updating that tool.

pub mod text;
pub mod notify;
pub mod registry;
pub mod release;
pub mod session;
pub mod token;
pub mod update;
pub mod window;
