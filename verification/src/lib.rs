//! Session registry for a turn-based multiplayer board game.
//!
//! Players create a game session, other players join it, and any client can
//! list the sessions currently open or fetch one session's roster. The crate
//! holds the authoritative session state: the data model (`player`,
//! `session`), the in-memory store that owns all sessions (`store`), and the
//! service facade that validates requests and maps store outcomes to protocol
//! errors (`service`). The `laws` module states and proves the registry-wide
//! guarantees, such as uniqueness of created session identifiers.
//!
//! Transport (RPC or HTTP), the board rules engine, and rendering are
//! external collaborators: they are clients of this registry and own no
//! session state.

pub mod errors;
pub mod laws;
pub mod player;
pub mod service;
pub mod session;
pub mod store;
