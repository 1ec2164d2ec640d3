//! Tracks live esports matches ("bouts") for a chat community: operators bind
//! aliases to actions on a (tournament, team) pair, invocations reconcile the
//! locally tracked bout against the match provider's latest data, apply the
//! requested per-map edit, and hand back a structured result for rendering.

pub mod api;
pub mod bout;
pub mod clock;
pub mod processor;
pub mod registry;
pub mod response;
pub mod text;
pub mod wrapper;

pub use api::BoutSummary;
pub use bout::Bout;
pub use processor::{ProcessResult, Processor};
pub use registry::{Arguments, DiscordCommands, InternalCommand};
pub use response::{Response, ResponseType};
pub use wrapper::Wrapper;
