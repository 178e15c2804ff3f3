//! A terminal picker over shell history: fuzzy filtering, a bounded
//! selection cursor, a view state machine and the naming and framing of
//! what gets saved and sent.

pub mod enrich;
pub mod error;
pub mod filter;
pub mod history;
pub mod renderer;
pub mod selection;
pub mod store;
pub mod text;
pub mod view;

pub use enrich::{ChatMessage, EnrichmentResult, GPTRequest, Role, ServiceReply};
pub use error::PickerError;
pub use filter::fuzzy_filter;
pub use renderer::{DrawOp, Renderer, SessionState};
pub use selection::{MoveDirection, SelectionList};
pub use view::{Action, HistoryView, Key, ViewKind};
