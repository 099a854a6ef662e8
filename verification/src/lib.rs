//! Resolution of a chat message into a validated image payload.
//!
//! A message may offer an image in several places: an attachment, the message it replies
//! to, or the sender's profile picture. The library picks the first place that exists,
//! holds it to a policy of formats, sizes and dimensions, and resolves the share pages of
//! indirect media hosts to the media behind them. It performs no lookup and no transfer
//! itself: it says which one it needs next, and goes on when told the outcome.

pub mod candidate;
pub mod chain;
pub mod config;
pub mod error;
pub mod message;
pub mod pattern;
pub mod resolve;
pub mod sanitize;
pub mod sniff;
pub mod step;
pub mod text;
pub mod unfurl;

pub use candidate::{Query, RawResult};
pub use config::ImageResolver;
pub use error::ResolutionError;
pub use message::MessageInfo;
pub use step::{Event, Pending, Step};
