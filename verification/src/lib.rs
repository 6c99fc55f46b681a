//! Safe, verified control surface over a native device-automation engine.
//!
//! The native engine itself is an opaque collaborator reached over a C ABI;
//! this crate holds everything that can be stated and proved about the
//! wrapper: the task wire format (a canonical flat JSON object per task),
//! the message decoding, the connection model, the task registry kept by an
//! assistant instance, and the buffer growth protocol used for calls whose
//! output size is not known in advance.

pub mod assistant;
pub mod connection;
pub mod growth;
pub mod installer;
pub mod json;
pub mod message;
pub mod task;
pub mod types;

pub use assistant::Assistant;
pub use assistant::AssistantBuilder;
pub use assistant::Lifecycle;
pub use assistant::TaskItem;
pub use connection::Connection;
pub use message::AsstMsg;
pub use message::Message;
pub use types::Error;
pub use types::InstanceOptionKey;
pub use types::StaticOptionKey;
