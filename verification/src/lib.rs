//! Safe marshaling layer for a handle-based native similarity-search engine.
//!
//! The engine itself (feature extraction, index storage, similarity scoring)
//! is an external collaborator reached through a status-code interface; it is
//! out of scope here. This crate holds the layer where correctness is at
//! stake: classification of native status codes into a closed error taxonomy,
//! the binary identifier / hex-string codec, the recursive decoder that turns
//! a native tagged value into an owned [`Value`], the result-set adapter with
//! its release discipline, and the session state machine. Each native call's
//! outcome (a status code and, on success, its payload) is handed to this
//! layer as plain values; the layer's decisions are verified.

pub mod ident;
pub mod result_set;
pub mod session;
pub mod status;
pub mod value;

pub use result_set::OtamaResult;
pub use result_set::ResultSet;
pub use session::Otama;
pub use session::SearchReply;
pub use status::Error;
pub use status::Status;
pub use status::StatusCode;
pub use value::NativeValue;
pub use value::Value;
