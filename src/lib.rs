//! Provider-neutral chat completion schema with verified converters to the
//! structured-turn ("converse") protocol and the contents/parts ("vertex")
//! protocol, plus an incremental server-sent-events framer.
pub mod content;
pub mod converse;
pub mod endpoint;
pub mod error;
pub mod ids;
pub mod json;
pub mod schema;
pub mod sse;
pub mod text;
pub mod vertex;
