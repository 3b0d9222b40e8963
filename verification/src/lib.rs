pub mod argument;
pub mod classify;
pub mod codec;
pub mod document;
pub mod error;
pub mod filter;
pub mod record;
pub mod store;
pub mod text;
pub mod tracer;
