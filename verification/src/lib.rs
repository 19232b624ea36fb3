//! Consuming a fully received request or response body exactly once, as
//! text, parsed JSON, a blob, form fields or an array buffer.

pub mod types;
pub mod promise;
pub mod runtime;
pub mod text;
pub mod form;
pub mod body;
