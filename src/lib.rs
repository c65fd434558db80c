//! Extra utilities for reqwest: keep the response body of a failed HTTP status
//! together with the error.

pub mod error;
pub mod outside;
mod sealed;
pub mod status;

pub use error::{render_parts, rendered, ErrorWithBody};
pub use outside::{bytes_content, error_text, is_failure_code, status_code_of, url_of, without_url_of};
pub use status::{checks, ResponseStatus, StatusCheck};
