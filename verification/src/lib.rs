//! Error-classification and response-translation boundary of a web service.
//!
//! Internal failures (store errors, malformed requests, missing routes,
//! disallowed methods) are classified in a fixed priority order and rendered
//! into a uniform JSON error envelope with an appropriate status code.

pub mod classify;
pub mod error;
pub mod handler;
pub mod response;

pub use classify::Classification;
pub use classify::Signal;
pub use classify::classify;
pub use error::Error;
pub use handler::handle_rejection;
pub use response::ErrorResponse;
pub use response::Response;
pub use response::build_response;
