//! The call catalogue: parameters, response kinds and endpoints.
pub mod payload;
pub mod resp;
pub mod util;
