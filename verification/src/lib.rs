//! Client-side logic for the beelay switch service: server address
//! normalization, request URL construction, request planning, and
//! interpretation of the server's JSON responses.

pub mod addr;
pub mod json;
pub mod request;
pub mod response;
pub mod url;
