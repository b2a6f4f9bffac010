//! Request checking and error answers of a skin-rendering web service.

pub mod multipart;
pub mod render;
pub mod request;
pub mod response;
pub mod text;
