pub mod cookie;
pub mod cors;
pub mod headers;
pub mod password;
