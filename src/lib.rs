//! A small downloader library: how a request target is given a scheme, and how
//! the name of the file that receives a response body is chosen.

pub mod search;
pub mod uri;
pub mod response;
pub mod filename;
