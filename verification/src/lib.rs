//! Decision logic of a one-shot uploader: which endpoint a file goes to, under
//! which name, and what is reported once the server has answered.

pub mod config;
pub mod endpoint;
pub mod payload;
pub mod report;
pub mod run;
pub mod session;
pub mod upload;
