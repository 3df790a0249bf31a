pub mod details;
pub mod error;
pub mod files;
pub mod gitio;
pub mod hooks;
pub mod hookspath;
pub mod message;
pub mod run;
pub mod text;
