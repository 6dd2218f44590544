pub mod json;
pub mod message;
pub mod report;
pub mod text;
pub mod transport;
