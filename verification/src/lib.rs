pub mod data;
pub mod error;
pub mod level;
pub mod perl;
pub mod pipeline;
