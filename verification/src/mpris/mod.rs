pub mod metadata;
pub mod types;
