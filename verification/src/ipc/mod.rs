pub mod env;
pub mod frame;
pub mod model;
