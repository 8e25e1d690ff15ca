pub mod artwork;
pub mod bridge;
pub mod classifier;
pub mod pairing;
