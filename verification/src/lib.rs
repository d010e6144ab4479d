pub mod error;
pub mod model;
pub mod keys;
pub mod laws;
pub mod servers;
pub mod store;
