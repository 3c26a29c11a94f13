pub mod entry;
pub mod errors;
pub mod render;
pub mod respond;
pub mod store;
