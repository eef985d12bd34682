pub mod internals;
pub mod version;
