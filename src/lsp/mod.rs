pub mod document;
pub mod sync;
