//! A Jupyter-protocol kernel runtime: wire framing and signing, the comm
//! manager, the StdIn reverse channel, Shell request bracketing and the
//! lease discipline of the embedded language server.

pub mod comm;
pub mod json;
pub mod kernel;
pub mod lsp;
pub mod message;
pub mod r;
pub mod socket;
pub mod text;
pub mod wire;
