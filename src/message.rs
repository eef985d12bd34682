//! A Jupyter message in typed form.

use crate::wire::header::JupyterHeader;
use vstd::prelude::*;

verus! {

/// Represents a Jupyter message.
#[derive(Debug)]
pub struct JupyterMessage {
    /// The header for this message.
    pub header: JupyterHeader,
    /// The header of the message from which this message originated.
    pub parent_header: JupyterHeader,
    /// Additional metadata, if any.
    pub metadata: (),
    /// The body (payload) of the message.
    pub content: (),
    /// Additional binary data.
    pub buffers: (),
}

} // verus!
