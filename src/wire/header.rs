//! The header that every Jupyter message carries.

use vstd::prelude::*;

verus! {

/// Metadata envelope of a message: identifies it and says what it is.
#[derive(Clone, Debug)]
pub struct JupyterHeader {
    /// Unique identifier of the message.
    pub msg_id: String,
    /// Identifier of the session that sent it.
    pub session: String,
    /// Name of the user.
    pub username: String,
    /// Time of creation (RFC 3339).
    pub date: String,
    /// The type of the message, such as `execute_request`.
    pub msg_type: String,
    /// Version of the messaging protocol.
    pub version: String,
}

/// The mathematical value of a [`JupyterHeader`].
pub struct HeaderView {
    pub msg_id: Seq<char>,
    pub session: Seq<char>,
    pub username: Seq<char>,
    pub date: Seq<char>,
    pub msg_type: Seq<char>,
    pub version: Seq<char>,
}

impl View for JupyterHeader {
    type V = HeaderView;

    open spec fn view(&self) -> HeaderView {
        HeaderView {
            msg_id: self.msg_id@,
            session: self.session@,
            username: self.username@,
            date: self.date@,
            msg_type: self.msg_type@,
            version: self.version@,
        }
    }
}

impl JupyterHeader {
    /// A copy of this header.
    pub fn duplicate(&self) -> (r: JupyterHeader)
        ensures
            r@ == self@,
    {
        JupyterHeader {
            msg_id: self.msg_id.clone(),
            session: self.session.clone(),
            username: self.username.clone(),
            date: self.date.clone(),
            msg_type: self.msg_type.clone(),
            version: self.version.clone(),
        }
    }
}

} // verus!
