//! The session: the shared key that signs messages, and who speaks.

use crate::wire::signing::bytes_of_hex;
use crate::wire::signing::hmac_sha256;
use crate::wire::signing::is_hex;
use crate::wire::wire_message::key_view;
use crate::wire::wire_message::sign;
use crate::wire::wire_message::signature_of;
use crate::wire::wire_message::signed_payload;
use crate::wire::wire_message::validate_hmac;
use crate::wire::wire_message::MessageError;
use vstd::prelude::*;
use vstd::slice::slice_to_vec;
use vstd::utf8::encode_utf8;

verus! {

/// The signing key of the kernel and the identity of its session.
pub struct Session {
    /// The HMAC key; `None` when signing is off.
    pub key: Option<Vec<u8>>,
    /// Unique identifier of this session.
    pub session_id: String,
    /// The user the kernel speaks for.
    pub username: String,
}

impl Session {
    /// A session with the key of a connection descriptor; an empty key
    /// turns signing off.
    pub fn create(key: &str, session_id: String, username: String) -> (r: Session)
        ensures
            r.key is None <==> key@.len() == 0,
            r.key is Some ==> r.key->Some_0@ == encode_utf8(key@),
            r.session_id@ == session_id@,
            r.username@ == username@,
    {
        let key = if key.is_empty() {
            None
        } else {
            Some(slice_to_vec(key.as_bytes()))
        };
        Session { key, session_id, username }
    }

    /// The signature frame for the four blobs.
    pub fn sign(&self, h: &Vec<u8>, p: &Vec<u8>, m: &Vec<u8>, c: &Vec<u8>) -> (r: Vec<u8>)
        ensures
            r@ == signature_of(key_view(&self.key), signed_payload(h@, p@, m@, c@)),
    {
        sign(&self.key, h, p, m, c)
    }

    /// Checks a signature frame against the four blobs: without a key all
    /// pass; with one, the frame must be hex text of their HMAC-SHA256 tag.
    pub fn verify(&self, signature: &Vec<u8>, h: &Vec<u8>, p: &Vec<u8>, m: &Vec<u8>, c: &Vec<u8>) -> (r:
        Result<(), MessageError>)
        ensures
            match key_view(&self.key) {
                None => r is Ok,
                Some(k) => (r is Ok) == (is_hex(signature@) && bytes_of_hex(signature@)
                    == hmac_sha256(k, signed_payload(h@, p@, m@, c@))),
            },
    {
        validate_hmac(signature, h, p, m, c, &self.key)
    }
}

} // verus!
