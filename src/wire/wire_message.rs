//! Framing of Jupyter messages: identities, the `<IDS|MSG>` delimiter, the
//! signature, the four signed JSON blobs and trailing buffers.

use crate::wire::signing::bytes_of_hex;
use crate::wire::signing::hex_decode;
use crate::wire::signing::hex_digit;
use crate::wire::signing::hex_encode;
use crate::wire::signing::hex_of;
use crate::wire::signing::hex_value;
use crate::wire::signing::hmac_sha256;
use crate::wire::signing::hmac_sign;
use crate::wire::signing::hmac_verify;
use crate::wire::signing::is_hex;
use crate::wire::signing::HexError;
use vstd::prelude::*;
use vstd::slice::slice_to_vec;

verus! {

/// The frame `<IDS|MSG>` that separates routing identities from the message.
pub open spec fn delimiter() -> Seq<u8> {
    seq![60u8, 73u8, 68u8, 83u8, 124u8, 77u8, 83u8, 71u8, 62u8]
}

/// Number of frames that follow the delimiter at the least: the signature
/// and the four signed blobs.
pub const MIN_PARTS: usize = 5;

/// A message as it travels on a socket, before its JSON blobs are read.
pub struct WireMessage {
    /// Routing prefix of a ROUTER socket, in order.
    pub identities: Vec<Vec<u8>>,
    /// JSON text of the header.
    pub header: Vec<u8>,
    /// JSON text of the parent header.
    pub parent_header: Vec<u8>,
    /// JSON text of the metadata.
    pub metadata: Vec<u8>,
    /// JSON text of the content.
    pub content: Vec<u8>,
    /// Additional binary data.
    pub buffers: Vec<Vec<u8>>,
}

/// The mathematical value of a [`WireMessage`].
pub struct WireFrames {
    pub identities: Seq<Seq<u8>>,
    pub header: Seq<u8>,
    pub parent_header: Seq<u8>,
    pub metadata: Seq<u8>,
    pub content: Seq<u8>,
    pub buffers: Seq<Seq<u8>>,
}

impl View for WireMessage {
    type V = WireFrames;

    open spec fn view(&self) -> WireFrames {
        WireFrames {
            identities: self.identities.deep_view(),
            header: self.header@,
            parent_header: self.parent_header@,
            metadata: self.metadata@,
            content: self.content@,
            buffers: self.buffers.deep_view(),
        }
    }
}

/// Why a list of frames is not a valid message.
#[derive(Debug)]
pub enum MessageError {
    /// No frame is the delimiter.
    MissingDelimiter,
    /// Too few frames follow the delimiter (found, expected).
    InsufficientParts(usize, usize),
    /// The signature frame is not hex text.
    InvalidHmac(Vec<u8>, HexError),
    /// The signature does not match the signed blobs; holds the decoded tag.
    BadSignature(Vec<u8>),
}

/// The mathematical value of a [`MessageError`].
pub enum DecodeFailure {
    MissingDelimiter,
    InsufficientParts(nat, nat),
    InvalidHmac(Seq<u8>),
    BadSignature(Seq<u8>),
}

impl View for MessageError {
    type V = DecodeFailure;

    open spec fn view(&self) -> DecodeFailure {
        match self {
            MessageError::MissingDelimiter => DecodeFailure::MissingDelimiter,
            MessageError::InsufficientParts(found, expected) => DecodeFailure::InsufficientParts(
                *found as nat,
                *expected as nat,
            ),
            MessageError::InvalidHmac(sig, _) => DecodeFailure::InvalidHmac(sig@),
            MessageError::BadSignature(tag) => DecodeFailure::BadSignature(tag@),
        }
    }
}

pub open spec fn key_view(key: &Option<Vec<u8>>) -> Option<Seq<u8>> {
    match key {
        Some(k) => Some(k@),
        None => None,
    }
}

pub open spec fn decoded_view(r: Result<WireMessage, MessageError>) -> Result<
    WireFrames,
    DecodeFailure,
> {
    match r {
        Ok(m) => Ok(m@),
        Err(e) => Err(e@),
    }
}

/// The bytes that the signature covers: the four blobs in wire order.
pub open spec fn signed_payload(
    header: Seq<u8>,
    parent_header: Seq<u8>,
    metadata: Seq<u8>,
    content: Seq<u8>,
) -> Seq<u8> {
    header + parent_header + metadata + content
}

/// The signature frame: lowercase hex of the HMAC-SHA256 tag, or empty
/// without a key.
pub open spec fn signature_of(key: Option<Seq<u8>>, payload: Seq<u8>) -> Seq<u8> {
    match key {
        Some(k) => hex_of(hmac_sha256(k, payload)),
        None => Seq::empty(),
    }
}

/// The frames of a message signed under `key`.
pub open spec fn encode_frames(m: WireFrames, key: Option<Seq<u8>>) -> Seq<Seq<u8>> {
    m.identities + seq![
        delimiter(),
        signature_of(key, signed_payload(m.header, m.parent_header, m.metadata, m.content)),
        m.header,
        m.parent_header,
        m.metadata,
        m.content,
    ] + m.buffers
}

/// `p` is the position of the first delimiter frame.
pub open spec fn is_first_delimiter(frames: Seq<Seq<u8>>, p: int) -> bool {
    &&& 0 <= p < frames.len()
    &&& frames[p] == delimiter()
    &&& forall|j: int| 0 <= j < p ==> frames[j] != delimiter()
}

pub open spec fn has_delimiter(frames: Seq<Seq<u8>>) -> bool {
    exists|p: int| is_first_delimiter(frames, p)
}

pub open spec fn delimiter_index(frames: Seq<Seq<u8>>) -> int {
    choose|p: int| is_first_delimiter(frames, p)
}

/// The message that the frames after a delimiter at `p` make up.
pub open spec fn frames_after(frames: Seq<Seq<u8>>, p: int) -> WireFrames {
    WireFrames {
        identities: frames.take(p),
        header: frames[p + 2],
        parent_header: frames[p + 3],
        metadata: frames[p + 4],
        content: frames[p + 5],
        buffers: frames.skip(p + 6),
    }
}

/// What decoding a list of frames under `key` gives.
pub open spec fn decode_frames(frames: Seq<Seq<u8>>, key: Option<Seq<u8>>) -> Result<
    WireFrames,
    DecodeFailure,
> {
    if !has_delimiter(frames) {
        Err(DecodeFailure::MissingDelimiter)
    } else {
        let p = delimiter_index(frames);
        let found = frames.len() - p - 1;
        if found < MIN_PARTS {
            Err(DecodeFailure::InsufficientParts(found as nat, MIN_PARTS as nat))
        } else {
            let sig = frames[p + 1];
            let payload = signed_payload(frames[p + 2], frames[p + 3], frames[p + 4], frames[p + 5]);
            match key {
                None => Ok(frames_after(frames, p)),
                Some(k) => if !is_hex(sig) {
                    Err(DecodeFailure::InvalidHmac(sig))
                } else if bytes_of_hex(sig) != hmac_sha256(k, payload) {
                    Err(DecodeFailure::BadSignature(bytes_of_hex(sig)))
                } else {
                    Ok(frames_after(frames, p))
                },
            }
        }
    }
}

fn delimiter_frame() -> (r: Vec<u8>)
    ensures
        r@ == delimiter(),
{
    let r = vec![60u8, 73u8, 68u8, 83u8, 124u8, 77u8, 83u8, 71u8, 62u8];
    assert(r@ =~= delimiter());
    r
}

fn bytes_equal(a: &[u8], b: &[u8]) -> (r: bool)
    ensures
        r == (a@ == b@),
{
    if a.len() != b.len() {
        return false;
    }
    let mut i: usize = 0;
    while i < a.len()
        invariant
            a@.len() == b@.len(),
            i <= a@.len(),
            forall|j: int| 0 <= j < i ==> a@[j] == b@[j],
        decreases a@.len() - i,
    {
        if a[i] != b[i] {
            return false;
        }
        i = i + 1;
    }
    assert(a@ =~= b@);
    true
}

fn copy_frames(frames: &Vec<Vec<u8>>, from: usize, to: usize) -> (r: Vec<Vec<u8>>)
    requires
        from <= to <= frames@.len(),
    ensures
        r.deep_view() == frames.deep_view().subrange(from as int, to as int),
{
    let mut r: Vec<Vec<u8>> = Vec::new();
    let mut i: usize = from;
    while i < to
        invariant
            from <= i <= to <= frames@.len(),
            r@.len() == i - from,
            forall|j: int| 0 <= j < r@.len() ==> #[trigger] r@[j]@ == frames@[from + j]@,
        decreases to - i,
    {
        r.push(slice_to_vec(frames[i].as_slice()));
        i = i + 1;
    }
    proof {
        lemma_frames_view(&r);
        lemma_frames_view(frames);
    }
    assert(r.deep_view() =~= frames.deep_view().subrange(from as int, to as int));
    r
}

fn concat_payload(h: &Vec<u8>, p: &Vec<u8>, m: &Vec<u8>, c: &Vec<u8>) -> (r: Vec<u8>)
    ensures
        r@ == signed_payload(h@, p@, m@, c@),
{
    let mut r = slice_to_vec(h.as_slice());
    r.extend_from_slice(p.as_slice());
    assert(r@ =~= h@ + p@);
    let ghost hp = r@;
    r.extend_from_slice(m.as_slice());
    assert(r@ =~= hp + m@);
    let ghost hpm = r@;
    r.extend_from_slice(c.as_slice());
    assert(r@ =~= hpm + c@);
    r
}

/// The signature frame for the four blobs: lowercase hex of their
/// HMAC-SHA256 tag under `key`, or an empty frame without a key.
pub fn sign(key: &Option<Vec<u8>>, h: &Vec<u8>, p: &Vec<u8>, m: &Vec<u8>, c: &Vec<u8>) -> (r: Vec<
    u8,
>)
    ensures
        r@ == signature_of(key_view(key), signed_payload(h@, p@, m@, c@)),
{
    match key {
        Some(k) => {
            let payload = concat_payload(h, p, m, c);
            let tag = hmac_sign(k.as_slice(), payload.as_slice());
            hex_encode(tag.as_slice())
        },
        None => Vec::new(),
    }
}

/// Checks the signature frame against the four blobs. Without a key every
/// signature is accepted.
pub fn validate_hmac(
    signature: &Vec<u8>,
    h: &Vec<u8>,
    p: &Vec<u8>,
    m: &Vec<u8>,
    c: &Vec<u8>,
    key: &Option<Vec<u8>>,
) -> (r: Result<(), MessageError>)
    ensures
        match key_view(key) {
            None => r is Ok,
            Some(k) => match r {
                Ok(_) => is_hex(signature@) && bytes_of_hex(signature@) == hmac_sha256(
                    k,
                    signed_payload(h@, p@, m@, c@),
                ),
                Err(e) => {
                    ||| (!is_hex(signature@) && e@ == DecodeFailure::InvalidHmac(signature@))
                    ||| (is_hex(signature@) && bytes_of_hex(signature@) != hmac_sha256(
                        k,
                        signed_payload(h@, p@, m@, c@),
                    ) && e@ == DecodeFailure::BadSignature(bytes_of_hex(signature@)))
                },
            },
        },
{
    let k = match key {
        Some(k) => k,
        None => return Ok(()),
    };
    let decoded = match hex_decode(signature.as_slice()) {
        Ok(d) => d,
        Err(err) => {
            proof {
                match err {
                    HexError::OddLength => {},
                    HexError::InvalidHexCharacter { c, index } => {
                        assert(hex_value(signature@[index as int]) is None);
                    },
                }
            }
            return Err(MessageError::InvalidHmac(slice_to_vec(signature.as_slice()), err));
        },
    };
    let payload = concat_payload(h, p, m, c);
    if !hmac_verify(k.as_slice(), payload.as_slice(), decoded.as_slice()) {
        return Err(MessageError::BadSignature(decoded));
    }
    Ok(())
}

impl WireMessage {
    /// The frames of this message, signed under `key`.
    pub fn to_buffers(&self, key: &Option<Vec<u8>>) -> (r: Vec<Vec<u8>>)
        ensures
            r.deep_view() == encode_frames(self@, key_view(key)),
    {
        let mut r = copy_frames(&self.identities, 0, self.identities.len());
        proof {
            lemma_frames_view(&r);
            lemma_frames_view(&self.identities);
            assert(forall|j: int|
                0 <= j < self.identities@.len() ==> #[trigger] r@[j]@ == self.identities.deep_view()[j]
            ) by {
                assert forall|j: int| 0 <= j < self.identities@.len() implies #[trigger] r@[j]@
                    == self.identities.deep_view()[j] by {
                    assert(r.deep_view()[j] == self.identities.deep_view().subrange(0, self.identities@.len() as int)[j]);
                }
            }
        }
        let ghost r0 = r@;
        let sig = sign(key, &self.header, &self.parent_header, &self.metadata, &self.content);
        r.push(delimiter_frame());
        r.push(sig);
        r.push(slice_to_vec(self.header.as_slice()));
        r.push(slice_to_vec(self.parent_header.as_slice()));
        r.push(slice_to_vec(self.metadata.as_slice()));
        r.push(slice_to_vec(self.content.as_slice()));
        let ghost n = self.identities@.len();
        let ghost mid = seq![
            delimiter(),
            signature_of(
                key_view(key),
                signed_payload(self.header@, self.parent_header@, self.metadata@, self.content@),
            ),
            self.header@,
            self.parent_header@,
            self.metadata@,
            self.content@,
        ];
        assert(forall|j: int| 0 <= j < n ==> #[trigger] r@[j]@ == self.identities.deep_view()[j]);
        assert(forall|j: int| 0 <= j < 6 ==> #[trigger] r@[n + j]@ == mid[j]);
        let mut i: usize = 0;
        while i < self.buffers.len()
            invariant
                i <= self.buffers@.len(),
                r@.len() == n + 6 + i,
                forall|j: int| 0 <= j < n ==> #[trigger] r@[j]@ == self.identities.deep_view()[j],
                forall|j: int| 0 <= j < 6 ==> #[trigger] r@[n + j]@ == mid[j],
                forall|j: int| 0 <= j < i ==> #[trigger] r@[n + 6 + j]@ == self.buffers@[j]@,
            decreases self.buffers@.len() - i,
        {
            r.push(slice_to_vec(self.buffers[i].as_slice()));
            i = i + 1;
        }
        proof {
            lemma_frames_view(&r);
            lemma_frames_view(&self.buffers);
            let e = encode_frames(self@, key_view(key));
            assert(e.len() == r@.len());
            assert forall|j: int| 0 <= j < e.len() implies #[trigger] r.deep_view()[j] == e[j] by {
                if j < n {
                } else if j < n + 6 {
                    assert(r@[n + (j - n)]@ == mid[j - n]);
                } else {
                    assert(r@[n + 6 + (j - n - 6)]@ == self.buffers@[j - n - 6]@);
                }
            }
        }
        assert(r.deep_view() =~= encode_frames(self@, key_view(key)));
        r
    }

    /// Parses a message from the frames of a ZeroMQ message, checking its
    /// signature under `hmac_key`.
    pub fn from_buffers(bufs: Vec<Vec<u8>>, hmac_key: &Option<Vec<u8>>) -> (r: Result<
        WireMessage,
        MessageError,
    >)
        ensures
            decoded_view(r) == decode_frames(bufs.deep_view(), key_view(hmac_key)),
    {
        let ghost frames = bufs.deep_view();
        proof {
            lemma_frames_view(&bufs);
        }
        let delim = delimiter_frame();
        let mut pos: usize = 0;
        while pos < bufs.len()
            invariant
                pos <= bufs@.len(),
                frames == bufs.deep_view(),
                frames.len() == bufs@.len(),
                forall|j: int| 0 <= j < bufs@.len() ==> #[trigger] frames[j] == bufs@[j]@,
                delim@ == delimiter(),
                forall|j: int| 0 <= j < pos ==> frames[j] != delimiter(),
            ensures
                pos <= bufs@.len(),
                forall|j: int| 0 <= j < pos ==> frames[j] != delimiter(),
                pos < bufs@.len() ==> frames[pos as int] == delimiter(),
            decreases bufs@.len() - pos,
        {
            if bytes_equal(bufs[pos].as_slice(), delim.as_slice()) {
                break;
            }
            pos = pos + 1;
        }
        if pos == bufs.len() {
            assert(!has_delimiter(frames)) by {
                if has_delimiter(frames) {
                    let q = choose|q: int| is_first_delimiter(frames, q);
                    assert(frames[q] != delimiter());
                }
            };
            return Err(MessageError::MissingDelimiter);
        }
        assert(is_first_delimiter(frames, pos as int));
        proof {
            lemma_first_delimiter_unique(frames, pos as int);
        }
        let found = bufs.len() - pos - 1;
        if found < MIN_PARTS {
            return Err(MessageError::InsufficientParts(found, MIN_PARTS));
        }
        if let Err(e) = validate_hmac(
            &bufs[pos + 1],
            &bufs[pos + 2],
            &bufs[pos + 3],
            &bufs[pos + 4],
            &bufs[pos + 5],
            hmac_key,
        ) {
            return Err(e);
        }
        let m = WireMessage {
            identities: copy_frames(&bufs, 0, pos),
            header: slice_to_vec(bufs[pos + 2].as_slice()),
            parent_header: slice_to_vec(bufs[pos + 3].as_slice()),
            metadata: slice_to_vec(bufs[pos + 4].as_slice()),
            content: slice_to_vec(bufs[pos + 5].as_slice()),
            buffers: copy_frames(&bufs, pos + 6, bufs.len()),
        };
        assert(m@.identities =~= frames.take(pos as int));
        assert(m@.buffers =~= frames.skip(pos + 6));
        Ok(m)
    }
}

/// The deep view of a list of byte frames holds the frames' views.
pub proof fn lemma_frames_view(frames: &Vec<Vec<u8>>)
    ensures
        frames.deep_view().len() == frames@.len(),
        forall|j: int| 0 <= j < frames@.len() ==> #[trigger] frames.deep_view()[j] == frames@[j]@,
{
    assert forall|j: int| 0 <= j < frames@.len() implies #[trigger] frames.deep_view()[j]
        == frames@[j]@ by {
        assert(frames@[j].deep_view() =~= frames@[j]@);
    }
}

/// There is one first delimiter: `delimiter_index` names it.
pub proof fn lemma_first_delimiter_unique(frames: Seq<Seq<u8>>, p: int)
    requires
        is_first_delimiter(frames, p),
    ensures
        has_delimiter(frames),
        delimiter_index(frames) == p,
{
    let q = delimiter_index(frames);
    assert(is_first_delimiter(frames, q));
    if q < p {
        assert(frames[q] != delimiter());
    }
    if p < q {
        assert(frames[p] != delimiter());
    }
}

proof fn lemma_hex_digit(v: int)
    requires
        0 <= v < 16,
    ensures
        hex_value(hex_digit(v)) == Some(v),
{
}

/// Hex text of bytes is valid hex text and reads back as those bytes.
pub proof fn lemma_hex_round_trip(b: Seq<u8>)
    ensures
        is_hex(hex_of(b)),
        bytes_of_hex(hex_of(b)) == b,
{
    let h = hex_of(b);
    assert forall|i: int| 0 <= i < h.len() implies (#[trigger] hex_value(h[i])) is Some by {
        lemma_hex_digit(b[i / 2] as int / 16);
        lemma_hex_digit(b[i / 2] as int % 16);
    }
    assert forall|i: int| 0 <= i < b.len() implies #[trigger] bytes_of_hex(h)[i] == b[i] by {
        assert((2 * i) / 2 == i && (2 * i) % 2 == 0);
        assert((2 * i + 1) / 2 == i && (2 * i + 1) % 2 == 1);
        lemma_hex_digit(b[i] as int / 16);
        lemma_hex_digit(b[i] as int % 16);
    }
    assert(bytes_of_hex(h) =~= b);
}

/// Decoding the frames of a message signed under `key` gives the message
/// back, provided that none of its identities is the delimiter frame. Without
/// a key the signature frame is empty and no check is made.
pub proof fn lemma_round_trip(m: WireFrames, key: Option<Seq<u8>>)
    requires
        forall|i: int| 0 <= i < m.identities.len() ==> m.identities[i] != delimiter(),
    ensures
        decode_frames(encode_frames(m, key), key) == Ok::<WireFrames, DecodeFailure>(m),
        key is None ==> encode_frames(m, key)[m.identities.len() as int + 1] == Seq::<u8>::empty(),
{
    let f = encode_frames(m, key);
    let n = m.identities.len() as int;
    assert(f[n] == delimiter());
    assert forall|j: int| 0 <= j < n implies f[j] != delimiter() by {
        assert(f[j] == m.identities[j]);
    }
    assert(is_first_delimiter(f, n));
    lemma_first_delimiter_unique(f, n);
    let payload = signed_payload(m.header, m.parent_header, m.metadata, m.content);
    assert(f[n + 2] == m.header && f[n + 3] == m.parent_header);
    assert(f[n + 4] == m.metadata && f[n + 5] == m.content);
    assert(f.take(n) =~= m.identities);
    assert(f.skip(n + 6) =~= m.buffers);
    assert(frames_after(f, n) == m);
    if let Some(k) = key {
        lemma_hex_round_trip(hmac_sha256(k, payload));
    }
}

/// The frames with bit `bit` of byte `i` of frame `j` flipped.
pub open spec fn flip_bit(frames: Seq<Seq<u8>>, j: int, i: int, bit: u8) -> Seq<Seq<u8>> {
    frames.update(j, frames[j].update(i, frames[j][i] ^ (1u8 << bit)))
}

/// The signed payload of the frames after a delimiter at `p`.
pub open spec fn payload_at(frames: Seq<Seq<u8>>, p: int) -> Seq<u8> {
    signed_payload(frames[p + 2], frames[p + 3], frames[p + 4], frames[p + 5])
}

/// Flipping one bit of one of the four signed blobs of a message signed
/// under key `k` changes the signed payload, and decoding then fails with
/// `BadSignature` (holding the tag the message was signed with) whenever
/// the changed payload has another HMAC tag than the unchanged one.
pub proof fn lemma_flipped_bit_rejected(m: WireFrames, k: Seq<u8>, blob: int, i: int, bit: u8)
    requires
        forall|x: int| 0 <= x < m.identities.len() ==> m.identities[x] != delimiter(),
        0 <= blob < 4,
        0 <= i < encode_frames(m, Some(k))[m.identities.len() as int + 2 + blob].len(),
        bit < 8,
    ensures
        ({
            let f = encode_frames(m, Some(k));
            let n = m.identities.len() as int;
            let g = flip_bit(f, n + 2 + blob, i, bit);
            &&& payload_at(g, n) != payload_at(f, n)
            &&& hmac_sha256(k, payload_at(g, n)) != hmac_sha256(k, payload_at(f, n))
                ==> decode_frames(g, Some(k)) == Err::<WireFrames, DecodeFailure>(
                DecodeFailure::BadSignature(hmac_sha256(k, payload_at(f, n))),
            )
        }),
{
    let f = encode_frames(m, Some(k));
    let n = m.identities.len() as int;
    let j = n + 2 + blob;
    let g = flip_bit(f, j, i, bit);
    let x = f[j][i];
    assert(x ^ (1u8 << bit) != x) by (bit_vector)
        requires
            bit < 8,
    ;
    assert(g[j][i] != f[j][i]);
    assert forall|y: int| 0 <= y < n implies g[y] != delimiter() by {
        assert(g[y] == m.identities[y]);
    }
    assert(g[n] == delimiter());
    assert(is_first_delimiter(g, n));
    lemma_first_delimiter_unique(g, n);
    let pf = payload_at(f, n);
    let pg = payload_at(g, n);
    let off = if blob == 0 {
        0
    } else if blob == 1 {
        f[n + 2].len()
    } else if blob == 2 {
        f[n + 2].len() + f[n + 3].len()
    } else {
        f[n + 2].len() + f[n + 3].len() + f[n + 4].len()
    };
    assert(pg[off + i] != pf[off + i]);
    let payload = signed_payload(m.header, m.parent_header, m.metadata, m.content);
    assert(f[n + 2] == m.header && f[n + 3] == m.parent_header);
    assert(f[n + 4] == m.metadata && f[n + 5] == m.content);
    assert(pf == payload);
    assert(g[n + 1] == f[n + 1]);
    lemma_hex_round_trip(hmac_sha256(k, payload));
}

} // verus!
