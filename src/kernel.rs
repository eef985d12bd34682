//! What the kernel supervisor decides from its connection descriptor, and
//! the StdIn forwarder's choice of work in each poll cycle.

use crate::text::owned;
use crate::text::same_text;
use vstd::prelude::*;
use vstd::slice::slice_to_vec;
use vstd::string::StringExecFns;
use vstd::utf8::encode_utf8;

verus! {

/// Whether the stream capture thread captures stdout and stderr: with
/// `Capture` it does, with `NoCapture` (for tests) it does not start.
#[derive(Debug, Clone, Copy, PartialEq, Eq, Structural)]
pub enum StreamBehavior {
    Capture,
    NoCapture,
}

/// The contents of a connection descriptor.
#[derive(Debug, Clone)]
pub struct ConnectionFile {
    pub control_port: u16,
    pub shell_port: u16,
    pub stdin_port: u16,
    pub iopub_port: u16,
    pub hb_port: u16,
    pub transport: String,
    pub signature_scheme: String,
    pub ip: String,
    pub key: String,
}

/// The character of a decimal digit.
pub open spec fn digit_char(d: nat) -> char {
    if d == 0 {
        '0'
    } else if d == 1 {
        '1'
    } else if d == 2 {
        '2'
    } else if d == 3 {
        '3'
    } else if d == 4 {
        '4'
    } else if d == 5 {
        '5'
    } else if d == 6 {
        '6'
    } else if d == 7 {
        '7'
    } else if d == 8 {
        '8'
    } else {
        '9'
    }
}

/// The decimal text of a number, without leading zeros.
pub open spec fn decimal(n: nat) -> Seq<char>
    decreases n,
{
    if n < 10 {
        seq![digit_char(n)]
    } else {
        decimal(n / 10).push(digit_char(n % 10))
    }
}

/// The endpoint address `{transport}://{ip}:{port}`.
pub open spec fn endpoint_of(transport: Seq<char>, ip: Seq<char>, port: nat) -> Seq<char> {
    transport + "://"@ + ip + ":"@ + decimal(port)
}

fn digit_text(d: u64) -> (r: &'static str)
    requires
        d < 10,
    ensures
        r@ == seq![digit_char(d as nat)],
{
    proof {
        reveal_strlit("0");
        reveal_strlit("1");
        reveal_strlit("2");
        reveal_strlit("3");
        reveal_strlit("4");
        reveal_strlit("5");
        reveal_strlit("6");
        reveal_strlit("7");
        reveal_strlit("8");
        reveal_strlit("9");
    }
    if d == 0 {
        "0"
    } else if d == 1 {
        "1"
    } else if d == 2 {
        "2"
    } else if d == 3 {
        "3"
    } else if d == 4 {
        "4"
    } else if d == 5 {
        "5"
    } else if d == 6 {
        "6"
    } else if d == 7 {
        "7"
    } else if d == 8 {
        "8"
    } else {
        "9"
    }
}

/// The decimal text of `n`.
pub fn decimal_text(n: u64) -> (r: String)
    ensures
        r@ == decimal(n as nat),
    decreases n,
{
    if n < 10 {
        owned(digit_text(n))
    } else {
        let mut s = decimal_text(n / 10);
        s.append(digit_text(n % 10));
        s
    }
}

impl ConnectionFile {
    /// The address of the socket on `port`.
    pub fn endpoint(&self, port: u16) -> (r: String)
        ensures
            r@ == endpoint_of(self.transport@, self.ip@, port as nat),
    {
        let mut r = self.transport.clone();
        r.append("://");
        r.append(self.ip.as_str());
        r.append(":");
        let p = decimal_text(port as u64);
        r.append(p.as_str());
        r
    }

    /// Whether the descriptor names a signature scheme this kernel speaks:
    /// `hmac-sha256`, or none at all.
    pub fn supports_signature_scheme(&self) -> (r: bool)
        ensures
            r == (self.signature_scheme@ == "hmac-sha256"@ || self.signature_scheme@.len() == 0),
    {
        self.signature_scheme.as_str().is_empty() || same_text(
            self.signature_scheme.as_str(),
            "hmac-sha256",
        )
    }

    /// The key that signs messages; an empty key turns signing off.
    pub fn hmac_key(&self) -> (r: Option<Vec<u8>>)
        ensures
            r is None <==> self.key@.len() == 0,
            r is Some ==> r->Some_0@ == encode_utf8(self.key@),
    {
        if self.key.as_str().is_empty() {
            None
        } else {
            Some(slice_to_vec(self.key.as_str().as_bytes()))
        }
    }
}

/// Work for the StdIn forwarder in a poll cycle.
#[derive(Debug, Clone, Copy, PartialEq, Eq, Structural)]
pub enum ForwardStep {
    /// Move one outbound message from its channel to the socket.
    Outbound,
    /// Move one inbound message from the socket to its channel.
    Inbound,
}

/// The work of one poll cycle: every source found ready at the poll is
/// served before the next poll, outbound first, so that neither direction
/// starves. With nothing ready the cycle does nothing and polls again.
pub fn forward_cycle(outbound_ready: bool, inbound_ready: bool) -> (r: Vec<ForwardStep>)
    ensures
        r@ == (if outbound_ready {
            seq![ForwardStep::Outbound]
        } else {
            Seq::<ForwardStep>::empty()
        }) + (if inbound_ready {
            seq![ForwardStep::Inbound]
        } else {
            Seq::<ForwardStep>::empty()
        }),
{
    let mut r: Vec<ForwardStep> = Vec::new();
    if outbound_ready {
        r.push(ForwardStep::Outbound);
    }
    if inbound_ready {
        r.push(ForwardStep::Inbound);
    }
    assert(r@ =~= (if outbound_ready {
        seq![ForwardStep::Outbound]
    } else {
        Seq::<ForwardStep>::empty()
    }) + (if inbound_ready {
        seq![ForwardStep::Inbound]
    } else {
        Seq::<ForwardStep>::empty()
    }));
    r
}

} // verus!
