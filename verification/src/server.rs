//! The server and monitor records and the text of the listen address.
//!
//! The server here is the validated configuration the listener is built
//! from: its fresh identifier, display name, host octets and port, and the
//! `host:port` text the socket is bound to.  Binding the socket, switching
//! its blocking mode and reading from accepted connections are plain I/O at
//! the process's edge and stay outside the library, as does the polling loop
//! (its decisions live in [`crate::signal`]).

use vstd::prelude::*;
use vstd::string::StringExecFns;

verus! {

/// The character of one decimal digit.
pub open spec fn digit_char(d: int) -> char {
    if d == 0 {
        '0'
    } else if d == 1 {
        '1'
    } else if d == 2 {
        '2'
    } else if d == 3 {
        '3'
    } else if d == 4 {
        '4'
    } else if d == 5 {
        '5'
    } else if d == 6 {
        '6'
    } else if d == 7 {
        '7'
    } else if d == 8 {
        '8'
    } else {
        '9'
    }
}

/// The decimal rendering of `n`, most significant digit first, no leading
/// zeros, and a single zero for zero itself.
pub open spec fn dec_rep(n: nat) -> Seq<char>
    decreases n,
{
    if n < 10 {
        seq![digit_char(n as int)]
    } else {
        dec_rep(n / 10).push(digit_char((n % 10) as int))
    }
}

/// One decimal digit as text.
fn digit_str(d: u8) -> (r: &'static str)
    requires
        d < 10,
    ensures
        r@ == seq![digit_char(d as int)],
{
    let r: &'static str = match d {
        0 => "0",
        1 => "1",
        2 => "2",
        3 => "3",
        4 => "4",
        5 => "5",
        6 => "6",
        7 => "7",
        8 => "8",
        _ => "9",
    };
    proof {
        reveal_strlit("0");
        reveal_strlit("1");
        reveal_strlit("2");
        reveal_strlit("3");
        reveal_strlit("4");
        reveal_strlit("5");
        reveal_strlit("6");
        reveal_strlit("7");
        reveal_strlit("8");
        reveal_strlit("9");
        assert(r@ =~= seq![digit_char(d as int)]);
    }
    r
}

/// Render `n` in decimal.
pub fn decimal_string(n: u16) -> (r: String)
    ensures
        r@ == dec_rep(n as nat),
{
    let mut acc = String::from_str("");
    let mut m: u16 = n;
    proof {
        reveal_strlit("");
        assert(dec_rep(n as nat) =~= dec_rep(m as nat) + acc@);
    }
    while m >= 10
        invariant
            dec_rep(n as nat) == dec_rep(m as nat) + acc@,
        decreases m,
    {
        let ghost acc_old = acc@;
        let d = (m % 10) as u8;
        let piece = digit_str(d);
        let combined = String::from_str(piece).concat(acc.as_str());
        proof {
            let q = (m / 10) as nat;
            let c = digit_char((m % 10) as int);
            assert(dec_rep(m as nat) == dec_rep(q).push(c));
            assert(dec_rep(q).push(c) =~= dec_rep(q) + seq![c]);
            assert((dec_rep(q) + seq![c]) + acc_old =~= dec_rep(q) + (seq![c] + acc_old));
            assert(combined@ == seq![c] + acc_old);
        }
        acc = combined;
        m = m / 10;
    }
    let r = String::from_str(digit_str(m as u8)).concat(acc.as_str());
    proof {
        assert(dec_rep(m as nat) == seq![digit_char(m as int)]);
    }
    r
}

/// The `host:port` text the listener binds to: the four octets in decimal,
/// separated by dots, then a colon and the decimal port.
pub open spec fn addr_text(host: Seq<u8>, port: u16) -> Seq<char> {
    dec_rep(host[0] as nat) + "."@ + dec_rep(host[1] as nat) + "."@ + dec_rep(host[2] as nat)
        + "."@ + dec_rep(host[3] as nat) + ":"@ + dec_rep(port as nat)
}

/// Format the listen address of four host octets and a port.
pub fn bind_address(host: &[u8; 4], port: u16) -> (r: String)
    ensures
        r@ == addr_text(host@, port),
{
    let mut s = decimal_string(host[0] as u16);
    s.append(".");
    s.append(decimal_string(host[1] as u16).as_str());
    s.append(".");
    s.append(decimal_string(host[2] as u16).as_str());
    s.append(".");
    s.append(decimal_string(host[3] as u16).as_str());
    s.append(":");
    s.append(decimal_string(port).as_str());
    s
}

/// Relies on uuid's `Uuid::new_v4` and `Uuid::as_u128`: a freshly drawn
/// random identifier, returned as its 128-bit value.  The result is random,
/// so nothing is promised of it.
#[verifier::external_body]
fn fresh_id() -> u128 {
    uuid::Uuid::new_v4().as_u128()
}

/// The validated server configuration: a fresh identifier, the display
/// name, and the host and port the listener is bound to.  The socket itself
/// lives with the process that binds it.
pub struct Server {
    id: u128,
    name: String,
    host: [u8; 4],
    port: u16,
}

impl Server {
    /// This server's identifier.
    pub closed spec fn spec_id(self) -> u128 {
        self.id
    }

    /// This server's display name.
    pub closed spec fn spec_name(self) -> Seq<char> {
        self.name@
    }

    /// The four host octets.
    pub closed spec fn spec_host(self) -> Seq<u8> {
        self.host@
    }

    /// The listen port.
    pub closed spec fn spec_port(self) -> u16 {
        self.port
    }

    /// Assemble a server from its validated configuration, under a freshly
    /// drawn identifier.  Binding the listener to [`Server::bind_address`]
    /// is the surrounding process's step.
    pub fn new(name: String, host: [u8; 4], port: u16) -> (s: Server)
        ensures
            s.spec_name() == name@,
            s.spec_host() == host@,
            s.spec_port() == port,
    {
        Server { id: fresh_id(), name, host, port }
    }

    /// This server's identifier.
    pub fn id(&self) -> (r: u128)
        ensures
            r == self.spec_id(),
    {
        self.id
    }

    /// This server's display name.
    pub fn name(&self) -> (r: &String)
        ensures
            r@ == self.spec_name(),
    {
        &self.name
    }

    /// The four host octets.
    pub fn host(&self) -> (r: [u8; 4])
        ensures
            r@ == self.spec_host(),
    {
        self.host
    }

    /// The listen port.
    pub fn port(&self) -> (r: u16)
        ensures
            r == self.spec_port(),
    {
        self.port
    }

    /// The `host:port` text this server's listener binds to.
    pub fn bind_address(&self) -> (r: String)
        ensures
            r@ == addr_text(self.spec_host(), self.spec_port()),
    {
        bind_address(&self.host, self.port)
    }
}

/// The monitor record: nothing but a fresh identifier yet.
pub struct Monitor {
    id: u128,
}

impl Monitor {
    /// This monitor's identifier.
    pub closed spec fn spec_id(self) -> u128 {
        self.id
    }

    /// A monitor under a freshly drawn identifier.
    pub fn new() -> Monitor {
        Monitor { id: fresh_id() }
    }

    /// This monitor's identifier.
    pub fn id(&self) -> (r: u128)
        ensures
            r == self.spec_id(),
    {
        self.id
    }
}

/// Assemble the server and its monitor from the validated configuration.
pub fn pre_build(name: String, host: [u8; 4], port: u16) -> (r: (Server, Monitor))
    ensures
        r.0.spec_name() == name@,
        r.0.spec_host() == host@,
        r.0.spec_port() == port,
{
    let server = Server::new(name, host, port);
    let monitor = Monitor::new();
    (server, monitor)
}

} // verus!
