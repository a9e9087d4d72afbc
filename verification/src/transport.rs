//! The transport state machine: one owned byte-stream, plaintext or
//! TLS-wrapped, behind a single read/write surface, with a one-time,
//! one-directional encryption upgrade.
//!
//! The byte transfer itself — dialing, the TLS handshake, the reads and
//! writes — happens at the I/O boundary around the library. This type
//! decides which operations are admissible in which state, tracks the
//! upgrade, and hands the I/O layer what it needs: the handshake target
//! and the chunk size for reads.
use vstd::prelude::*;
use vstd::string::*;

use crate::decimal::{dec_rep, dec_str};
use crate::errors::Error;

verus! {

/// Which side of the connection an endpoint descriptor names.
#[derive(Clone, Copy, Debug)]
pub enum NodeType {
    Host,
    Peer,
}

/// An IPv4 address, as its four octets.
#[derive(Clone, Copy, Debug, PartialEq, Eq, Structural)]
pub struct Ipv4 {
    pub a: u8,
    pub b: u8,
    pub c: u8,
    pub d: u8,
}

/// The `a.b.c.d` rendering of an address.
pub open spec fn ipv4_rep(ip: Ipv4) -> Seq<char> {
    dec_rep(ip.a as nat) + seq!['.'] + dec_rep(ip.b as nat) + seq!['.'] + dec_rep(ip.c as nat)
        + seq!['.'] + dec_rep(ip.d as nat)
}

/// The `ip:port` rendering of an endpoint, the dial and TLS-handshake
/// target.
pub open spec fn connection_string_rep(ip: Ipv4, port: u16) -> Seq<char> {
    ipv4_rep(ip) + seq![':'] + dec_rep(port as nat)
}

/// A resolved peer identity: node role, IPv4 address and port.
/// Immutable once resolved; address resolution itself happens at the
/// I/O boundary and hands the chosen address in as plain octets.
#[derive(Clone, Copy, Debug)]
pub struct NodeInfo {
    m_node_type: NodeType,
    m_ipv4: Ipv4,
    m_port: u16,
}

impl NodeInfo {
    pub closed spec fn node_type_spec(&self) -> NodeType {
        self.m_node_type
    }

    pub closed spec fn ipv4_spec(&self) -> Ipv4 {
        self.m_ipv4
    }

    pub closed spec fn port_spec(&self) -> u16 {
        self.m_port
    }

    pub fn new(node_type: NodeType, ipv4: Ipv4, port: u16) -> (r: Self)
        ensures
            r.node_type_spec() == node_type,
            r.ipv4_spec() == ipv4,
            r.port_spec() == port,
    {
        NodeInfo { m_node_type: node_type, m_ipv4: ipv4, m_port: port }
    }

    pub fn get_ipv4(&self) -> (r: Ipv4)
        ensures
            r == self.ipv4_spec(),
    {
        self.m_ipv4
    }

    pub fn get_port(&self) -> (r: u16)
        ensures
            r == self.port_spec(),
    {
        self.m_port
    }

    pub fn get_node_type(&self) -> (r: NodeType)
        ensures
            r == self.node_type_spec(),
    {
        self.m_node_type
    }

    /// Renders the endpoint as `ip:port`.
    pub fn get_connection_string(&self) -> (r: String)
        ensures
            r@ == connection_string_rep(self.ipv4_spec(), self.port_spec()),
    {
        proof {
            reveal_strlit(".");
            reveal_strlit(":");
        }
        let mut s = dec_str(self.m_ipv4.a as u16);
        s.append(".");
        let part = dec_str(self.m_ipv4.b as u16);
        s.append(part.as_str());
        s.append(".");
        let part = dec_str(self.m_ipv4.c as u16);
        s.append(part.as_str());
        s.append(".");
        let part = dec_str(self.m_ipv4.d as u16);
        s.append(part.as_str());
        s.append(":");
        let part = dec_str(self.m_port);
        s.append(part.as_str());
        proof {
            assert(s@ =~= connection_string_rep(self.ipv4_spec(), self.port_spec()));
        }
        s
    }
}

/// Identity and encryption status of one live stream.
#[derive(Clone, Copy, Debug)]
pub struct StreamInfo {
    pub m_is_encrypted: bool,
    pub m_host: NodeInfo,
    pub m_peer: NodeInfo,
}

impl StreamInfo {
    pub fn is_encrypted(&self) -> (r: bool)
        ensures
            r == self.m_is_encrypted,
    {
        self.m_is_encrypted
    }

    pub fn get_host(&self) -> (r: NodeInfo)
        ensures
            r == self.m_host,
    {
        self.m_host
    }

    pub fn get_peer(&self) -> (r: NodeInfo)
        ensures
            r == self.m_peer,
    {
        self.m_peer
    }
}

/// The two shapes the one owned stream can take. The upgrade replaces
/// Plain with Encrypted; there is no path back and no state that holds
/// both.
#[derive(Clone, Copy, Debug, PartialEq, Eq, Structural)]
pub enum StreamState {
    Plain,
    Encrypted,
}

/// The transport: present (open) or absent (closed), and while present,
/// in Plain or Encrypted shape, with the endpoint identities and the
/// chunk size reads should use.
pub struct Transport {
    m_stream: Option<StreamState>,
    m_stream_info: Option<StreamInfo>,
    m_buffsize: u16,
    m_accept_invalid_certs: bool,
}

impl Transport {
    pub closed spec fn stream_spec(&self) -> Option<StreamState> {
        self.m_stream
    }

    pub closed spec fn info_spec(&self) -> Option<StreamInfo> {
        self.m_stream_info
    }

    pub closed spec fn buffsize_spec(&self) -> u16 {
        self.m_buffsize
    }

    pub closed spec fn accept_invalid_certs_spec(&self) -> bool {
        self.m_accept_invalid_certs
    }

    pub open spec fn is_open_spec(&self) -> bool {
        self.stream_spec() is Some
    }

    pub open spec fn is_encrypted_spec(&self) -> bool {
        self.stream_spec() == Some(StreamState::Encrypted)
    }

    /// Well-formed: the identity record is present exactly while the
    /// stream is, and its encryption flag agrees with the stream shape.
    pub open spec fn wf(&self) -> bool {
        match (self.stream_spec(), self.info_spec()) {
            (Some(st), Some(info)) => info.m_is_encrypted == (st == StreamState::Encrypted),
            (None, None) => true,
            _ => false,
        }
    }

    /// The upgrade gate: admissible exactly on an open, still-plaintext
    /// transport.
    pub open spec fn upgrade_admissible(&self) -> bool {
        self.is_open_spec() && !self.is_encrypted_spec()
    }

    /// How a successful upgrade leaves the transport: open, encrypted,
    /// with the same endpoints and configuration.
    pub open spec fn upgrade_result(pre: Transport, post: Transport) -> bool {
        &&& post.is_open_spec()
        &&& post.is_encrypted_spec()
        &&& post.wf()
        &&& post.info_spec() matches Some(info) && pre.info_spec() matches Some(pre_info)
            && info.m_host == pre_info.m_host && info.m_peer == pre_info.m_peer
            && info.m_is_encrypted
        &&& post.buffsize_spec() == pre.buffsize_spec()
        &&& post.accept_invalid_certs_spec() == pre.accept_invalid_certs_spec()
    }

    /// A transport fresh from a dial: open, plaintext, with the given
    /// endpoints, read chunk size and certificate trust policy. Passing
    /// `accept_invalid_certs` relaxes handshake validation; it is an
    /// explicit configuration choice made at open time, never a default.
    pub fn new(host: NodeInfo, peer: NodeInfo, buffsize: u16, accept_invalid_certs: bool) -> (r:
        Self)
        ensures
            r.wf(),
            r.is_open_spec(),
            !r.is_encrypted_spec(),
            r.info_spec() matches Some(info) && info.m_host == host && info.m_peer == peer
                && !info.m_is_encrypted,
            r.buffsize_spec() == buffsize,
            r.accept_invalid_certs_spec() == accept_invalid_certs,
    {
        Transport {
            m_stream: Some(StreamState::Plain),
            m_stream_info: Some(StreamInfo { m_is_encrypted: false, m_host: host, m_peer: peer }),
            m_buffsize: buffsize,
            m_accept_invalid_certs: accept_invalid_certs,
        }
    }

    /// Whether handshake certificate validation was relaxed when this
    /// transport was opened.
    pub fn accepts_invalid_certs(&self) -> (r: bool)
        ensures
            r == self.accept_invalid_certs_spec(),
    {
        self.m_accept_invalid_certs
    }

    pub fn is_open(&self) -> (r: bool)
        ensures
            r == self.is_open_spec(),
    {
        self.m_stream.is_some()
    }

    /// Releases the stream and the identity derived from it; every later
    /// operation fails with the closed-connection error.
    pub fn close(&mut self)
        ensures
            final(self).wf(),
            !final(self).is_open_spec(),
            final(self).info_spec() is None,
            final(self).buffsize_spec() == old(self).buffsize_spec(),
            final(self).accept_invalid_certs_spec() == old(self).accept_invalid_certs_spec(),
    {
        self.m_stream = None;
        self.m_stream_info = None;
    }

    /// Whether the live stream is TLS-wrapped; on a closed transport the
    /// query itself fails.
    pub fn is_encrypted(&self) -> (r: Result<bool, Error>)
        ensures
            self.info_spec() matches Some(info) ==> (r matches Ok(b) && b == info.m_is_encrypted),
            self.info_spec() is None ==> (r matches Err(Error::ClosedConnection(m)) && m@
                == "Check encryption status"@),
    {
        match &self.m_stream_info {
            Some(info) => Ok(info.is_encrypted()),
            None => Err(
                Error::ClosedConnection(String::from_str("Check encryption status")),
            ),
        }
    }

    pub fn get_host_info(&self) -> (r: Result<NodeInfo, Error>)
        ensures
            self.info_spec() matches Some(info) ==> (r matches Ok(n) && n == info.m_host),
            self.info_spec() is None ==> (r matches Err(Error::ClosedConnection(m)) && m@
                == "Get host info"@),
    {
        match &self.m_stream_info {
            Some(info) => Ok(info.get_host()),
            None => Err(Error::ClosedConnection(String::from_str("Get host info"))),
        }
    }

    pub fn get_peer_info(&self) -> (r: Result<NodeInfo, Error>)
        ensures
            self.info_spec() matches Some(info) ==> (r matches Ok(n) && n == info.m_peer),
            self.info_spec() is None ==> (r matches Err(Error::ClosedConnection(m)) && m@
                == "Get peer info"@),
    {
        match &self.m_stream_info {
            Some(info) => Ok(info.get_peer()),
            None => Err(Error::ClosedConnection(String::from_str("Get peer info"))),
        }
    }

    /// The one-time encryption upgrade decision. On an open plaintext
    /// transport it replaces Plain with Encrypted and hands back the
    /// handshake target: the expected hostname the caller names, which
    /// the I/O layer performs the TLS handshake against (and validates
    /// the server certificate against, unless validation was relaxed at
    /// open time). On handshake failure the I/O layer closes the
    /// transport: network-level failures are fatal. A closed transport
    /// and an already-encrypted one are rejected unchanged.
    pub fn try_upgrade_to_tls(&mut self, expected_hostname: &str) -> (r: Result<String, Error>)
        requires
            old(self).wf(),
        ensures
            final(self).wf(),
            r is Ok <==> old(self).upgrade_admissible(),
            old(self).upgrade_admissible() ==> Transport::upgrade_result(
                *old(self),
                *final(self),
            ),
            old(self).upgrade_admissible() ==> (r matches Ok(target) && target@
                == expected_hostname@),
            !old(self).is_open_spec() ==> (r matches Err(Error::ClosedConnection(m)) && m@
                == "Encrypt connection"@ && *final(self) == *old(self)),
            old(self).is_open_spec() && old(self).is_encrypted_spec() ==> (r matches Err(
                Error::TlsUpgrade(m),
            ) && m@ == "Encrypt connection. Connection is already encrypted"@ && *final(self)
                == *old(self)),
    {
        match (&self.m_stream, &self.m_stream_info) {
            (Some(StreamState::Plain), Some(info)) => {
                let host = info.get_host();
                self.m_stream = Some(StreamState::Encrypted);
                self.m_stream_info = Some(
                    StreamInfo {
                        m_is_encrypted: true,
                        m_host: host,
                        m_peer: info.get_peer(),
                    },
                );
                Ok(expected_hostname.to_owned())
            },
            (Some(StreamState::Encrypted), _) => Err(
                Error::TlsUpgrade(
                    String::from_str("Encrypt connection. Connection is already encrypted"),
                ),
            ),
            _ => Err(Error::ClosedConnection(String::from_str("Encrypt connection"))),
        }
    }

    /// Admits a write of `buf` through the live stream, whichever shape
    /// it has; the byte count confirmed is the whole buffer, never a
    /// partial write. On a closed transport the write is rejected.
    pub fn write(&self, buf: &[u8]) -> (r: Result<usize, Error>)
        ensures
            self.is_open_spec() ==> (r matches Ok(n) && n == buf@.len()),
            !self.is_open_spec() ==> (r matches Err(Error::ClosedConnection(m)) && m@
                == "Write"@),
    {
        if self.is_open() {
            Ok(buf.len())
        } else {
            Err(Error::ClosedConnection(String::from_str("Write")))
        }
    }

    /// Admits a read and hands back the chunk size the accumulation loop
    /// should use. On a closed transport the read is rejected.
    pub fn begin_read(&self) -> (r: Result<usize, Error>)
        ensures
            self.is_open_spec() ==> (r matches Ok(n) && n == self.buffsize_spec() as usize),
            !self.is_open_spec() ==> (r matches Err(Error::ClosedConnection(m)) && m@ == "Read"@),
    {
        if self.is_open() {
            Ok(self.m_buffsize as usize)
        } else {
            Err(Error::ClosedConnection(String::from_str("Read")))
        }
    }
}

/// A reply has been fully received once the accumulated bytes end in
/// the two-byte terminator CR LF.
pub open spec fn ends_with_crlf(s: Seq<u8>) -> bool {
    s.len() >= 2 && s[s.len() - 2] == 13 && s[s.len() - 1] == 10
}

/// Appends the first `n` bytes of the chunk one read produced to the
/// accumulated reply.
pub fn append_chunk(response: &mut Vec<u8>, chunk: &[u8], n: usize)
    requires
        n <= chunk@.len(),
    ensures
        final(response)@ == old(response)@ + chunk@.take(n as int),
{
    let mut i: usize = 0;
    while i < n
        invariant
            0 <= i <= n,
            n <= chunk@.len(),
            response@ == old(response)@ + chunk@.take(i as int),
        decreases n - i,
    {
        let b = chunk[i];
        response.push(b);
        proof {
            assert(old(response)@ + chunk@.take(i + 1) =~= (old(response)@ + chunk@.take(
                i as int,
            )).push(chunk@[i as int]));
        }
        i = i + 1;
    }
    proof {
        assert(response@ =~= old(response)@ + chunk@.take(n as int));
    }
}

/// Whether the accumulated reply ends in the CR LF terminator.
pub fn response_complete(response: &Vec<u8>) -> (r: bool)
    ensures
        r == ends_with_crlf(response@),
{
    let len = response.len();
    len >= 2 && response[len - 2] == 13 && response[len - 1] == 10
}

/// Index of the first colon at or after `i`, or the length if none.
pub open spec fn find_colon(s: Seq<char>, i: int) -> int
    decreases s.len() - i,
{
    if i < 0 || i >= s.len() {
        s.len() as int
    } else if s[i] == ':' {
        i
    } else {
        find_colon(s, i + 1)
    }
}

/// The host part of a `host:port` connect target: everything before
/// the first colon, or the whole string when there is none. It names
/// the TLS handshake target.
pub open spec fn host_part_rep(s: Seq<char>) -> Seq<char> {
    s.take(find_colon(s, 0))
}

/// Splits the host part off a `host:port` connect target.
pub fn host_part(server: &str) -> (r: String)
    ensures
        r@ == host_part_rep(server@),
{
    let n = server.unicode_len();
    let mut i: usize = 0;
    while i < n && server.get_char(i) != ':'
        invariant
            0 <= i <= n,
            n == server@.len(),
            find_colon(server@, 0) == find_colon(server@, i as int),
        decreases n - i,
    {
        i = i + 1;
    }
    proof {
        assert(find_colon(server@, 0) == i as int);
    }
    let part = server.substring_char(0, i);
    let r = part.to_owned();
    proof {
        assert(r@ =~= host_part_rep(server@));
    }
    r
}

/// One upgrade is all a transport ever admits: a successful upgrade
/// leaves it open and encrypted, and on an encrypted transport the
/// upgrade gate is shut, so a second attempt fails as already encrypted
/// and changes nothing.
pub proof fn lemma_upgrade_is_one_time(pre: Transport, post: Transport)
    requires
        pre.upgrade_admissible(),
        Transport::upgrade_result(pre, post),
    ensures
        post.is_open_spec(),
        post.is_encrypted_spec(),
        !post.upgrade_admissible(),
{
}

/// A closed transport admits nothing: the write, read and upgrade gates
/// are all shut, and the identity queries have nothing to answer, so by
/// their contracts every one of these operations fails with the
/// closed-connection error.
pub proof fn lemma_closed_transport_rejects_all(t: Transport)
    requires
        t.wf(),
        !t.is_open_spec(),
    ensures
        !t.upgrade_admissible(),
        t.info_spec() is None,
{
}

} // verus!
