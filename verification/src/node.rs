//! Node identities and their filename-safe token encoding.
//!
//! Each booted machine publishes one immutable identity record.  The record
//! is encoded into a short token (serialize, compress, base-58) so that a
//! directory listing alone lets any reader reconstruct a peer's connection
//! details.  Decoding is the exact inverse, which is proved in
//! [`lemma_token_round_trip`].

use vstd::prelude::*;

use crate::codec;
use crate::errors::{DecodeError, EncodeError};
use crate::text;

verus! {

/// The class of a node: anchor nodes form the bootstrap set of a custom
/// network; non-anchor nodes join afterwards.
#[derive(Debug, Clone, Copy, PartialEq, Eq, Structural)]
pub enum Kind {
    Anchor,
    NonAnchor,
}

impl Kind {
    /// The wire name of the class.
    pub open spec fn spec_name(self) -> Seq<char> {
        match self {
            Kind::Anchor => "anchor"@,
            Kind::NonAnchor => "non-anchor"@,
        }
    }

    /// Returns the wire name of the class.
    pub fn name(&self) -> (r: String)
        ensures
            r@ == self.spec_name(),
    {
        match self {
            Kind::Anchor => "anchor".to_owned(),
            Kind::NonAnchor => "non-anchor".to_owned(),
        }
    }
}

/// A discovery phase that a booting node publishes to shared storage.
/// Anchor nodes pass through all three phases; non-anchor nodes skip
/// bootstrapping.
#[derive(Debug, Clone, Copy, PartialEq, Eq, Structural)]
pub enum Phase {
    Provisioning,
    Bootstrapping,
    Ready,
}

impl Phase {
    /// How far along the lifecycle this phase is.
    pub open spec fn rank(self) -> nat {
        match self {
            Phase::Provisioning => 0,
            Phase::Bootstrapping => 1,
            Phase::Ready => 2,
        }
    }
}

/// The phase a node advances to after publishing `current`, if any.
pub open spec fn spec_next_phase(kind: Kind, current: Phase) -> Option<Phase> {
    match (kind, current) {
        (Kind::Anchor, Phase::Provisioning) => Some(Phase::Bootstrapping),
        (Kind::Anchor, Phase::Bootstrapping) => Some(Phase::Ready),
        (Kind::NonAnchor, Phase::Provisioning) => Some(Phase::Ready),
        _ => None,
    }
}

/// Returns the phase a node of class `kind` advances to after `current`:
/// anchors go provisioning, bootstrapping, ready; non-anchors go straight
/// from provisioning to ready.  A ready node has nowhere further to go.
pub fn next_phase(kind: Kind, current: Phase) -> (r: Option<Phase>)
    ensures
        r == spec_next_phase(kind, current),
        r matches Some(p) ==> p.rank() > current.rank(),
{
    match (kind, current) {
        (Kind::Anchor, Phase::Provisioning) => Some(Phase::Bootstrapping),
        (Kind::Anchor, Phase::Bootstrapping) => Some(Phase::Ready),
        (Kind::NonAnchor, Phase::Provisioning) => Some(Phase::Ready),
        _ => None,
    }
}

/// The phase a reader must treat as authoritative, given the phase
/// directories in which a machine id was observed: the most advanced one.
/// A node mid-transition may appear in two directories at once; history is
/// never deleted, so earlier phases remain visible.
pub fn most_advanced_phase(in_provisioning: bool, in_bootstrapping: bool, in_ready: bool) -> (r:
    Option<Phase>)
    ensures
        r is Some <==> (in_provisioning || in_bootstrapping || in_ready),
        r == Some(Phase::Ready) <==> in_ready,
        r == Some(Phase::Bootstrapping) <==> (in_bootstrapping && !in_ready),
        r == Some(Phase::Provisioning) <==> (in_provisioning && !in_bootstrapping && !in_ready),
{
    if in_ready {
        Some(Phase::Ready)
    } else if in_bootstrapping {
        Some(Phase::Bootstrapping)
    } else if in_provisioning {
        Some(Phase::Provisioning)
    } else {
        None
    }
}

/// One booted machine's identity record.  Immutable once published; owned
/// by the publishing machine.
#[derive(Debug, Clone, PartialEq, Eq)]
pub struct Node {
    /// The wire name of the node class, `anchor` or `non-anchor`.
    pub kind: String,
    /// The cloud instance identifier.
    pub machine_id: String,
    /// The consensus-layer node id, an opaque string.
    pub node_id: String,
    /// The machine's public IP.
    pub public_ip: String,
    /// The node's HTTP endpoint URL.
    pub http_endpoint: String,
}

/// The mathematical contents of a [`Node`].
pub struct NodeView {
    pub kind: Seq<char>,
    pub machine_id: Seq<char>,
    pub node_id: Seq<char>,
    pub public_ip: Seq<char>,
    pub http_endpoint: Seq<char>,
}

impl View for Node {
    type V = NodeView;

    open spec fn view(&self) -> NodeView {
        NodeView {
            kind: self.kind@,
            machine_id: self.machine_id@,
            node_id: self.node_id@,
            public_ip: self.public_ip@,
            http_endpoint: self.http_endpoint@,
        }
    }
}

/// The serialized record: five length-prefixed character strings.
pub open spec fn pack_node(n: NodeView) -> Seq<u8> {
    codec::pack_str(n.kind) + codec::pack_str(n.machine_id) + codec::pack_str(n.node_id)
        + codec::pack_str(n.public_ip) + codec::pack_str(n.http_endpoint)
}

/// The record can be serialized: every field fits its length prefix and
/// the whole encoding fits in one allocation.
pub open spec fn encodable(n: NodeView) -> bool {
    codec::fits_len(n.kind) && codec::fits_len(n.machine_id) && codec::fits_len(n.node_id)
        && codec::fits_len(n.public_ip) && codec::fits_len(n.http_endpoint) && pack_node(n).len()
        <= usize::MAX
}

/// The token for a record: its serialization, run-length compressed, then
/// written as base-58 digit pairs.
pub open spec fn spec_token(n: NodeView) -> Seq<char> {
    codec::b58_pairs(codec::rle(pack_node(n)))
}

/// Reads a serialized record back; `None` when the bytes do not lay out
/// exactly five fields.
pub open spec fn spec_unpack_node(b: Seq<u8>) -> Option<NodeView> {
    match codec::unpack_str(b, 0) {
        None => None,
        Some((kind, p1)) => match codec::unpack_str(b, p1) {
            None => None,
            Some((machine_id, p2)) => match codec::unpack_str(b, p2) {
                None => None,
                Some((node_id, p3)) => match codec::unpack_str(b, p3) {
                    None => None,
                    Some((public_ip, p4)) => match codec::unpack_str(b, p4) {
                        None => None,
                        Some((http_endpoint, p5)) => if p5 == b.len() {
                            Some(NodeView { kind, machine_id, node_id, public_ip, http_endpoint })
                        } else {
                            None
                        },
                    },
                },
            },
        },
    }
}

/// What decoding a token yields: the record, or the stage that failed.
pub open spec fn spec_decode_token(s: Seq<char>) -> Result<NodeView, DecodeError> {
    match codec::b58_unpairs(s) {
        None => Err(DecodeError::Base58),
        Some(z) => match codec::unrle(z) {
            None => Err(DecodeError::Decompress),
            Some(bytes) => match spec_unpack_node(bytes) {
                None => Err(DecodeError::Layout),
                Some(n) => Ok(n),
            },
        },
    }
}

/// Decoding a token is the exact inverse of encoding: for every record
/// that can be encoded at all, decoding its token yields the record back.
pub proof fn lemma_token_round_trip(n: NodeView)
    requires
        encodable(n),
    ensures
        spec_decode_token(spec_token(n)) == Ok::<NodeView, DecodeError>(n),
{
    let bytes = pack_node(n);
    codec::lemma_b58_round_trip(codec::rle(bytes));
    codec::lemma_rle_round_trip(bytes);
    lemma_unpack_of_packed_node(n);
}

proof fn lemma_unpack_of_packed_node(n: NodeView)
    requires
        codec::fits_len(n.kind),
        codec::fits_len(n.machine_id),
        codec::fits_len(n.node_id),
        codec::fits_len(n.public_ip),
        codec::fits_len(n.http_endpoint),
    ensures
        spec_unpack_node(pack_node(n)) == Some(n),
{
    let full = pack_node(n);
    let a1 = codec::pack_str(n.kind);
    let a2 = codec::pack_str(n.machine_id);
    let a3 = codec::pack_str(n.node_id);
    let a4 = codec::pack_str(n.public_ip);
    let a5 = codec::pack_str(n.http_endpoint);
    let p1 = a1.len() as int;
    let p2 = p1 + a2.len();
    let p3 = p2 + a3.len();
    let p4 = p3 + a4.len();
    let p5 = p4 + a5.len();
    assert(full.len() == p5);
    assert(full.subrange(0, p1) =~= a1);
    assert(full.subrange(p1, p2) =~= a2);
    assert(full.subrange(p2, p3) =~= a3);
    assert(full.subrange(p3, p4) =~= a4);
    assert(full.subrange(p4, p5) =~= a5);
    codec::lemma_unpack_str_of_packed(full, 0, n.kind);
    codec::lemma_unpack_str_of_packed(full, p1, n.machine_id);
    codec::lemma_unpack_str_of_packed(full, p2, n.node_id);
    codec::lemma_unpack_str_of_packed(full, p3, n.public_ip);
    codec::lemma_unpack_str_of_packed(full, p4, n.http_endpoint);
}

impl Node {
    /// Builds an identity record; the HTTP endpoint is assembled as
    /// `{scheme}://{ip}:{port}`.
    pub fn new(
        kind: Kind,
        machine_id: &str,
        node_id: &str,
        public_ip: &str,
        http_scheme: &str,
        http_port: u32,
    ) -> (n: Node)
        ensures
            n@.kind == kind.spec_name(),
            n@.machine_id == machine_id@,
            n@.node_id == node_id@,
            n@.public_ip == public_ip@,
            n@.http_endpoint == http_scheme@ + "://"@ + public_ip@ + ":"@ + text::dec_rep(
                http_port as nat,
            ),
    {
        let mut endpoint = http_scheme.to_owned();
        endpoint.append("://");
        endpoint.append(public_ip);
        endpoint.append(":");
        text::push_u64_dec(&mut endpoint, http_port as u64);
        proof {
            assert(endpoint@ =~= http_scheme@ + "://"@ + public_ip@ + ":"@ + text::dec_rep(
                http_port as nat,
            ));
        }
        Node {
            kind: kind.name(),
            machine_id: machine_id.to_owned(),
            node_id: node_id.to_owned(),
            public_ip: public_ip.to_owned(),
            http_endpoint: endpoint,
        }
    }

    /// Encodes this record into its filename-safe token.  Fails exactly
    /// when the record is too large to serialize.
    pub fn compress_base58(&self) -> (r: Result<String, EncodeError>)
        ensures
            match r {
                Ok(t) => encodable(self@) && t@ == spec_token(self@),
                Err(_) => !encodable(self@),
            },
    {
        if !field_fits(&self.kind) || !field_fits(&self.machine_id) || !field_fits(&self.node_id)
            || !field_fits(&self.public_ip) || !field_fits(&self.http_endpoint) {
            return Err(EncodeError::FieldTooLong);
        }
        let total: u64 = 20 + 3 * (self.kind.as_str().unicode_len() as u64
            + self.machine_id.as_str().unicode_len() as u64 + self.node_id.as_str().unicode_len()
            as u64 + self.public_ip.as_str().unicode_len() as u64
            + self.http_endpoint.as_str().unicode_len() as u64);
        proof {
            lemma_pack_node_len(self@);
        }
        if total > usize::MAX as u64 {
            return Err(EncodeError::FieldTooLong);
        }
        let mut bytes: Vec<u8> = Vec::new();
        codec::push_packed_str(&mut bytes, self.kind.as_str());
        codec::push_packed_str(&mut bytes, self.machine_id.as_str());
        codec::push_packed_str(&mut bytes, self.node_id.as_str());
        codec::push_packed_str(&mut bytes, self.public_ip.as_str());
        codec::push_packed_str(&mut bytes, self.http_endpoint.as_str());
        proof {
            assert(bytes@ =~= pack_node(self@));
        }
        let compressed = codec::rle_encode(&bytes);
        Ok(codec::b58_encode_pairs(&compressed))
    }

    /// Decodes a token produced by [`Node::compress_base58`], reporting
    /// the failing stage otherwise.
    pub fn decompress_base58(d: String) -> (r: Result<Node, DecodeError>)
        ensures
            match r {
                Ok(n) => spec_decode_token(d@) == Ok::<NodeView, DecodeError>(n@),
                Err(e) => spec_decode_token(d@) == Err::<NodeView, DecodeError>(e),
            },
    {
        let pairs = match codec::b58_decode_pairs(d.as_str()) {
            Some(p) => p,
            None => {
                return Err(DecodeError::Base58);
            },
        };
        let bytes = match codec::rle_decode(&pairs) {
            Some(b) => b,
            None => {
                return Err(DecodeError::Decompress);
            },
        };
        let (kind, p1) = match codec::read_packed_str(&bytes, 0) {
            Some(x) => x,
            None => {
                return Err(DecodeError::Layout);
            },
        };
        let (machine_id, p2) = match codec::read_packed_str(&bytes, p1) {
            Some(x) => x,
            None => {
                return Err(DecodeError::Layout);
            },
        };
        let (node_id, p3) = match codec::read_packed_str(&bytes, p2) {
            Some(x) => x,
            None => {
                return Err(DecodeError::Layout);
            },
        };
        let (public_ip, p4) = match codec::read_packed_str(&bytes, p3) {
            Some(x) => x,
            None => {
                return Err(DecodeError::Layout);
            },
        };
        let (http_endpoint, p5) = match codec::read_packed_str(&bytes, p4) {
            Some(x) => x,
            None => {
                return Err(DecodeError::Layout);
            },
        };
        if p5 != bytes.len() {
            return Err(DecodeError::Layout);
        }
        Ok(Node { kind, machine_id, node_id, public_ip, http_endpoint })
    }
}

fn field_fits(s: &String) -> (r: bool)
    ensures
        r == codec::fits_len(s@),
{
    (s.as_str().unicode_len() as u64) < 0x1_0000_0000
}

proof fn lemma_pack_node_len(n: NodeView)
    ensures
        pack_node(n).len() == 20 + 3 * (n.kind.len() + n.machine_id.len() + n.node_id.len()
            + n.public_ip.len() + n.http_endpoint.len()),
{
    codec::lemma_pack_chars_len(n.kind);
    codec::lemma_pack_chars_len(n.machine_id);
    codec::lemma_pack_chars_len(n.node_id);
    codec::lemma_pack_chars_len(n.public_ip);
    codec::lemma_pack_chars_len(n.http_endpoint);
}

} // verus!
