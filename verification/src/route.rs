//! Relays and destinations.

use vstd::prelude::*;

use crate::b64::{
    decode_url_safe, encode_url_safe, is_url_safe_char, url_safe_decoding, url_safe_encoding,
};
use crate::constants::{DESTINATION_ADDRESS_LENGTH, IDENTIFIER_LENGTH, NODE_ADDRESS_LENGTH};
use crate::crypto::{generate_random_curve_point, is_base_point_multiple, PublicKey};

verus! {

/// Address of a packet's final recipient.
pub type DestinationAddressBytes = [u8; DESTINATION_ADDRESS_LENGTH];

/// Identifier of a single-use reply block.
pub type SURBIdentifier = [u8; IDENTIFIER_LENGTH];

/// The sequence of `len` bytes that are all equal to `byte`.
pub open spec fn repeated(byte: u8, len: nat) -> Seq<u8> {
    Seq::new(len, |i: int| byte)
}

/// Why a text or a run of bytes is not a relay address.
#[derive(Clone, Copy, Debug, PartialEq, Eq, Structural)]
pub enum NodeAddressError {
    /// The text is not URL-safe base64.
    MalformedBase64,
    /// The bytes are not exactly `NODE_ADDRESS_LENGTH` long.
    WrongLength,
}

/// Address of a relay.
#[derive(Clone, Copy, Debug, PartialEq)]
pub struct NodeAddressBytes(pub [u8; NODE_ADDRESS_LENGTH]);

impl View for NodeAddressBytes {
    type V = Seq<u8>;

    open spec fn view(&self) -> Seq<u8> {
        self.0@
    }
}

/// Whether `text` is the URL-safe base64 form of some relay address: it
/// decodes, and to exactly `NODE_ADDRESS_LENGTH` bytes.
pub open spec fn is_b64_address(text: Seq<char>) -> bool {
    url_safe_decoding(text) matches Some(bytes) && bytes.len() == NODE_ADDRESS_LENGTH
}

impl NodeAddressBytes {
    /// The address as padded URL-safe base64 text. The text is 44 characters
    /// of the URL-safe alphabet, and `from_b64_string` reads the address back
    /// from it.
    pub fn to_b64_string(&self) -> (text: String)
        ensures
            text@ == url_safe_encoding(self@),
            text@.len() == 44,
            forall|i: int| 0 <= i < text@.len() ==> is_url_safe_char(#[trigger] text@[i]),
            url_safe_decoding(text@) == Some(self@),
    {
        encode_url_safe(self.0.as_slice())
    }

    /// The address that `value` is the URL-safe base64 form of.
    pub fn from_b64_string(value: String) -> (address: Self)
        requires
            is_b64_address(value@),
        ensures
            url_safe_decoding(value@) == Some(address@),
    {
        match decode_url_safe(value.as_str()) {
            Ok(decoded) => match Self::try_from_byte_slice(decoded.as_slice()) {
                Ok(address) => address,
                Err(_) => vstd::pervasive::unreached(),
            },
            Err(_) => vstd::pervasive::unreached(),
        }
    }

    /// Reads an address from URL-safe base64 text, or says why `value` is
    /// none: it is not base64 at all, or it decodes to another number of
    /// bytes than an address has.
    pub fn try_from_b64_string(value: String) -> (parsed: Result<Self, NodeAddressError>)
        ensures
            match parsed {
                Ok(address) => url_safe_decoding(value@) == Some(address@),
                Err(NodeAddressError::MalformedBase64) => url_safe_decoding(value@) is None,
                Err(NodeAddressError::WrongLength) => url_safe_decoding(value@) matches Some(bytes)
                    && bytes.len() != NODE_ADDRESS_LENGTH,
            },
            parsed is Ok <==> is_b64_address(value@),
    {
        match decode_url_safe(value.as_str()) {
            Ok(decoded) => {
                if decoded.len() == NODE_ADDRESS_LENGTH {
                    Ok(Self::from_b64_string(value))
                } else {
                    Err(NodeAddressError::WrongLength)
                }
            },
            Err(_) => Err(NodeAddressError::MalformedBase64),
        }
    }

    /// The address made of exactly the bytes of `bytes`, where there are
    /// `NODE_ADDRESS_LENGTH` of them.
    pub fn try_from_byte_slice(bytes: &[u8]) -> (parsed: Result<Self, NodeAddressError>)
        ensures
            match parsed {
                Ok(address) => address@ == bytes@,
                Err(error) => error == NodeAddressError::WrongLength && bytes@.len()
                    != NODE_ADDRESS_LENGTH,
            },
    {
        if bytes.len() != NODE_ADDRESS_LENGTH {
            return Err(NodeAddressError::WrongLength);
        }
        let mut address_bytes = [0u8; NODE_ADDRESS_LENGTH];
        let mut i: usize = 0;
        while i < NODE_ADDRESS_LENGTH
            invariant
                i <= NODE_ADDRESS_LENGTH,
                bytes@.len() == NODE_ADDRESS_LENGTH,
                forall|j: int| 0 <= j < i ==> address_bytes@[j] == bytes@[j],
            decreases NODE_ADDRESS_LENGTH - i,
        {
            address_bytes[i] = bytes[i];
            i += 1;
        }
        assert(address_bytes@ =~= bytes@);
        Ok(NodeAddressBytes(address_bytes))
    }
}

/// Where a packet is finally delivered, and the reply block it belongs to.
#[derive(Debug, PartialEq)]
pub struct Destination {
    pub address: DestinationAddressBytes,
    pub identifier: SURBIdentifier,
}

impl Destination {
    /// The destination at `address` for the reply block `identifier`.
    pub fn new(address: DestinationAddressBytes, identifier: SURBIdentifier) -> (destination: Self)
        ensures
            destination.address == address,
            destination.identifier == identifier,
    {
        Self { address, identifier }
    }
}

/// A relay: where it is reached, and the long-term public key it unwraps
/// packets with.
#[derive(Clone, Copy, Debug, PartialEq)]
pub struct Node {
    pub address: NodeAddressBytes,
    pub pub_key: PublicKey,
}

impl Node {
    /// The relay at `address` that holds the private key of `pub_key`.
    pub fn new(address: NodeAddressBytes, pub_key: PublicKey) -> (node: Self)
        ensures
            node.address == address,
            node.pub_key == pub_key,
    {
        Self { address, pub_key }
    }
}

/// A destination address of zero bytes only.
pub fn destination_address_fixture() -> (address: DestinationAddressBytes)
    ensures
        address@ == repeated(0, DESTINATION_ADDRESS_LENGTH as nat),
{
    let address = [0u8; DESTINATION_ADDRESS_LENGTH];
    assert(address@ =~= repeated(0, DESTINATION_ADDRESS_LENGTH as nat));
    address
}

/// A relay address of zero bytes only.
pub fn node_address_fixture() -> (address: NodeAddressBytes)
    ensures
        address@ == repeated(0, NODE_ADDRESS_LENGTH as nat),
{
    let address = NodeAddressBytes([0u8; NODE_ADDRESS_LENGTH]);
    assert(address@ =~= repeated(0, NODE_ADDRESS_LENGTH as nat));
    address
}

/// A reply-block identifier of zero bytes only.
pub fn surb_identifier_fixture() -> (identifier: SURBIdentifier)
    ensures
        identifier@ == repeated(0, IDENTIFIER_LENGTH as nat),
{
    let identifier = [0u8; IDENTIFIER_LENGTH];
    assert(identifier@ =~= repeated(0, IDENTIFIER_LENGTH as nat));
    identifier
}

/// A relay at the address whose bytes are all 2, with a public key drawn at
/// random.
pub fn random_node() -> (node: Node)
    ensures
        node.address@ == repeated(2, NODE_ADDRESS_LENGTH as nat),
        is_base_point_multiple(node.pub_key),
{
    let address = NodeAddressBytes([2u8; NODE_ADDRESS_LENGTH]);
    assert(address@ =~= repeated(2, NODE_ADDRESS_LENGTH as nat));
    Node::new(address, generate_random_curve_point())
}

/// The destination whose address bytes are all 3 and whose identifier bytes
/// are all 4.
pub fn destination_fixture() -> (destination: Destination)
    ensures
        destination.address@ == repeated(3, DESTINATION_ADDRESS_LENGTH as nat),
        destination.identifier@ == repeated(4, IDENTIFIER_LENGTH as nat),
{
    let address = [3u8; DESTINATION_ADDRESS_LENGTH];
    let identifier = [4u8; IDENTIFIER_LENGTH];
    assert(address@ =~= repeated(3, DESTINATION_ADDRESS_LENGTH as nat));
    assert(identifier@ =~= repeated(4, IDENTIFIER_LENGTH as nat));
    Destination { address, identifier }
}

} // verus!
