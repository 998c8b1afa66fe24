use sphinx::constants::{DESTINATION_ADDRESS_LENGTH, IDENTIFIER_LENGTH, NODE_ADDRESS_LENGTH};
use sphinx::crypto::keygen;
use sphinx::route::{
    destination_address_fixture, destination_fixture, node_address_fixture, random_node,
    surb_identifier_fixture, Destination, Node, NodeAddressBytes, NodeAddressError,
};

#[test]
fn lengths_are_those_of_the_packet_format() {
    assert_eq!(NODE_ADDRESS_LENGTH, 32);
    assert_eq!(DESTINATION_ADDRESS_LENGTH, 32);
    assert_eq!(IDENTIFIER_LENGTH, 16);
}

#[test]
fn destination_new_keeps_address_and_identifier() {
    let destination = Destination::new([3u8; DESTINATION_ADDRESS_LENGTH], [4u8; IDENTIFIER_LENGTH]);
    assert_eq!(destination.address, [3u8; 32]);
    assert_eq!(destination.identifier, [4u8; 16]);
}

#[test]
fn node_new_keeps_address_and_key() {
    let (_, public) = keygen();
    let node = Node::new(NodeAddressBytes([5u8; NODE_ADDRESS_LENGTH]), public);
    assert_eq!(node.address, NodeAddressBytes([5u8; 32]));
    assert_eq!(node.pub_key, public);
}

#[test]
fn nodes_compare_by_address_and_key() {
    let (_, public) = keygen();
    let (_, other) = keygen();
    let node = Node::new(NodeAddressBytes([5u8; NODE_ADDRESS_LENGTH]), public);
    assert_eq!(node, node.clone());
    assert_ne!(node, Node::new(NodeAddressBytes([4u8; NODE_ADDRESS_LENGTH]), public));
    assert_ne!(node, Node::new(NodeAddressBytes([5u8; NODE_ADDRESS_LENGTH]), other));
}

#[test]
fn address_fixtures_are_all_zero() {
    assert_eq!(destination_address_fixture(), [0u8; 32]);
    assert_eq!(node_address_fixture(), NodeAddressBytes([0u8; 32]));
    assert_eq!(surb_identifier_fixture(), [0u8; 16]);
}

#[test]
fn destination_fixture_is_threes_and_fours() {
    let destination = destination_fixture();
    assert_eq!(destination, Destination::new([3u8; 32], [4u8; 16]));
}

#[test]
fn random_node_has_the_fixed_address() {
    let node = random_node();
    assert_eq!(node.address, NodeAddressBytes([2u8; 32]));
}

#[test]
fn random_nodes_differ_in_their_keys() {
    let first = random_node();
    let second = random_node();
    assert_eq!(first.address, second.address);
    assert_ne!(first.pub_key, second.pub_key);
}

#[test]
fn zero_address_as_base64() {
    let text = node_address_fixture().to_b64_string();
    assert_eq!(text, "AAAAAAAAAAAAAAAAAAAAAAAAAAAAAAAAAAAAAAAAAAA=");
    assert_eq!(text.len(), 44);
}

#[test]
fn counting_address_as_base64() {
    let mut bytes = [0u8; 32];
    for (i, byte) in bytes.iter_mut().enumerate() {
        *byte = i as u8;
    }
    assert_eq!(
        NodeAddressBytes(bytes).to_b64_string(),
        "AAECAwQFBgcICQoLDA0ODxAREhMUFRYXGBkaGxwdHh8="
    );
}

#[test]
fn base64_uses_the_url_safe_alphabet() {
    assert_eq!(
        NodeAddressBytes([255u8; 32]).to_b64_string(),
        "__________________________________________8="
    );
    let mut bytes = [0u8; 32];
    for (i, byte) in bytes.iter_mut().enumerate() {
        *byte = [0xfb, 0xef, 0xbe][i % 3];
    }
    assert_eq!(
        NodeAddressBytes(bytes).to_b64_string(),
        "------------------------------------------8="
    );
}

#[test]
fn from_b64_string_reads_an_address() {
    let address = NodeAddressBytes::from_b64_string(
        "BQUFBQUFBQUFBQUFBQUFBQUFBQUFBQUFBQUFBQUFBQU=".to_string(),
    );
    assert_eq!(address, NodeAddressBytes([5u8; 32]));
}

#[test]
fn from_b64_string_reads_the_url_safe_alphabet() {
    let address = NodeAddressBytes::from_b64_string(
        "__________________________________________8=".to_string(),
    );
    assert_eq!(address, NodeAddressBytes([255u8; 32]));
}

#[test]
fn base64_round_trip_gives_the_address_back() {
    let mut bytes = [0u8; 32];
    for (i, byte) in bytes.iter_mut().enumerate() {
        *byte = (i as u8).wrapping_mul(37).wrapping_add(11);
    }
    let address = NodeAddressBytes(bytes);
    let text = address.to_b64_string();
    assert_eq!(NodeAddressBytes::from_b64_string(text.clone()), address);
    assert_eq!(NodeAddressBytes::try_from_b64_string(text), Ok(address));
}

#[test]
fn try_from_b64_string_accepts_text_without_padding() {
    let text = "AAAAAAAAAAAAAAAAAAAAAAAAAAAAAAAAAAAAAAAAAAA".to_string();
    assert_eq!(
        NodeAddressBytes::try_from_b64_string(text),
        Ok(NodeAddressBytes([0u8; 32]))
    );
}

#[test]
fn try_from_b64_string_rejects_what_is_not_base64() {
    assert_eq!(
        NodeAddressBytes::try_from_b64_string("not base64!".to_string()),
        Err(NodeAddressError::MalformedBase64)
    );
    assert_eq!(
        NodeAddressBytes::try_from_b64_string(
            "++++++++++++++++++++++++++++++++++++++++++8=".to_string()
        ),
        Err(NodeAddressError::MalformedBase64)
    );
    assert_eq!(
        NodeAddressBytes::try_from_b64_string(
            "AAAAAAAAAAAAAAAAAAAAAAAAAAAAAAAAAAAAAAAAAAB=".to_string()
        ),
        Err(NodeAddressError::MalformedBase64)
    );
}

#[test]
fn try_from_b64_string_rejects_other_lengths() {
    assert_eq!(
        NodeAddressBytes::try_from_b64_string("AQID".to_string()),
        Err(NodeAddressError::WrongLength)
    );
    assert_eq!(
        NodeAddressBytes::try_from_b64_string(String::new()),
        Err(NodeAddressError::WrongLength)
    );
    assert_eq!(
        NodeAddressBytes::try_from_b64_string(
            "AAAAAAAAAAAAAAAAAAAAAAAAAAAAAAAAAAAAAAAAAAAA".to_string()
        ),
        Err(NodeAddressError::WrongLength)
    );
}

#[test]
fn try_from_byte_slice_takes_exactly_an_address() {
    let bytes: Vec<u8> = (0u8..32).collect();
    let address = NodeAddressBytes::try_from_byte_slice(&bytes).unwrap();
    assert_eq!(address.0.to_vec(), bytes);
    assert_eq!(
        NodeAddressBytes::try_from_byte_slice(&bytes[..31]),
        Err(NodeAddressError::WrongLength)
    );
    assert_eq!(
        NodeAddressBytes::try_from_byte_slice(&[0u8; 33]),
        Err(NodeAddressError::WrongLength)
    );
    assert_eq!(
        NodeAddressBytes::try_from_byte_slice(&[]),
        Err(NodeAddressError::WrongLength)
    );
}

#[test]
fn base64_text_is_url_safe_and_of_fixed_length() {
    for seed in 0u8..=255 {
        let mut bytes = [0u8; 32];
        for (i, byte) in bytes.iter_mut().enumerate() {
            *byte = seed.wrapping_mul(31).wrapping_add((i as u8).wrapping_mul(seed | 1));
        }
        let address = NodeAddressBytes(bytes);
        let text = address.to_b64_string();
        assert_eq!(text.chars().count(), 44);
        assert!(text
            .chars()
            .all(|c| c.is_ascii_alphanumeric() || c == '-' || c == '_' || c == '='));
        assert_eq!(NodeAddressBytes::try_from_b64_string(text), Ok(address));
    }
}
