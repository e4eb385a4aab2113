use ember::wisp::extensions::{parse_extension_data, Extension, ExtensionNegotiation};

#[test]
fn negotiate_keeps_common_extensions_in_server_order() {
    let server = [Extension::Udp, Extension::Motd, Extension::StreamOpenConfirmation];
    let client = [Extension::StreamOpenConfirmation, Extension::Udp, Extension::KeyAuth];
    let n = ExtensionNegotiation::negotiate(&server, &client);
    assert_eq!(n.agreed, vec![Extension::Udp, Extension::StreamOpenConfirmation]);
    assert_eq!(n.server_supported, server.to_vec());
    assert_eq!(n.client_supported, client.to_vec());
    assert!(n.has(Extension::Udp));
    assert!(!n.has(Extension::Motd));
    assert!(!n.has(Extension::KeyAuth));
    assert_eq!(n.agreed_ids(), vec![1, 5]);
}

#[test]
fn negotiate_with_nothing_agrees_on_nothing() {
    let n = ExtensionNegotiation::negotiate(&[], &[Extension::Udp]);
    assert!(n.agreed.is_empty());
    assert!(n.agreed_ids().is_empty());
    let m = ExtensionNegotiation::negotiate(&[Extension::Udp], &[]);
    assert!(m.agreed.is_empty());
}

#[test]
fn extension_ids_round_trip() {
    for id in 1u8..=5 {
        assert_eq!(Extension::from_u8(id).unwrap().to_u8(), id);
    }
    assert_eq!(Extension::from_u8(0), None);
    assert_eq!(Extension::from_u8(6), None);
    assert_eq!(Extension::from_u8(4), Some(Extension::Motd));
}

#[test]
fn parse_extension_entries() {
    let data = [1u8, 0, 0, 0, 0, 4, 3, 0, 0, 0, b'h', b'i', b'!'];
    let entries = parse_extension_data(&data);
    assert_eq!(entries.len(), 2);
    assert_eq!(entries[0].id, 1);
    assert!(entries[0].metadata.is_empty());
    assert_eq!(entries[1].id, 4);
    assert_eq!(entries[1].metadata.as_ref(), b"hi!");
}

#[test]
fn parse_extension_stops_at_truncated_entry() {
    // The second entry claims 9 bytes of metadata but only 2 follow.
    let data = [2u8, 1, 0, 0, 0, 7, 5, 9, 0, 0, 0, 1, 2];
    let entries = parse_extension_data(&data);
    assert_eq!(entries.len(), 1);
    assert_eq!(entries[0].id, 2);
    assert_eq!(entries[0].metadata.as_ref(), &[7]);
    // A trailing partial header is ignored.
    let entries = parse_extension_data(&[1, 0, 0, 0, 0, 3, 0]);
    assert_eq!(entries.len(), 1);
    assert!(parse_extension_data(&[]).is_empty());
    assert!(parse_extension_data(&[1, 0, 0, 0]).is_empty());
}
