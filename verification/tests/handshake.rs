use arsync::protocol::handshake::{
    ChecksumSeed, HandshakeState, ProtocolCapabilities, Role, XMIT_ACLS, XMIT_CHECKSUMS, XMIT_CHECKSUM_SEED,
    XMIT_DEVICES, XMIT_HARDLINKS, XMIT_PROTECTION, XMIT_SPARSE, XMIT_SYMLINKS, XMIT_TIMES, XMIT_XATTRS,
};

#[test]
fn test_checksum_seed_roundtrip() {
    let original = ChecksumSeed { seed: 0x12345678 };
    let bytes = original.to_bytes();
    let decoded = ChecksumSeed::from_bytes(bytes);
    assert_eq!(original, decoded);
}

#[test]
fn test_checksum_seed_generate() {
    let seeds: Vec<ChecksumSeed> = (0..100).map(|_| ChecksumSeed::generate()).collect();

    // All should be non-zero
    assert!(seeds.iter().all(|s| !s.is_zero()));

    // They should not all be the same (randomness check)
    let first = seeds[0].seed;
    assert!(seeds.iter().any(|s| s.seed != first));
}

#[test]
fn test_capabilities_negotiation() {
    let mut client = ProtocolCapabilities::new(31);
    client.flags = XMIT_CHECKSUMS | XMIT_SYMLINKS | XMIT_XATTRS;

    let mut server = ProtocolCapabilities::new(30);
    server.flags = XMIT_CHECKSUMS | XMIT_XATTRS | XMIT_ACLS;

    let negotiated = ProtocolCapabilities::negotiate(&client, &server);

    assert_eq!(negotiated.version, 30); // Minimum
    assert!(negotiated.supports_checksums()); // Both support
    assert!(negotiated.supports_xattrs()); // Both support
    assert!(!negotiated.supports_symlinks()); // Only client supports
    assert!(!negotiated.supports_acls()); // Only server supports
}

#[test]
fn test_capabilities_support_methods() {
    let mut caps = ProtocolCapabilities::new(31);

    assert!(!caps.supports_checksums());
    caps.flags |= XMIT_CHECKSUMS;
    assert!(caps.supports_checksums());

    assert!(!caps.supports_symlinks());
    caps.flags |= XMIT_SYMLINKS;
    assert!(caps.supports_symlinks());
}

#[test]
fn test_role_methods() {
    let sender = Role::Sender;
    assert!(sender.is_sender());
    assert!(!sender.is_receiver());
    assert_eq!(sender.opposite(), Role::Receiver);

    let receiver = Role::Receiver;
    assert!(receiver.is_receiver());
    assert!(!receiver.is_sender());
    assert_eq!(receiver.opposite(), Role::Sender);
}

#[test]
fn test_handshake_state_initial() {
    let state = HandshakeState::Initial;
    assert!(!state.is_complete());
    assert!(state.get_capabilities().is_none());
    assert!(state.get_seed().is_none());
}

#[test]
fn test_handshake_state_complete() {
    let caps = ProtocolCapabilities::new(31);
    let seed = ChecksumSeed { seed: 12345 };

    let state = HandshakeState::Complete {
        capabilities: caps.clone(),
        seed: Some(seed),
    };

    assert!(state.is_complete());
    assert!(state.get_capabilities().is_some());
    assert_eq!(state.get_capabilities().unwrap().version, 31);
    assert_eq!(state.get_seed(), Some(seed));
}

#[test]
fn checksum_seed_is_sent_little_endian() {
    assert_eq!(ChecksumSeed { seed: 0x12345678 }.to_bytes(), [0x78, 0x56, 0x34, 0x12]);
    assert_eq!(ChecksumSeed::from_bytes([1, 0, 0, 0]).seed, 1);
    assert!(ChecksumSeed { seed: 0 }.is_zero());
    assert!(!ChecksumSeed { seed: 7 }.is_zero());
}

#[test]
fn every_capability_flag_is_reported_by_its_own_method() {
    let all = XMIT_CHECKSUMS
        | XMIT_HARDLINKS
        | XMIT_SYMLINKS
        | XMIT_DEVICES
        | XMIT_XATTRS
        | XMIT_ACLS
        | XMIT_SPARSE
        | XMIT_CHECKSUM_SEED
        | XMIT_PROTECTION
        | XMIT_TIMES;
    let mut caps = ProtocolCapabilities::new(31);
    caps.flags = all;
    assert!(caps.supports_checksums());
    assert!(caps.supports_hardlinks());
    assert!(caps.supports_symlinks());
    assert!(caps.supports_devices());
    assert!(caps.supports_xattrs());
    assert!(caps.supports_acls());
    assert!(caps.supports_sparse());
    assert!(caps.supports_checksum_seed());
    assert!(caps.supports_protection());
    assert!(caps.supports_times());
    caps.flags = all & !XMIT_HARDLINKS;
    assert!(!caps.supports_hardlinks());
    assert!(caps.supports_times());
}

#[test]
fn negotiation_is_symmetric() {
    let mut a = ProtocolCapabilities::new(29);
    a.flags = XMIT_TIMES | XMIT_DEVICES | XMIT_SPARSE;
    let mut b = ProtocolCapabilities::new(31);
    b.flags = XMIT_TIMES | XMIT_SPARSE | XMIT_HARDLINKS;
    let ab = ProtocolCapabilities::negotiate(&a, &b);
    let ba = ProtocolCapabilities::negotiate(&b, &a);
    assert_eq!(ab.version, 29);
    assert_eq!(ba.version, 29);
    assert_eq!(ab.flags, XMIT_TIMES | XMIT_SPARSE);
    assert_eq!(ba.flags, ab.flags);
}

#[test]
fn opposite_role_twice_is_the_same_role() {
    assert_eq!(Role::Sender.opposite().opposite(), Role::Sender);
    assert_eq!(Role::Receiver.opposite().opposite(), Role::Receiver);
}
