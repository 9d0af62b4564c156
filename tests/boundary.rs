use guest_imports::{
    decode_sections2, ed25519_verify_outcome, encode_sections, from_high_half, from_low_half,
    get_optional_region_address, order_code, pack_halves, recover_outcome,
    secp256k1_verify_outcome, signing_outcome, Addr, CanonicalAddr, ExternalApi, ExternalQuerier,
    ExternalStorage, HostReply, Memory, Order, RecoverPubkeyError, Region, SigningError, StdError,
    VerificationError, CANONICAL_ADDRESS_BUFFER_LENGTH, HUMAN_ADDRESS_BUFFER_LENGTH, NO_REGION,
};

/// What a host does to hand bytes back: reserve a region in guest memory and fill it.
fn host_returns(mem: &mut Memory, bytes: &[u8]) -> u32 {
    let h = mem.allocate(bytes.len() as u32);
    mem.write_region(h, bytes);
    h
}

#[test]
fn region_round_trip() {
    let mut mem = Memory::new();
    let h = mem.build_region(b"hello");
    assert_ne!(h, NO_REGION);
    assert_eq!(mem.region_of(h), Some(Region { offset: 0, capacity: 5, length: 5 }));
    assert_eq!(mem.consume_region(h), b"hello".to_vec());
    assert_eq!(mem.region_of(h), None);
}

#[test]
fn region_round_trip_empty() {
    let mut mem = Memory::new();
    let h = mem.build_region(b"");
    assert_eq!(mem.region_of(h), Some(Region { offset: 0, capacity: 0, length: 0 }));
    assert_eq!(mem.consume_region(h), Vec::<u8>::new());
}

#[test]
fn regions_get_fresh_handles_and_offsets() {
    let mut mem = Memory::new();
    let a = mem.build_region(b"abc");
    let b = mem.allocate(64);
    assert_eq!(b, a + 1);
    assert_eq!(mem.region_of(b), Some(Region { offset: 3, capacity: 64, length: 0 }));
    mem.write_region(b, b"xy");
    assert_eq!(mem.region_of(b), Some(Region { offset: 3, capacity: 64, length: 2 }));
    assert_eq!(mem.read_region(b), Some(b"xy".to_vec()));
    assert_eq!(mem.consume_region(b), b"xy".to_vec());
    assert_eq!(mem.read_region(b), None);
    assert_eq!(mem.read_region(a), Some(b"abc".to_vec()));
}

#[test]
fn copy_bytes_copies() {
    assert_eq!(guest_imports::copy_bytes(&[7, 8, 9]), vec![7, 8, 9]);
}

#[test]
fn sections_encoding_layout() {
    let encoded = encode_sections(&vec![vec![1, 2], vec![3]]);
    assert_eq!(encoded, vec![1, 2, 0, 0, 0, 2, 3, 0, 0, 0, 1]);
    assert_eq!(encode_sections(&vec![]), Vec::<u8>::new());
    assert_eq!(encode_sections(&vec![vec![]]), vec![0, 0, 0, 0]);
    let big = vec![0xaa; 300];
    let encoded = encode_sections(&vec![big.clone()]);
    assert_eq!(encoded.len(), 304);
    assert_eq!(&encoded[300..], &[0, 0, 1, 44]);
}

#[test]
fn sections_round_trip() {
    let a = b"first key".to_vec();
    let b = b"the value".to_vec();
    let encoded = encode_sections(&vec![a.clone(), b.clone()]);
    assert_eq!(encoded.len(), a.len() + b.len() + 8);
    assert_eq!(decode_sections2(encoded), Some((a, b)));
    let encoded = encode_sections(&vec![vec![], vec![5]]);
    assert_eq!(decode_sections2(encoded), Some((vec![], vec![5])));
}

#[test]
fn sections_malformed() {
    assert_eq!(decode_sections2(vec![0, 0]), None);
    assert_eq!(decode_sections2(vec![0, 0, 0, 9]), None);
    assert_eq!(decode_sections2(vec![7, 0, 0, 0, 1]), None);
}

#[test]
fn packed_halves_round_trip() {
    let v = pack_halves(0xdead_beef, 0x1234_5678);
    assert_eq!(v, 0xdead_beef_1234_5678);
    assert_eq!(from_high_half(v), 0xdead_beef);
    assert_eq!(from_low_half(v), 0x1234_5678);
    assert_eq!(from_high_half(pack_halves(0, u32::MAX)), 0);
    assert_eq!(from_low_half(pack_halves(u32::MAX, 0)), 0);
}

#[test]
fn verification_table_is_stable() {
    for code in [0u32, 1, 2, 3, 4, 5, 6, 10, 11, 1000] {
        assert_eq!(secp256k1_verify_outcome(code), secp256k1_verify_outcome(code));
        assert_eq!(ed25519_verify_outcome(code), ed25519_verify_outcome(code));
        assert_eq!(recover_outcome(code), recover_outcome(code));
        assert_eq!(signing_outcome(code), signing_outcome(code));
    }
    assert_eq!(secp256k1_verify_outcome(1), HostReply::Ready(Ok(false)));
    assert_eq!(
        secp256k1_verify_outcome(3),
        HostReply::Ready(Err(VerificationError::InvalidHashFormat))
    );
    assert_eq!(
        secp256k1_verify_outcome(5),
        HostReply::Ready(Err(VerificationError::InvalidPubkeyFormat))
    );
    assert_eq!(secp256k1_verify_outcome(10), HostReply::Ready(Err(VerificationError::GenericErr)));
    assert_eq!(
        secp256k1_verify_outcome(42),
        HostReply::Ready(Err(VerificationError::UnknownErr { error_code: 42 }))
    );
    assert_eq!(ed25519_verify_outcome(3), HostReply::ContractViolation { code: 3 });
    assert_eq!(ed25519_verify_outcome(2), HostReply::ContractViolation { code: 2 });
    assert_eq!(
        ed25519_verify_outcome(4),
        HostReply::Ready(Err(VerificationError::InvalidSignatureFormat))
    );
    assert_eq!(recover_outcome(3), HostReply::Ready(Err(RecoverPubkeyError::InvalidHashFormat)));
    assert_eq!(
        recover_outcome(4),
        HostReply::Ready(Err(RecoverPubkeyError::InvalidSignatureFormat))
    );
    assert_eq!(
        recover_outcome(5),
        HostReply::Ready(Err(RecoverPubkeyError::UnknownErr { error_code: 5 }))
    );
    assert_eq!(signing_outcome(1000), Err(SigningError::InvalidPrivateKeyFormat));
    assert_eq!(signing_outcome(1), Err(SigningError::UnknownErr { error_code: 1 }));
    assert_eq!(signing_outcome(0), Ok(()));
}

#[test]
fn storage_set_empty_value_is_refused_before_the_host() {
    let storage = ExternalStorage::new();
    let mut mem = Memory::new();
    assert_eq!(storage.prepare_set(&mut mem, b"key", b""), Err(StdError::EmptyValue));
    // Nothing was staged, so there is nothing for a host to be called with.
    assert_eq!(mem.region_of(1), None);
    assert_eq!(mem.build_region(b"x"), 1);
}

#[test]
fn storage_set_and_remove() {
    let storage = ExternalStorage::new();
    let mut mem = Memory::new();
    let (k, v) = storage.prepare_set(&mut mem, b"key", b"value").unwrap();
    assert_eq!(mem.read_region(k), Some(b"key".to_vec()));
    assert_eq!(mem.read_region(v), Some(b"value".to_vec()));
    storage.complete_set(&mut mem, (k, v));
    assert_eq!(mem.region_of(k), None);
    assert_eq!(mem.region_of(v), None);
    let k = storage.prepare_remove(&mut mem, b"key");
    assert_eq!(mem.read_region(k), Some(b"key".to_vec()));
    storage.complete_remove(&mut mem, k);
    assert_eq!(mem.region_of(k), None);
}

#[test]
fn storage_get_found_and_missing() {
    let storage = ExternalStorage::new();
    let mut mem = Memory::new();
    let key = storage.prepare_get(&mut mem, b"key");
    assert_eq!(mem.read_region(key), Some(b"key".to_vec()));
    let read = host_returns(&mut mem, b"stored");
    assert_eq!(storage.complete_get(&mut mem, key, read), Some(b"stored".to_vec()));
    assert_eq!(mem.region_of(key), None);
    assert_eq!(mem.region_of(read), None);
    let key = storage.prepare_get(&mut mem, b"other");
    assert_eq!(storage.complete_get(&mut mem, key, NO_REGION), None);
    assert_eq!(mem.region_of(key), None);
}

#[test]
fn optional_bounds_absent_is_zero() {
    let mut mem = Memory::new();
    assert_eq!(get_optional_region_address(&mut mem, None), NO_REGION);
    let h = get_optional_region_address(&mut mem, Some(b""));
    assert_ne!(h, NO_REGION);
    assert_eq!(mem.region_of(h).map(|r| r.length), Some(0));
    let storage = ExternalStorage::new();
    let call = storage.prepare_range(&mut mem, None, Some(b""), Order::Descending);
    assert_eq!(call.start, 0);
    assert_ne!(call.end, 0);
    assert_eq!(mem.region_of(call.end).map(|r| r.length), Some(0));
    assert_eq!(call.order, 2);
    assert_eq!(order_code(Order::Ascending), 1);
    let it = storage.complete_range(&mut mem, call, 7);
    assert!(matches!(it, HostReply::Ready(ref i) if i.iterator_id == 7 && i.is_open()));
    assert_eq!(mem.region_of(call.end), None);
}

#[test]
fn range_with_zero_id_is_a_host_fault() {
    let storage = ExternalStorage::new();
    let mut mem = Memory::new();
    let call = storage.prepare_range(&mut mem, Some(b"a"), Some(b"z"), Order::Ascending);
    assert_ne!(call.start, call.end);
    assert_eq!(storage.complete_range(&mut mem, call, 0), HostReply::ContractViolation { code: 0 });
    assert_eq!(mem.region_of(call.start), None);
    assert_eq!(mem.region_of(call.end), None);
}

#[test]
fn iteration_stops_at_empty_key() {
    let pairs: Vec<(Vec<u8>, Vec<u8>)> = vec![
        (b"a".to_vec(), b"1".to_vec()),
        (b"b".to_vec(), b"2".to_vec()),
        (b"c".to_vec(), b"".to_vec()),
        (b"".to_vec(), b"".to_vec()),
        (b"never".to_vec(), b"reached".to_vec()),
    ];
    let storage = ExternalStorage::new();
    let mut mem = Memory::new();
    let call = storage.prepare_range(&mut mem, None, None, Order::Ascending);
    let mut it = match storage.complete_range(&mut mem, call, 1) {
        HostReply::Ready(it) => it,
        HostReply::ContractViolation { .. } => panic!("no iterator"),
    };
    let mut calls = 0;
    let mut records = Vec::new();
    while it.is_open() {
        let (k, v) = &pairs[calls];
        calls += 1;
        let h = host_returns(&mut mem, &encode_sections(&vec![k.clone(), v.clone()]));
        if let Some(record) = it.complete_next(&mut mem, h) {
            records.push(record);
        }
        assert_eq!(mem.region_of(h), None);
    }
    assert_eq!(calls, 4);
    assert_eq!(records, pairs[..3].to_vec());
}

#[test]
fn iteration_stops_on_malformed_pair() {
    let mut mem = Memory::new();
    let storage = ExternalStorage::new();
    let call = storage.prepare_range(&mut mem, None, None, Order::Ascending);
    let mut it = match storage.complete_range(&mut mem, call, 3) {
        HostReply::Ready(it) => it,
        HostReply::ContractViolation { .. } => panic!("no iterator"),
    };
    let h = host_returns(&mut mem, &[1, 2, 3]);
    assert_eq!(it.complete_next(&mut mem, h), None);
    assert!(!it.is_open());
}

fn verify_with_host(code: u32) -> HostReply<Result<bool, VerificationError>> {
    let api = ExternalApi::new();
    let mut mem = Memory::new();
    let staged = api.prepare_verify(&mut mem, b"hash", b"sig", b"pubkey");
    assert_eq!(mem.read_region(staged.0), Some(b"hash".to_vec()));
    assert_eq!(mem.read_region(staged.1), Some(b"sig".to_vec()));
    assert_eq!(mem.read_region(staged.2), Some(b"pubkey".to_vec()));
    let r = api.complete_secp256k1_verify(&mut mem, staged, code);
    assert_eq!(mem.region_of(staged.0), None);
    assert_eq!(mem.region_of(staged.2), None);
    r
}

#[test]
fn secp256k1_verify_end_to_end() {
    assert_eq!(verify_with_host(0), HostReply::Ready(Ok(true)));
    assert_eq!(
        verify_with_host(4),
        HostReply::Ready(Err(VerificationError::InvalidSignatureFormat))
    );
    assert_eq!(verify_with_host(2), HostReply::ContractViolation { code: 2 });
}

#[test]
fn ed25519_verify_and_batch() {
    let api = ExternalApi::new();
    let mut mem = Memory::new();
    let staged = api.prepare_ed25519_batch_verify(
        &mut mem,
        &vec![b"m1".to_vec(), b"m2".to_vec()],
        &vec![b"s1".to_vec(), b"s2".to_vec()],
        &vec![b"k".to_vec()],
    );
    assert_eq!(mem.read_region(staged.0), Some(vec![b'm', b'1', 0, 0, 0, 2, b'm', b'2', 0, 0, 0, 2]));
    assert_eq!(mem.read_region(staged.2), Some(vec![b'k', 0, 0, 0, 1]));
    assert_eq!(api.complete_ed25519_verify(&mut mem, staged, 1), HostReply::Ready(Ok(false)));
    let staged = api.prepare_verify(&mut mem, b"msg", b"sig", b"key");
    assert_eq!(
        api.complete_ed25519_verify(&mut mem, staged, 5),
        HostReply::Ready(Err(VerificationError::InvalidPubkeyFormat))
    );
}

#[test]
fn recover_pubkey_paths() {
    let api = ExternalApi::new();
    let mut mem = Memory::new();
    let staged = api.prepare_secp256k1_recover_pubkey(&mut mem, b"hash", b"sig");
    let key = host_returns(&mut mem, b"recovered");
    let r = api.complete_secp256k1_recover_pubkey(&mut mem, staged, pack_halves(0, key));
    assert_eq!(r, HostReply::Ready(Ok(b"recovered".to_vec())));
    assert_eq!(mem.region_of(key), None);
    let staged = api.prepare_secp256k1_recover_pubkey(&mut mem, b"hash", b"sig");
    let r = api.complete_secp256k1_recover_pubkey(&mut mem, staged, pack_halves(6, 0));
    assert_eq!(r, HostReply::Ready(Err(RecoverPubkeyError::InvalidRecoveryParam)));
    let staged = api.prepare_secp256k1_recover_pubkey(&mut mem, b"hash", b"sig");
    let r = api.complete_secp256k1_recover_pubkey(&mut mem, staged, pack_halves(2, 0));
    assert_eq!(r, HostReply::ContractViolation { code: 2 });
}

#[test]
fn signing_paths() {
    let api = ExternalApi::new();
    let mut mem = Memory::new();
    let staged = api.prepare_sign(&mut mem, b"message", b"secret");
    assert_eq!(mem.read_region(staged.1), Some(b"secret".to_vec()));
    let sig = host_returns(&mut mem, b"signature");
    assert_eq!(api.complete_sign(&mut mem, staged, pack_halves(0, sig)), Ok(b"signature".to_vec()));
    let staged = api.prepare_sign(&mut mem, b"message", b"bad");
    assert_eq!(
        api.complete_sign(&mut mem, staged, pack_halves(1000, 0)),
        Err(SigningError::InvalidPrivateKeyFormat)
    );
    let staged = api.prepare_sign(&mut mem, b"message", b"bad");
    assert_eq!(
        api.complete_sign(&mut mem, staged, pack_halves(77, 0)),
        Err(SigningError::UnknownErr { error_code: 77 })
    );
}

#[test]
fn addr_validate_paths() {
    let api = ExternalApi::new();
    let mut mem = Memory::new();
    let long = "a".repeat(257);
    assert_eq!(api.prepare_addr_validate(&mut mem, &long), Err(StdError::InputTooLong));
    assert_eq!(mem.region_of(1), None);
    let exact = "b".repeat(256);
    assert!(api.prepare_addr_validate(&mut mem, &exact).is_ok());
    let source = api.prepare_addr_validate(&mut mem, "cosmos1xyz").unwrap();
    assert_eq!(mem.read_region(source), Some(b"cosmos1xyz".to_vec()));
    let addr = api.complete_addr_validate(&mut mem, source, "cosmos1xyz", 0).unwrap();
    assert_eq!(addr.as_str(), "cosmos1xyz");
    assert_eq!(addr, Addr::unchecked("cosmos1xyz"));
    let source = api.prepare_addr_validate(&mut mem, "bad").unwrap();
    let err = host_returns(&mut mem, b"invalid checksum");
    assert_eq!(
        api.complete_addr_validate(&mut mem, source, "bad", err),
        Err(StdError::HostError { message: "invalid checksum".to_string() })
    );
    assert_eq!(mem.region_of(err), None);
}

#[test]
fn addr_canonicalize_and_humanize() {
    let api = ExternalApi::new();
    let mut mem = Memory::new();
    assert_eq!(
        api.prepare_addr_canonicalize(&mut mem, &"c".repeat(300)),
        Err(StdError::InputTooLong)
    );
    let (send, canon) = api.prepare_addr_canonicalize(&mut mem, "human").unwrap();
    assert_eq!(mem.region_of(canon).map(|r| (r.capacity, r.length)), Some((CANONICAL_ADDRESS_BUFFER_LENGTH, 0)));
    mem.write_region(canon, &[1, 2, 3, 4]);
    let out = api.complete_addr_canonicalize(&mut mem, (send, canon), 0).unwrap();
    assert_eq!(out.as_slice(), &[1, 2, 3, 4]);
    assert_eq!(mem.region_of(canon), None);

    let (send, canon) = api.prepare_addr_canonicalize(&mut mem, "human").unwrap();
    let err = host_returns(&mut mem, b"no");
    assert_eq!(
        api.complete_addr_canonicalize(&mut mem, (send, canon), err),
        Err(StdError::HostError { message: "no".to_string() })
    );
    assert_eq!(mem.region_of(canon), None);

    let (send, human) = api.prepare_addr_humanize(&mut mem, &CanonicalAddr::new(vec![9, 9]));
    assert_eq!(mem.read_region(send), Some(vec![9, 9]));
    assert_eq!(mem.region_of(human).map(|r| r.capacity), Some(HUMAN_ADDRESS_BUFFER_LENGTH));
    mem.write_region(human, b"cosmos1abc");
    let addr = api.complete_addr_humanize(&mut mem, (send, human), 0).unwrap();
    assert_eq!(addr.as_str(), "cosmos1abc");
}

#[test]
fn gas_results() {
    let api = ExternalApi::new();
    assert_eq!(api.complete_check_gas(0), Err(StdError::GasUnavailable));
    assert_eq!(api.complete_check_gas(12345), Ok(12345));
    assert_eq!(api.complete_gas_evaporate(0), Ok(()));
    assert_eq!(api.complete_gas_evaporate(3), Err(StdError::EvaporateFailed { code: 3 }));
}

#[test]
fn debug_and_query() {
    let api = ExternalApi::new();
    let mut mem = Memory::new();
    let h = api.prepare_debug(&mut mem, "hi there");
    assert_eq!(mem.read_region(h), Some(b"hi there".to_vec()));
    api.complete_debug(&mut mem, h);
    assert_eq!(mem.region_of(h), None);

    let querier = ExternalQuerier::new();
    let req = querier.prepare_raw_query(&mut mem, b"{\"bank\":{}}");
    assert_eq!(mem.read_region(req), Some(b"{\"bank\":{}}".to_vec()));
    let resp = host_returns(&mut mem, b"{\"ok\":{}}");
    assert_eq!(querier.complete_raw_query(&mut mem, req, resp), b"{\"ok\":{}}".to_vec());
    assert_eq!(mem.region_of(req), None);
    assert_eq!(mem.region_of(resp), None);
}
