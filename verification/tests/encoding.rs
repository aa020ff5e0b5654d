use rlp::RlpStream;
use tiny_keccak::{Hasher, Keccak};
use typed_tx::big_endian::{trim_leading_zeros, u64_to_be_bytes};
use typed_tx::rlp::{append_list, append_string, append_u64, append_uint, encode_list};
use typed_tx::tagged::{parse_type_tag, render_type_tag};
use typed_tx::{
    AccessList, AccessListItem, Address, Bytes, Eip1559TransactionRequest,
    Eip2930TransactionRequest, Signature, TransactionRequest, TypedTransaction, H256, U256, U64,
};

fn hex(text: &str) -> Vec<u8> {
    let digits: Vec<u8> = text
        .bytes()
        .map(|c| match c {
            b'0'..=b'9' => c - b'0',
            b'a'..=b'f' => c - b'a' + 10,
            _ => panic!("not a hexadecimal digit"),
        })
        .collect();
    assert!(digits.len() % 2 == 0);
    digits.chunks(2).map(|pair| pair[0] * 16 + pair[1]).collect()
}

fn word(text: &str) -> [u8; 32] {
    let bytes = hex(text);
    let mut out = [0u8; 32];
    out[32 - bytes.len()..].copy_from_slice(&bytes);
    out
}

fn keccak(input: &[u8]) -> [u8; 32] {
    let mut out = [0u8; 32];
    let mut hasher = Keccak::v256();
    hasher.update(input);
    hasher.finalize(&mut out);
    out
}

fn string_by_the_rlp_crate(bytes: &[u8]) -> Vec<u8> {
    let mut stream = RlpStream::new();
    stream.append(&bytes.to_vec());
    stream.out().to_vec()
}

fn two_key_access_list() -> AccessList {
    AccessList(vec![AccessListItem {
        address: Address([0x11; 20]),
        storage_keys: vec![H256(word("01")), H256(word("02"))],
    }])
}

fn signature() -> Signature {
    Signature {
        r: U256(word(
            "28ef61340bd939bc2195fe537567866003e1a15d3c71ff63e1590620aa636276",
        )),
        s: U256(word(
            "67cbe9d8997f761aecb703304b3800ccf555c9f3dc64214b297fb1966a3b6d83",
        )),
        v: 37,
    }
}

fn legacy_request() -> TransactionRequest {
    TransactionRequest::new()
        .nonce(9u64)
        .gas_price(20_000_000_000u64)
        .gas(21000u64)
        .to(Address([0x35; 20]))
        .value(1_000_000_000_000_000_000u64)
}

fn eip1559_request() -> Eip1559TransactionRequest {
    Eip1559TransactionRequest::new()
        .nonce(7u64)
        .max_priority_fee_per_gas(2_000_000_000u64)
        .max_fee_per_gas(100_000_000_000u64)
        .gas(21000u64)
        .to(Address([0x35; 20]))
        .value(1_000_000_000_000_000_000u64)
        .data(vec![0xde, 0xad, 0xbe, 0xef])
        .access_list(two_key_access_list())
}

fn eip2930_request() -> Eip2930TransactionRequest {
    Eip2930TransactionRequest::new(legacy_request().data(Vec::new()), two_key_access_list())
}

const ACCESS_LIST_HEX: &str = "f85bf859941111111111111111111111111111111111111111f842a00000000000000000000000000000000000000000000000000000000000000001a00000000000000000000000000000000000000000000000000000000000000002";

#[test]
fn shortest_big_endian_bytes() {
    assert_eq!(u64_to_be_bytes(0), Vec::<u8>::new());
    assert_eq!(u64_to_be_bytes(1), vec![1]);
    assert_eq!(u64_to_be_bytes(255), vec![255]);
    assert_eq!(u64_to_be_bytes(256), vec![1, 0]);
    assert_eq!(u64_to_be_bytes(0x0102_0304), vec![1, 2, 3, 4]);
    assert_eq!(u64_to_be_bytes(u64::MAX), vec![0xff; 8]);
    assert_eq!(
        u64_to_be_bytes(0x0100_0000_0000_0000),
        vec![1, 0, 0, 0, 0, 0, 0, 0]
    );
}

#[test]
fn leading_zeros_are_trimmed() {
    assert_eq!(trim_leading_zeros(&[]), Vec::<u8>::new());
    assert_eq!(trim_leading_zeros(&[0, 0, 0]), Vec::<u8>::new());
    assert_eq!(trim_leading_zeros(&[0, 0, 7, 0]), vec![7, 0]);
    assert_eq!(trim_leading_zeros(&[9, 0, 0]), vec![9, 0, 0]);
}

#[test]
fn u256_from_u64_holds_the_low_bytes() {
    assert_eq!(U256::from(0u64), U256([0u8; 32]));
    assert_eq!(U256::from(0u64), U256::zero());
    assert_eq!(U256::from(100u64), U256(word("64")));
    assert_eq!(
        U256::from(0x0102_0304_0506_0708u64),
        U256(word("0102030405060708"))
    );
    assert_eq!(U256::from(u64::MAX), U256(word("ffffffffffffffff")));
}

#[test]
fn strings_are_encoded_as_the_rlp_crate_does() {
    let mut cases: Vec<Vec<u8>> = vec![
        vec![],
        vec![0x00],
        vec![0x7f],
        vec![0x80],
        vec![0xff],
        vec![1, 2],
    ];
    for len in [54usize, 55, 56, 57, 255, 256, 257, 65535, 65536, 70000] {
        cases.push((0..len).map(|i| (i % 251) as u8).collect());
    }
    for case in cases {
        let mut out = Vec::new();
        append_string(&mut out, &case);
        assert_eq!(out, string_by_the_rlp_crate(&case));
    }
}

#[test]
fn string_headers() {
    let mut out = Vec::new();
    append_string(&mut out, &[]);
    assert_eq!(out, vec![0x80]);

    let mut out = vec![0xaa];
    append_string(&mut out, &[0x7f]);
    assert_eq!(out, vec![0xaa, 0x7f]);

    let mut out = Vec::new();
    append_string(&mut out, &[0x80]);
    assert_eq!(out, vec![0x81, 0x80]);

    let mut out = Vec::new();
    append_string(&mut out, &[7u8; 55]);
    assert_eq!(out[0], 0xb7);
    assert_eq!(out.len(), 56);

    let mut out = Vec::new();
    append_string(&mut out, &[7u8; 56]);
    assert_eq!(&out[..2], &[0xb8, 56]);
    assert_eq!(out.len(), 58);

    let mut out = Vec::new();
    append_string(&mut out, &vec![7u8; 1024]);
    assert_eq!(&out[..3], &[0xb9, 0x04, 0x00]);
    assert_eq!(out.len(), 1027);
}

#[test]
fn numbers_are_encoded_as_the_rlp_crate_does() {
    for n in [
        0u64,
        1,
        0x7f,
        0x80,
        0xff,
        0x100,
        21000,
        20_000_000_000,
        1_000_000_000_000_000_000,
        u64::MAX,
    ] {
        let mut out = Vec::new();
        append_u64(&mut out, n);
        let mut stream = RlpStream::new();
        stream.append(&n);
        assert_eq!(out, stream.out().to_vec());

        let mut wide = Vec::new();
        append_uint(&mut wide, &U256::from(n).0);
        assert_eq!(wide, out);
    }
    let mut out = Vec::new();
    append_u64(&mut out, 0);
    assert_eq!(out, vec![0x80]);
    let mut out = Vec::new();
    append_u64(&mut out, 1024);
    assert_eq!(out, vec![0x82, 0x04, 0x00]);
}

#[test]
fn wide_numbers_lose_their_leading_zeros() {
    let mut out = Vec::new();
    append_uint(&mut out, &signature().r.0);
    let mut expected = vec![0xa0];
    expected.extend_from_slice(&signature().r.0);
    assert_eq!(out, expected);

    let mut out = Vec::new();
    append_uint(
        &mut out,
        &word("0000000000000000000000000000000100000000000000000000000000000000"),
    );
    assert_eq!(out, hex("910100000000000000000000000000000000"));

    let mut out = Vec::new();
    append_uint(&mut out, &[0u8; 32]);
    assert_eq!(out, vec![0x80]);
}

#[test]
fn lists_are_encoded_as_the_rlp_crate_does() {
    let shapes = [
        (0usize, 0usize),
        (1, 0),
        (3, 3),
        (5, 10),
        (1, 54),
        (2, 30),
        (9, 100),
        (300, 300),
    ];
    for (count, item_len) in shapes {
        let items: Vec<Vec<u8>> = (0..count)
            .map(|i| (0..item_len).map(|j| (i * 7 + j) as u8).collect())
            .collect();
        let mut payload = Vec::new();
        for item in &items {
            append_string(&mut payload, item);
        }
        let mut stream = RlpStream::new_list(count);
        for item in &items {
            stream.append(item);
        }
        let expected = stream.out().to_vec();
        assert_eq!(encode_list(&payload), expected);

        let mut appended = vec![0x01];
        append_list(&mut appended, &payload);
        assert_eq!(appended[0], 0x01);
        assert_eq!(&appended[1..], &expected[..]);
    }
    assert_eq!(encode_list(&[]), vec![0xc0]);
    assert_eq!(encode_list(&[0x80, 0x80]), vec![0xc2, 0x80, 0x80]);
    assert_eq!(encode_list(&[1u8; 56])[..2], [0xf8, 56]);
}

#[test]
fn access_list_encoding() {
    let mut out = Vec::new();
    two_key_access_list().rlp_append(&mut out);
    assert_eq!(out, hex(ACCESS_LIST_HEX));

    let mut out = Vec::new();
    AccessList::new().rlp_append(&mut out);
    assert_eq!(out, vec![0xc0]);

    let mut out = Vec::new();
    AccessListItem {
        address: Address([0x22; 20]),
        storage_keys: Vec::new(),
    }
    .rlp_append(&mut out);
    let mut expected = vec![0xd6, 0x94];
    expected.extend_from_slice(&[0x22; 20]);
    expected.push(0xc0);
    assert_eq!(out, expected);
}

#[test]
fn legacy_unsigned_encoding() {
    let request = legacy_request();
    let expected = hex(
        "ec098504a817c800825208943535353535353535353535353535353535353535880de0b6b3a764000080018080",
    );
    assert_eq!(request.rlp(U64(1)), Bytes(expected.clone()));
    let tx: TypedTransaction = request.into();
    assert_eq!(tx.rlp(1u64), Bytes(expected.clone()));
    assert_eq!(tx.rlp(U64(1)), Bytes(expected));
}

#[test]
fn legacy_signed_encoding() {
    let expected = hex(
        "f86c098504a817c800825208943535353535353535353535353535353535353535880de0b6b3a76400008025a028ef61340bd939bc2195fe537567866003e1a15d3c71ff63e1590620aa636276a067cbe9d8997f761aecb703304b3800ccf555c9f3dc64214b297fb1966a3b6d83",
    );
    assert_eq!(
        legacy_request().rlp_signed(&signature()),
        Bytes(expected.clone())
    );
    let tx: TypedTransaction = legacy_request().into();
    assert_eq!(tx.rlp_signed(&signature()), Bytes(expected));
}

#[test]
fn empty_legacy_encoding() {
    let tx: TypedTransaction = TransactionRequest::new().into();
    assert_eq!(tx.rlp(1u64), Bytes(hex("c9808080808080018080")));
    assert_eq!(tx.rlp(0u64), Bytes(hex("c9808080808080808080")));
}

#[test]
fn sender_is_not_encoded() {
    let with_sender: TypedTransaction = legacy_request().from(Address([0xaa; 20])).into();
    let without: TypedTransaction = legacy_request().into();
    assert_eq!(with_sender.rlp(1u64), without.rlp(1u64));
    assert_eq!(with_sender.sighash(1u64), without.sighash(1u64));
}

#[test]
fn eip2930_encodings() {
    let unsigned = hex(&format!(
        "f88701098504a817c800825208943535353535353535353535353535353535353535880de0b6b3a764000080{}",
        ACCESS_LIST_HEX
    ));
    let signed = hex(&format!(
        "f8c9098504a817c800825208943535353535353535353535353535353535353535880de0b6b3a764000080{}25a028ef61340bd939bc2195fe537567866003e1a15d3c71ff63e1590620aa636276a067cbe9d8997f761aecb703304b3800ccf555c9f3dc64214b297fb1966a3b6d83",
        ACCESS_LIST_HEX
    ));
    assert_eq!(eip2930_request().rlp(U64(1)), Bytes(unsigned.clone()));
    assert_eq!(
        eip2930_request().rlp_signed(&signature()),
        Bytes(signed.clone())
    );
    let tx: TypedTransaction = eip2930_request().into();
    assert_eq!(tx.rlp(1u64), Bytes(unsigned));
    assert_eq!(tx.rlp_signed(&signature()), Bytes(signed));
}

#[test]
fn eip1559_encodings() {
    let unsigned = hex(&format!(
        "f8900107847735940085174876e800825208943535353535353535353535353535353535353535880de0b6b3a764000084deadbeef{}",
        ACCESS_LIST_HEX
    ));
    let mut one = signature();
    one.v = 1;
    let signed = hex(&format!(
        "f8d207847735940085174876e800825208943535353535353535353535353535353535353535880de0b6b3a764000084deadbeef{}01a028ef61340bd939bc2195fe537567866003e1a15d3c71ff63e1590620aa636276a067cbe9d8997f761aecb703304b3800ccf555c9f3dc64214b297fb1966a3b6d83",
        ACCESS_LIST_HEX
    ));
    assert_eq!(eip1559_request().rlp(U64(1)), Bytes(unsigned.clone()));
    assert_eq!(eip1559_request().rlp_signed(&one), Bytes(signed.clone()));
    let tx: TypedTransaction = eip1559_request().into();
    assert_eq!(tx.rlp(1u64), Bytes(unsigned));
    assert_eq!(tx.rlp_signed(&one), Bytes(signed));
}

#[test]
fn eip1559_encoding_matches_a_stream_of_the_rlp_crate() {
    let mut stream = RlpStream::new_list(9);
    stream.append(&1u64);
    stream.append(&7u64);
    stream.append(&2_000_000_000u64);
    stream.append(&100_000_000_000u64);
    stream.append(&21000u64);
    stream.append(&vec![0x35u8; 20]);
    stream.append(&1_000_000_000_000_000_000u64);
    stream.append(&vec![0xdeu8, 0xad, 0xbe, 0xef]);
    stream.begin_list(1);
    stream.begin_list(2);
    stream.append(&vec![0x11u8; 20]);
    stream.begin_list(2);
    stream.append(&word("01").to_vec());
    stream.append(&word("02").to_vec());
    assert_eq!(eip1559_request().rlp(U64(1)), Bytes(stream.out().to_vec()));
}

#[test]
fn long_call_data_gets_a_long_header() {
    let data: Vec<u8> = (0..768usize).map(|i| (i % 256) as u8).collect();
    let tx: TypedTransaction = TransactionRequest::new().data(data).into();
    let encoded = tx.rlp(1u64).0;
    assert_eq!(encoded.len(), 782);
    assert_eq!(&encoded[..11], &hex("f9030b8080808080b90300")[..]);
    assert_eq!(
        tx.sighash(1u64),
        H256(word(
            "97887c9caea44a82083d793e6d9cd80cd52641b950e9f3e7dea22f07c96477a8"
        ))
    );
}

#[test]
fn legacy_signing_hash_has_no_type_byte() {
    let tx: TypedTransaction = legacy_request().into();
    let hash = tx.sighash(1u64);
    assert_eq!(
        hash,
        H256(word(
            "daf5a779ae972f972197303d7b574746c7ef83eadac0f2791ad23db92e4c8e53"
        ))
    );
    let encoded = tx.rlp(1u64).0;
    assert_eq!(tx.signing_input(U64(1)), encoded);
    assert_eq!(hash, H256(keccak(&encoded)));

    let mut with_type_byte = vec![0u8];
    with_type_byte.extend_from_slice(&encoded);
    assert_eq!(
        keccak(&with_type_byte),
        word("9a063c148d36c1ca2648859bbd626f129556883cf01bfdc34517a0b0101e25fb")
    );
    assert_ne!(hash, H256(keccak(&with_type_byte)));
}

#[test]
fn typed_signing_hash_puts_the_type_byte_first() {
    let cases: [(TypedTransaction, u8, &str); 2] = [
        (
            eip2930_request().into(),
            1,
            "3e9a901ead4b8d162a9d8f92de33cfa3addc560393c6eab0b6567cd76bf0da96",
        ),
        (
            eip1559_request().into(),
            2,
            "80d342c061eaa157d2016b8d29b3c85cbef356db75ac060184318122b328dcf0",
        ),
    ];
    for (tx, byte, digest) in cases {
        let encoded = tx.rlp(1u64).0;
        let hash = tx.sighash(1u64);
        assert_eq!(hash, H256(word(digest)));

        let mut type_byte_first = vec![byte];
        type_byte_first.extend_from_slice(&encoded);
        assert_eq!(tx.signing_input(U64(1)), type_byte_first);
        assert_eq!(hash, H256(keccak(&type_byte_first)));

        let mut type_byte_last = encoded.clone();
        type_byte_last.push(byte);
        assert_ne!(hash, H256(keccak(&type_byte_last)));
        assert_ne!(hash, H256(keccak(&encoded)));
    }
    let tx: TypedTransaction = eip1559_request().into();
    let mut type_byte_last = tx.rlp(1u64).0;
    type_byte_last.push(2);
    assert_eq!(
        keccak(&type_byte_last),
        word("b5be96d58a16bf56b212d06cfbeeb17ebe6c86cc590fcc7c9fb270e7042bdbec")
    );
}

#[test]
fn signing_hash_is_not_its_input() {
    let tx: TypedTransaction = TransactionRequest::new().into();
    let input = tx.signing_input(U64(1));
    assert_eq!(input, hex("c9808080808080018080"));
    let hash = tx.sighash(1u64);
    assert_ne!(&hash.0[..input.len()], &input[..]);
    assert_eq!(hash, H256(keccak(&input)));
}

#[test]
fn signing_hash_is_deterministic() {
    let requests: [TypedTransaction; 3] = [
        legacy_request().into(),
        eip2930_request().into(),
        eip1559_request().into(),
    ];
    for tx in requests {
        assert_eq!(tx.sighash(1u64), tx.sighash(1u64));
        assert_eq!(tx.sighash(1u64), tx.clone().sighash(U64(1)));
    }
}

#[test]
fn signing_hash_changes_with_chain_and_fields() {
    let requests: [TypedTransaction; 3] = [
        legacy_request().into(),
        eip2930_request().into(),
        eip1559_request().into(),
    ];
    for tx in requests {
        let hash = tx.sighash(1u64);
        assert_ne!(hash, tx.sighash(5u64));

        let mut other_recipient = tx.clone();
        other_recipient.set_to(Address([0x36; 20]));
        assert_ne!(hash, other_recipient.sighash(1u64));

        let mut other_data = tx.clone();
        other_data.set_data(Bytes(vec![0x01]));
        assert_ne!(hash, other_data.sighash(1u64));
    }
    let tx: TypedTransaction = legacy_request().into();
    assert_eq!(
        tx.sighash(5u64),
        H256(word(
            "99d850fca14eea70979c6cd43892ea70ddd29f880fb90fccc88c2225bdb61194"
        ))
    );
}

#[test]
fn same_fields_in_another_format_sign_differently() {
    let legacy: TypedTransaction = legacy_request().into();
    let eip2930: TypedTransaction =
        Eip2930TransactionRequest::new(legacy_request(), AccessList::new()).into();
    assert_ne!(legacy.sighash(1u64), eip2930.sighash(1u64));
    assert_ne!(legacy.rlp(1u64), eip2930.rlp(1u64));
}

#[test]
fn type_tags_are_two_hexadecimal_digits() {
    assert_eq!(render_type_tag(0), "0x00");
    assert_eq!(render_type_tag(1), "0x01");
    assert_eq!(render_type_tag(2), "0x02");
    assert_eq!(render_type_tag(0x0a), "0x0a");
    assert_eq!(render_type_tag(0x7f), "0x7f");
    assert_eq!(render_type_tag(0xff), "0xff");
    for byte in 0..=255u8 {
        let tag = render_type_tag(byte);
        assert_eq!(tag, format!("0x{:02x}", byte));
        assert_eq!(parse_type_tag(&tag), Some(byte));
    }
}

#[test]
fn only_tags_are_read_as_type_bytes() {
    assert_eq!(parse_type_tag("0x00"), Some(0));
    assert_eq!(parse_type_tag("0x02"), Some(2));
    assert_eq!(parse_type_tag("0xfe"), Some(0xfe));
    for text in [
        "", "0x", "0x0", "0x000", "0X00", "0xFE", "0xg0", "x000", "0x0 ", " 0x00", "0x\u{661}0",
    ] {
        assert_eq!(parse_type_tag(text), None);
    }
}
