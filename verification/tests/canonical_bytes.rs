//! The canonical bytes of values, written and read.

use ledger_transaction::address::{AccountAddress, Ed25519PublicKey, Ed25519Signature, HashValue};
use ledger_transaction::argument::TransactionArgument;
use ledger_transaction::canonical::{encode_bytes, encode_u32, encode_u64, SimpleDeserializer};
use ledger_transaction::codec::{
    from_canonical_bytes, to_canonical_bytes, CanonicalDeserialize,
};
use ledger_transaction::error::Error;
use ledger_transaction::info::TransactionInfo;
use ledger_transaction::payload::{TransactionPayload, TransactionPayloadType};
use ledger_transaction::program::{Module, Program, Script};
use ledger_transaction::status::StatusCode;
use ledger_transaction::time::Duration;
use ledger_transaction::transaction::{
    RawTransaction, SignedTransaction, MAX_TRANSACTION_SIZE_IN_BYTES,
};
use ledger_transaction::write_set::{Write, WriteOp, WriteSet};

fn prefixed(byte: u8, len: usize) -> Vec<u8> {
    let mut out = vec![len as u8, 0, 0, 0];
    out.extend(vec![byte; len]);
    out
}

fn le64(n: u64) -> Vec<u8> {
    n.to_le_bytes().to_vec()
}

fn every_payload() -> Vec<TransactionPayload> {
    let address = AccountAddress::new([9; 32]);
    let args = || {
        vec![
            TransactionArgument::U64(77),
            TransactionArgument::Address(address),
            TransactionArgument::Text("né".to_string()),
            TransactionArgument::ByteArray(vec![1, 2, 3]),
        ]
    };
    vec![
        TransactionPayload::Program(Program::new(vec![1, 2], vec![vec![3], vec![]], args())),
        TransactionPayload::WriteSet(WriteSet::new(vec![
            Write { address, path: vec![4, 5], op: WriteOp::Value(vec![6]) },
            Write { address, path: vec![], op: WriteOp::Deletion },
        ])),
        TransactionPayload::Script(Script::new(vec![7, 8], args())),
        TransactionPayload::Module(Module::new(vec![10, 11, 12])),
    ]
}

#[test]
fn integers_are_little_endian() {
    let mut out = Vec::new();
    encode_u32(0x0102_0304, &mut out);
    encode_u64(0x0102_0304_0506_0708, &mut out);
    assert_eq!(out, vec![4, 3, 2, 1, 8, 7, 6, 5, 4, 3, 2, 1]);
    let mut input = SimpleDeserializer::new(&out);
    assert_eq!(input.decode_u32(), Ok(0x0102_0304));
    assert_eq!(input.decode_u64(), Ok(0x0102_0304_0506_0708));
    assert_eq!(input.decode_u32(), Err(Error::UnexpectedEnd));
}

#[test]
fn byte_strings_carry_their_length() {
    let mut out = Vec::new();
    assert_eq!(encode_bytes(&[5, 6], &mut out), Ok(()));
    assert_eq!(out, vec![2, 0, 0, 0, 5, 6]);
    assert_eq!(SimpleDeserializer::new(&out).decode_bytes(), Ok(vec![5, 6]));
    assert_eq!(SimpleDeserializer::new(&out[..5]).decode_bytes(), Err(Error::UnexpectedEnd));
}

#[test]
fn lengths_over_the_limit_are_refused() {
    let too_long = [0, 0, 0, 0x80];
    assert_eq!(SimpleDeserializer::new(&too_long).decode_bytes(), Err(Error::LengthLimit));
    let longest = [0xff, 0xff, 0xff, 0x7f];
    assert_eq!(SimpleDeserializer::new(&longest).decode_bytes(), Err(Error::UnexpectedEnd));
}

#[test]
fn fixed_lengths_are_checked() {
    let ten = prefixed(1, 10);
    assert_eq!(from_canonical_bytes::<AccountAddress>(&ten), Err(Error::InvalidAddressLength));
    assert_eq!(from_canonical_bytes::<Ed25519PublicKey>(&ten), Err(Error::InvalidPublicKeyLength));
    assert_eq!(from_canonical_bytes::<Ed25519Signature>(&ten), Err(Error::InvalidSignatureLength));
    assert_eq!(HashValue::from_slice(&[0; 31]), Err(Error::InvalidHashLength));
    assert_eq!(HashValue::from_slice(&[3; 32]).unwrap().as_bytes(), &[3; 32]);
    assert_eq!(
        from_canonical_bytes::<AccountAddress>(&prefixed(1, 32)),
        Ok(AccountAddress::new([1; 32]))
    );
}

#[test]
fn arguments_have_a_tag() {
    let bytes = |a: TransactionArgument| to_canonical_bytes(&a).unwrap();
    assert_eq!(bytes(TransactionArgument::U64(1)), [vec![0, 0, 0, 0], le64(1)].concat());
    assert_eq!(
        bytes(TransactionArgument::Address(AccountAddress::new([2; 32]))),
        [vec![1, 0, 0, 0], prefixed(2, 32)].concat()
    );
    assert_eq!(
        bytes(TransactionArgument::Text("é".to_string())),
        vec![2, 0, 0, 0, 2, 0, 0, 0, 0xc3, 0xa9]
    );
    assert_eq!(
        bytes(TransactionArgument::ByteArray(vec![9])),
        vec![3, 0, 0, 0, 1, 0, 0, 0, 9]
    );
}

#[test]
fn text_arguments_have_to_be_utf8() {
    let good = [2, 0, 0, 0, 2, 0, 0, 0, 0xc3, 0xa9];
    assert_eq!(
        from_canonical_bytes::<TransactionArgument>(&good),
        Ok(TransactionArgument::Text("é".to_string()))
    );
    let bad = [2, 0, 0, 0, 1, 0, 0, 0, 0xff];
    assert_eq!(from_canonical_bytes::<TransactionArgument>(&bad), Err(Error::InvalidUtf8));
}

#[test]
fn unknown_tags_are_refused() {
    let nine = [9, 0, 0, 0];
    assert_eq!(
        from_canonical_bytes::<TransactionArgument>(&nine),
        Err(Error::UnknownArgumentType(9))
    );
    assert_eq!(from_canonical_bytes::<WriteOp>(&nine), Err(Error::UnknownWriteOpType(9)));
    assert_eq!(
        from_canonical_bytes::<TransactionPayload>(&nine),
        Err(Error::UnknownPayloadType(9))
    );
}

#[test]
fn reading_stops_where_it_fails() {
    let bytes = [9, 0, 0, 0, 7, 0, 0, 0];
    let mut input = SimpleDeserializer::new(&bytes);
    assert_eq!(TransactionPayload::deserialize(&mut input), Err(Error::UnknownPayloadType(9)));
    assert_eq!(input.decode_u32(), Ok(7));
    let mut input = SimpleDeserializer::new(&bytes[..7]);
    assert_eq!(input.decode_u64(), Err(Error::UnexpectedEnd));
    assert_eq!(input.decode_u32(), Ok(9));
    let mut input = SimpleDeserializer::new(&[5, 0, 0, 0, 1, 0, 0, 0]);
    assert_eq!(input.decode_bytes(), Err(Error::UnexpectedEnd));
    assert_eq!(input.decode_u32(), Ok(1));
    let mut input = SimpleDeserializer::new(&[1, 0, 0, 0, 1, 2, 0, 0, 0]);
    assert_eq!(AccountAddress::deserialize(&mut input), Err(Error::InvalidAddressLength));
    assert_eq!(input.decode_u32(), Ok(2));
}

#[test]
fn payload_types_and_numbers() {
    let kinds = [
        TransactionPayloadType::Program,
        TransactionPayloadType::WriteSet,
        TransactionPayloadType::Script,
        TransactionPayloadType::Module,
    ];
    for (n, kind) in kinds.iter().enumerate() {
        assert_eq!(kind.to_u32(), n as u32);
        assert_eq!(TransactionPayloadType::from_u32(n as u32), Some(*kind));
    }
    assert_eq!(TransactionPayloadType::from_u32(4), None);
    assert_eq!(TransactionPayloadType::from_u32(u32::MAX), None);
}

#[test]
fn payloads_start_with_their_number() {
    let first: Vec<u8> =
        every_payload().iter().map(|p| to_canonical_bytes(p).unwrap()[0]).collect();
    assert_eq!(first, vec![0, 1, 2, 3]);
}

#[test]
fn payloads_come_back() {
    for payload in every_payload() {
        let mut bytes = to_canonical_bytes(&payload).unwrap();
        assert_eq!(from_canonical_bytes(&bytes), Ok(payload.clone()));
        bytes.extend([1, 2, 3]);
        assert_eq!(from_canonical_bytes(&bytes), Ok(payload));
    }
}

#[test]
fn payloads_that_are_cut_short_are_refused() {
    for payload in every_payload() {
        let bytes = to_canonical_bytes(&payload).unwrap();
        for n in 0..bytes.len() {
            assert_eq!(
                from_canonical_bytes::<TransactionPayload>(&bytes[..n]),
                Err(Error::UnexpectedEnd)
            );
        }
    }
}

#[test]
fn bytes_of_a_module_transaction() {
    let raw = RawTransaction::new_module(
        AccountAddress::new([1; 32]),
        2,
        Module::new(vec![7]),
        3,
        4,
        Duration::new(5, 999),
    );
    let expected = [
        prefixed(1, 32),
        le64(2),
        vec![3, 0, 0, 0, 1, 0, 0, 0, 7],
        le64(3),
        le64(4),
        le64(5),
    ]
    .concat();
    assert_eq!(to_canonical_bytes(&raw), Ok(expected.clone()));
    let key = Ed25519PublicKey::new([8; 32]);
    let signature = Ed25519Signature::new([9; 64]);
    let signed = SignedTransaction::new(raw, key, signature);
    assert_eq!(signed.raw_txn_bytes_len(), expected.len());
    assert!(signed.raw_txn_bytes_len() <= MAX_TRANSACTION_SIZE_IN_BYTES);
    assert_eq!(
        to_canonical_bytes(&signed),
        Ok([expected, prefixed(8, 32), prefixed(9, 64)].concat())
    );
}

#[test]
fn raw_transactions_come_back_to_the_second() {
    for payload in every_payload() {
        let sender = AccountAddress::new([1; 32]);
        let raw = RawTransaction::new(sender, 2, payload.clone(), 3, 4, Duration::new(5, 6));
        let whole = RawTransaction::new(sender, 2, payload, 3, 4, Duration::from_secs(5));
        let bytes = to_canonical_bytes(&raw).unwrap();
        assert_eq!(bytes, to_canonical_bytes(&whole).unwrap());
        assert_eq!(from_canonical_bytes(&bytes), Ok(whole));
    }
}

#[test]
fn signed_transactions_come_back_to_the_second() {
    for payload in every_payload() {
        let sender = AccountAddress::new([1; 32]);
        let raw = RawTransaction::new(sender, 2, payload, 3, 4, Duration::from_secs(u64::MAX));
        let signed = SignedTransaction::new(
            raw,
            Ed25519PublicKey::new([5; 32]),
            Ed25519Signature::new([6; 64]),
        );
        let mut bytes = to_canonical_bytes(&signed).unwrap();
        assert_eq!(from_canonical_bytes(&bytes), Ok(signed.clone()));
        bytes.push(0);
        assert_eq!(from_canonical_bytes(&bytes), Ok(signed));
    }
}

#[test]
fn different_transactions_have_different_bytes() {
    let bytes = |sequence_number: u64, secs: u64| {
        to_canonical_bytes(&RawTransaction::new_module(
            AccountAddress::new([1; 32]),
            sequence_number,
            Module::new(vec![7]),
            3,
            4,
            Duration::from_secs(secs),
        ))
        .unwrap()
    };
    assert_ne!(bytes(1, 1), bytes(2, 1));
    assert_ne!(bytes(1, 1), bytes(1, 2));
    assert_eq!(bytes(1, 1), bytes(1, 1));
}

#[test]
fn bytes_of_a_transaction_info() {
    let info = |gas: u64| {
        TransactionInfo::new(
            HashValue::new([1; 32]),
            HashValue::new([2; 32]),
            HashValue::new([3; 32]),
            gas,
            StatusCode { code: 4001 },
        )
    };
    assert_eq!(
        to_canonical_bytes(&info(5)),
        Ok([prefixed(1, 32), prefixed(2, 32), prefixed(3, 32), le64(5), le64(4001)].concat())
    );
    assert_ne!(to_canonical_bytes(&info(5)), to_canonical_bytes(&info(6)));
}
