//! Transactions: making them, signing them, showing them.

use ledger_transaction::address::{AccountAddress, Ed25519PublicKey, Ed25519Signature, HashValue};
use ledger_transaction::argument::TransactionArgument;
use ledger_transaction::codec::to_canonical_bytes;
use ledger_transaction::convert::{FromProto, IntoProto};
use ledger_transaction::error::Error;
use ledger_transaction::event::ContractEvent;
use ledger_transaction::info::TransactionInfo;
use ledger_transaction::output::TransactionOutput;
use ledger_transaction::payload::TransactionPayload;
use ledger_transaction::program::{Module, Program, Script};
use ledger_transaction::status::{StatusCode, StatusType, TransactionStatus, VMStatus};
use ledger_transaction::text::{append_decimal, append_hex};
use ledger_transaction::time::Duration;
use ledger_transaction::transaction::{RawTransaction, SignedTransaction};
use ledger_transaction::write_set::{Write, WriteOp, WriteSet};

/// A stand-in for a hash function: it tells apart what these tests hash.
fn toy_hash(bytes: &[u8]) -> HashValue {
    let mut out = [0u8; 32];
    for (i, b) in bytes.iter().enumerate() {
        let at = i % 32;
        out[at] = out[at].wrapping_mul(31).wrapping_add(*b).wrapping_add(i as u8);
    }
    HashValue::new(out)
}

/// A stand-in for a signature scheme, in which the private key is one byte.
fn toy_sign(private_key: &u8, hash: &HashValue) -> Ed25519Signature {
    let mut out = [0u8; 64];
    for i in 0..64 {
        out[i] = hash.as_bytes()[i % 32] ^ private_key;
    }
    Ed25519Signature::new(out)
}

fn toy_verify(
    key: &Ed25519PublicKey,
    hash: &HashValue,
    signature: &Ed25519Signature,
) -> Result<(), Error> {
    if toy_sign(&key.as_bytes()[0], hash) == *signature {
        Ok(())
    } else {
        Err(Error::Rejected("bad signature".to_string()))
    }
}

fn script_transaction() -> RawTransaction {
    RawTransaction::new_script(
        AccountAddress::new([0xab; 32]),
        12,
        Script::new(
            vec![1, 2, 3],
            vec![
                TransactionArgument::U64(10),
                TransactionArgument::Address(AccountAddress::new([1; 32])),
                TransactionArgument::Text("hi".to_string()),
                TransactionArgument::ByteArray(vec![0xca, 0xfe]),
            ],
        ),
        100,
        2,
        Duration::from_secs(60),
    )
}

#[test]
fn new_keeps_its_parts() {
    let sender = AccountAddress::new([1; 32]);
    let payload = TransactionPayload::Module(Module::new(vec![5]));
    let raw = RawTransaction::new(sender, 2, payload.clone(), 3, 4, Duration::new(5, 6));
    assert_eq!(raw.sender(), sender);
    assert_eq!(raw.sequence_number(), 2);
    assert_eq!(raw.payload(), &payload);
    assert_eq!(raw.max_gas_amount(), 3);
    assert_eq!(raw.gas_unit_price(), 4);
    assert_eq!(raw.expiration_time(), Duration::new(5, 6));
    assert_eq!(raw.clone(), raw);
    let signed = SignedTransaction::new(
        raw.clone(),
        Ed25519PublicKey::new([7; 32]),
        Ed25519Signature::new([8; 64]),
    );
    assert_eq!(signed.sender(), sender);
    assert_eq!(signed.sequence_number(), 2);
    assert_eq!(signed.payload(), &payload);
    assert_eq!(signed.max_gas_amount(), 3);
    assert_eq!(signed.gas_unit_price(), 4);
    assert_eq!(signed.expiration_time(), Duration::new(5, 6));
    assert_eq!(signed.public_key(), Ed25519PublicKey::new([7; 32]));
    assert_eq!(signed.signature(), Ed25519Signature::new([8; 64]));
    assert_eq!(signed.raw_txn_bytes_len(), to_canonical_bytes(&raw).unwrap().len());
    assert_eq!(signed.clone().into_raw_transaction(), raw);
    assert_eq!(raw.into_payload(), payload);
}

#[test]
fn write_set_transactions_do_not_expire() {
    let writes = WriteSet::new(vec![Write {
        address: AccountAddress::new([1; 32]),
        path: vec![2],
        op: WriteOp::Deletion,
    }]);
    let raw = RawTransaction::new_write_set(AccountAddress::new([3; 32]), 4, writes.clone());
    let signed = SignedTransaction::new(
        raw,
        Ed25519PublicKey::new([7; 32]),
        Ed25519Signature::new([8; 64]),
    );
    assert_eq!(signed.payload(), &TransactionPayload::WriteSet(writes));
    assert_eq!(signed.max_gas_amount(), 0);
    assert_eq!(signed.gas_unit_price(), 0);
    assert_eq!(signed.expiration_time(), Duration::from_secs(u64::MAX));
}

#[test]
fn nanoseconds_carry_over() {
    let d = Duration::new(1, 2_500_000_000);
    assert_eq!((d.as_secs(), d.subsec_nanos()), (3, 500_000_000));
}

#[test]
fn hash_is_of_the_canonical_bytes() {
    let raw = script_transaction();
    assert_eq!(raw.hash(&toy_hash), toy_hash(&to_canonical_bytes(&raw).unwrap()));
    let signed = SignedTransaction::new(
        raw,
        Ed25519PublicKey::new([7; 32]),
        Ed25519Signature::new([8; 64]),
    );
    assert_eq!(signed.hash(&toy_hash), toy_hash(&to_canonical_bytes(&signed).unwrap()));
    let info = TransactionInfo::new(
        HashValue::new([1; 32]),
        HashValue::new([2; 32]),
        HashValue::new([3; 32]),
        4,
        StatusCode { code: 5 },
    );
    assert_eq!(info.hash(&toy_hash), toy_hash(&to_canonical_bytes(&info).unwrap()));
}

#[test]
fn equal_to_the_second_means_equal_hashes_and_signatures() {
    let raw = |nanos: u32| {
        RawTransaction::new_module(
            AccountAddress::new([1; 32]),
            2,
            Module::new(vec![3]),
            4,
            5,
            Duration::new(6, nanos),
        )
    };
    assert_eq!(raw(0).hash(&toy_hash), raw(7).hash(&toy_hash));
    let key = Ed25519PublicKey::new([33; 32]);
    let checked = raw(7).sign(&33u8, key, &toy_hash, &toy_sign, &toy_verify).unwrap();
    let rounded = SignedTransaction::new(raw(0), key, checked.signature());
    assert!(rounded.check_signature(&toy_hash, &toy_verify).is_ok());
    let signed = checked.into_inner();
    let back = SignedTransaction::from_proto(signed.clone().into_proto()).unwrap();
    assert_ne!(back, signed);
    assert_eq!(back.hash(&toy_hash), signed.hash(&toy_hash));
    assert!(back.check_signature(&toy_hash, &toy_verify).is_ok());
    assert!(signed.check_signature(&toy_hash, &toy_verify).is_ok());
}

#[test]
fn signing_and_checking() {
    let raw = script_transaction();
    let key = Ed25519PublicKey::new([33; 32]);
    let checked = raw.clone().sign(&33u8, key, &toy_hash, &toy_sign, &toy_verify).unwrap();
    assert_eq!(checked.sender(), raw.sender());
    assert_eq!(checked.signature(), toy_sign(&33, &raw.hash(&toy_hash)));
    assert_eq!(checked.public_key(), key);
    assert_eq!(checked.clone().into_raw_transaction(), raw);
    let signed = checked.clone().into_inner();
    assert_eq!(signed.check_signature(&toy_hash, &toy_verify), Ok(checked));
}

#[test]
fn signing_with_a_foreign_key_is_refused() {
    let raw = script_transaction();
    let foreign = Ed25519PublicKey::new([34; 32]);
    let refused = raw.clone().sign(&33u8, foreign, &toy_hash, &toy_sign, &toy_verify);
    assert_eq!(refused, Err(Error::Rejected("bad signature".to_string())));
    let signature = toy_sign(&33, &raw.hash(&toy_hash));
    let signed = SignedTransaction::new(raw, foreign, signature);
    assert_eq!(
        signed.check_signature(&toy_hash, &toy_verify),
        Err(Error::Rejected("bad signature".to_string()))
    );
}

#[test]
fn a_wrong_signature_is_rejected() {
    let signed = SignedTransaction::new(
        script_transaction(),
        Ed25519PublicKey::new([33; 32]),
        Ed25519Signature::new([0; 64]),
    );
    let refused = signed.check_signature(&toy_hash, &toy_verify);
    assert_eq!(refused, Err(Error::Rejected("bad signature".to_string())));
    assert_eq!(refused.unwrap_err().message(), "bad signature");
}

#[test]
fn script_transaction_for_a_client() {
    let shown = script_transaction().format_for_client(|code| format!("code of {}", code.len()));
    let sender = "ab".repeat(32);
    let to = "01".repeat(32);
    let expected = format!(
        "RawTransaction {{ \n\tsender: {}, \n\tsequence_number: 12, \n\tpayload: {{, \n\
         \t\ttransaction: code of 3, \n\t\targs: [ \n\t\t\t{{U64: 10}},\n\t\t\t{{ADDRESS: {}}},\
         \n\t\t\t{{STRING: hi}},\n\t\t\t{{ByteArray: 0xcafe}}, \n\t\t]\n\t}}, \n\
         \tmax_gas_amount: 100, \n\tgas_unit_price: 2, \n\texpiration_time: 60s, \n}}",
        sender, to
    );
    assert_eq!(shown, expected);
}

#[test]
fn names_of_transactions_without_code() {
    let sender = AccountAddress::new([0; 32]);
    let module = RawTransaction::new_module(
        sender,
        1,
        Module::new(vec![9]),
        2,
        3,
        Duration::new(4, 500_000_000),
    );
    let shown = module.format_for_client(|_| "unused".to_string());
    assert!(shown.contains("transaction: module publishing, \n\t\targs: [  \n\t\t]"));
    assert!(shown.contains("expiration_time: 4.5s, \n}"));
    let genesis = RawTransaction::new_write_set(sender, 1, WriteSet::new(vec![]));
    let shown = genesis.format_for_client(|_| "unused".to_string());
    assert!(shown.contains("transaction: genesis, "));
    assert!(shown.contains("expiration_time: 18446744073709551615s, "));
}

#[test]
fn program_transaction_for_a_client() {
    let raw = RawTransaction::new(
        AccountAddress::new([0; 32]),
        1,
        TransactionPayload::Program(Program::new(
            vec![1],
            vec![vec![2]],
            vec![TransactionArgument::U64(0)],
        )),
        2,
        3,
        Duration::new(0, 1_500),
    );
    let shown = raw.format_for_client(|code| format!("{:?}", code));
    assert!(shown.contains("transaction: [1], \n\t\targs: [ \n\t\t\t{U64: 0}, \n\t\t]"));
    assert!(shown.contains("expiration_time: 1.5\u{b5}s, "));
}

#[test]
fn signed_transaction_for_a_client() {
    let raw = script_transaction();
    let inner = raw.format_for_client(|_| "t".to_string());
    let signed = SignedTransaction::new(
        raw,
        Ed25519PublicKey::new([1; 32]),
        Ed25519Signature::new([2; 64]),
    );
    let shown = signed.format_for_client(|_| "t".to_string());
    assert_eq!(
        shown,
        format!(
            "SignedTransaction {{ \n raw_txn: {}, \n public_key: {}, \n signature: {}, \n }}",
            inner,
            "01".repeat(32),
            "02".repeat(64)
        )
    );
    assert_eq!(
        SignedTransaction::debug_text("r", "k", "s"),
        "SignedTransaction { \n { raw_txn: r, \n public_key: k, \n signature: s, \n } \n }"
    );
}

#[test]
fn signed_transaction_in_a_log() {
    let raw = script_transaction();
    let key = Ed25519PublicKey::new([1; 32]);
    let signature = Ed25519Signature::new([2; 64]);
    let signed = SignedTransaction::new(raw.clone(), key, signature);
    let expected = format!(
        "SignedTransaction {{ \n {{ raw_txn: {:#?}, \n public_key: {:#?}, \n \
         signature: {:#?}, \n }} \n }}",
        raw, key, signature
    );
    assert_eq!(format!("{:?}", signed), expected);
    assert_eq!(format!("{:#?}", signed), expected);
    assert!(expected.contains(&format!("public_key: {}, ", "01".repeat(32))));
    assert!(expected.contains(&format!("signature: {}, ", "02".repeat(64))));
    let accept = |_: &Ed25519PublicKey, _: &HashValue, _: &Ed25519Signature| Ok(());
    let checked = signed.check_signature(&toy_hash, &accept).unwrap();
    assert_eq!(
        format!("{:?}", checked),
        format!("SignatureCheckedTransaction({})", expected)
    );
}

#[test]
fn raw_transactions_on_several_lines() {
    let args = || {
        vec![
            TransactionArgument::U64(7),
            TransactionArgument::Text("two\nlines\n\n".to_string()),
        ]
    };
    let payloads = vec![
        TransactionPayload::Program(Program::new(vec![1], vec![vec![2], vec![]], args())),
        TransactionPayload::WriteSet(WriteSet::new(vec![
            Write {
                address: AccountAddress::new([3; 32]),
                path: vec![4],
                op: WriteOp::Value(vec![5]),
            },
            Write { address: AccountAddress::new([3; 32]), path: vec![], op: WriteOp::Deletion },
        ])),
        TransactionPayload::Module(Module::new(vec![6])),
        TransactionPayload::Script(Script::new(vec![], vec![])),
        TransactionPayload::Script(Script::new(vec![7], args())),
    ];
    for payload in payloads {
        assert_eq!(payload.pretty_text(), format!("{:#?}", payload));
        let raw = RawTransaction::new(
            AccountAddress::new([8; 32]),
            9,
            payload,
            10,
            11,
            Duration::new(4, 500_000_000),
        );
        assert_eq!(raw.pretty_text(), format!("{:#?}", raw));
    }
    let module = RawTransaction::new_module(
        AccountAddress::new([8; 32]),
        9,
        Module::new(vec![6]),
        10,
        11,
        Duration::new(4, 500_000_000),
    );
    assert_eq!(
        module.pretty_text(),
        format!(
            "RawTransaction {{\n    sender: {},\n    sequence_number: 9,\n    payload: Module(\n\
             \x20       Module {{ code: 06 }},\n    ),\n    max_gas_amount: 10,\n    \
             gas_unit_price: 11,\n    expiration_time: 4.5s,\n}}",
            "08".repeat(32)
        )
    );
}

#[test]
fn parts_of_transactions_in_a_log() {
    assert_eq!(format!("{:?}", AccountAddress::new([0xab; 32])), "ab".repeat(32));
    assert_eq!(format!("{:?}", HashValue::new([0xcd; 32])), "cd".repeat(32));
    assert_eq!(format!("{:?}", Duration::new(4, 500_000_000)), "4.5s");
    assert_eq!(format!("{:#?}", Duration::from_secs(60)), "60s");
    assert_eq!(format!("{:?}", TransactionArgument::U64(10)), "{U64: 10}");
    assert_eq!(format!("{:#?}", TransactionArgument::ByteArray(vec![0xca])), "{ByteArray: 0xca}");
    assert_eq!(
        format!("{:?}", Script::new(vec![1, 2], vec![TransactionArgument::U64(3); 2])),
        "Script { code: 0102, args: [{U64: 3}, {U64: 3}] }"
    );
    assert_eq!(
        format!("{:?}", Program::new(vec![1], vec![vec![2], vec![3, 4]], vec![])),
        "Program { code: 01, args: [], modules: [02, 0304] }"
    );
    let write = Write {
        address: AccountAddress::new([0; 32]),
        path: vec![1],
        op: WriteOp::Value(vec![2]),
    };
    assert_eq!(
        format!("{:?}", WriteSet::new(vec![write])),
        format!(
            "WriteSet {{ writes: [Write {{ address: {}, path: 01, op: Value(02) }}] }}",
            "00".repeat(32)
        )
    );
}

#[test]
fn numbers_and_bytes_as_text() {
    let mut out = String::new();
    append_decimal(&mut out, 0);
    append_decimal(&mut out, u64::MAX);
    append_hex(&mut out, &[0, 0x0f, 0xf0]);
    assert_eq!(out, "018446744073709551615000ff0");
}

#[test]
fn which_statuses_are_kept() {
    let cases = [
        (0, StatusType::Validation, false),
        (999, StatusType::Validation, false),
        (1000, StatusType::Verification, false),
        (2000, StatusType::InvariantViolation, false),
        (3000, StatusType::Deserialization, true),
        (3999, StatusType::Deserialization, true),
        (4001, StatusType::Execution, true),
        (5000, StatusType::Unknown, false),
        (u64::MAX, StatusType::Unknown, false),
    ];
    for (code, class, kept) in cases {
        let status = VMStatus::new(StatusCode { code });
        assert_eq!(status.status_type(), class);
        let decided = TransactionStatus::from(status.clone());
        assert_eq!(decided.vm_status(), &status);
        assert_eq!(decided, if kept {
            TransactionStatus::Keep(status)
        } else {
            TransactionStatus::Discard(status)
        });
    }
}

#[test]
fn output_keeps_its_parts() {
    let writes = WriteSet::new(vec![]);
    let events = vec![ContractEvent::new(vec![1; 40], 2, vec![3]).unwrap()];
    let status = TransactionStatus::from(VMStatus::new(StatusCode { code: 4001 }));
    let output = TransactionOutput::new(writes.clone(), events.clone(), 9, status.clone());
    assert_eq!(output.write_set(), &writes);
    assert_eq!(output.events(), &events[..]);
    assert_eq!(output.gas_used(), 9);
    assert_eq!(output.status(), &status);
    assert_eq!(output.clone(), output);
}

#[test]
fn info_keeps_its_parts() {
    let info = TransactionInfo::new(
        HashValue::new([1; 32]),
        HashValue::new([2; 32]),
        HashValue::new([3; 32]),
        4,
        StatusCode { code: 5 },
    );
    assert_eq!(info.signed_transaction_hash(), HashValue::new([1; 32]));
    assert_eq!(info.state_root_hash(), HashValue::new([2; 32]));
    assert_eq!(info.event_root_hash(), HashValue::new([3; 32]));
    assert_eq!(info.gas_used(), 4);
    assert_eq!(info.major_status(), StatusCode { code: 5 });
}
