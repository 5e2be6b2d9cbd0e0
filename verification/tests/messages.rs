//! Transactions with proofs, lists of them and transactions to commit: their checks and their
//! messages.

use ledger_transaction::address::{AccountAddress, Ed25519PublicKey, Ed25519Signature, HashValue};
use ledger_transaction::codec::to_canonical_bytes;
use ledger_transaction::commit::{
    AccountState, AccountStateBlob, AccountStates, TransactionToCommit,
};
use ledger_transaction::convert::{FromProto, IntoProto};
use ledger_transaction::error::Error;
use ledger_transaction::event::{ContractEvent, EVENT_KEY_LENGTH};
use ledger_transaction::info::{AccumulatorProof, SignedTransactionProof, TransactionInfo};
use ledger_transaction::list::{check_shape, TransactionListWithProof};
use ledger_transaction::program::Module;
use ledger_transaction::proto::{
    AccountStateProto, EventProto, EventsForVersionsProto, EventsListProto, SignedTransactionProto,
    TransactionInfoProto,
};
use ledger_transaction::status::StatusCode;
use ledger_transaction::time::Duration;
use ledger_transaction::transaction::{RawTransaction, SignedTransaction};
use ledger_transaction::with_proof::SignedTransactionWithProof;
use protobuf::RepeatedField;

fn transaction(sequence_number: u64) -> SignedTransaction {
    SignedTransaction::new(
        RawTransaction::new_module(
            AccountAddress::new([1; 32]),
            sequence_number,
            Module::new(vec![2, 3]),
            4,
            5,
            Duration::from_secs(6),
        ),
        Ed25519PublicKey::new([7; 32]),
        Ed25519Signature::new([8; 64]),
    )
}

fn info(gas: u64) -> TransactionInfo {
    TransactionInfo::new(
        HashValue::new([1; 32]),
        HashValue::new([2; 32]),
        HashValue::new([3; 32]),
        gas,
        StatusCode { code: 4001 },
    )
}

fn event(sequence_number: u64) -> ContractEvent {
    ContractEvent::new(vec![9; 40], sequence_number, vec![1, 2]).unwrap()
}

fn path(byte: u8) -> AccumulatorProof {
    AccumulatorProof { siblings: vec![HashValue::new([byte; 32]), HashValue::new([0; 32])] }
}

fn with_proof(events: Option<Vec<ContractEvent>>) -> SignedTransactionWithProof {
    SignedTransactionWithProof {
        version: 10,
        signed_transaction: transaction(11),
        events,
        proof: SignedTransactionProof {
            ledger_info_to_transaction_info_proof: path(4),
            transaction_info: info(5),
        },
    }
}

fn list_of(n: u64) -> TransactionListWithProof {
    TransactionListWithProof::new(
        (0..n).map(|i| (transaction(i), info(100 + i))).collect(),
        Some((0..n).map(|i| vec![event(i), event(i + 1)]).collect()),
        if n > 0 { Some(20) } else { None },
        if n > 0 { Some(path(1)) } else { None },
        if n > 1 { Some(path(2)) } else { None },
    )
}

fn state(byte: u8, blob: Vec<u8>) -> AccountState {
    AccountState { address: AccountAddress::new([byte; 32]), blob: AccountStateBlob { blob } }
}

fn to_commit() -> TransactionToCommit {
    TransactionToCommit::new(
        transaction(1),
        AccountStates::from_entries(vec![state(1, vec![1]), state(2, vec![])]).unwrap(),
        vec![event(3)],
        4,
        StatusCode { code: 5 },
    )
}

fn first_bytes(bytes: &[u8]) -> HashValue {
    let mut out = [0u8; 32];
    for (i, b) in bytes.iter().enumerate() {
        out[i % 32] ^= b.wrapping_add(i as u8);
    }
    HashValue::new(out)
}

fn hash_of_event(event: &ContractEvent) -> HashValue {
    HashValue::new([event.sequence_number() as u8; 32])
}

fn root_of(hashes: &[HashValue]) -> HashValue {
    let mut out = [hashes.len() as u8; 32];
    for (i, hash) in hashes.iter().enumerate() {
        out[i + 1] = hash.as_bytes()[0];
    }
    HashValue::new(out)
}

#[test]
fn verification_hands_over_what_the_proof_is_of() {
    let expected = to_canonical_bytes(&transaction(11)).unwrap();
    let sender = AccountAddress::new([1; 32]);
    let mut root = [2u8; 32];
    root[1] = 30;
    root[2] = 31;
    for (events, expected_root) in
        [(None, None), (Some(vec![event(30), event(31)]), Some(HashValue::new(root)))]
    {
        let carried = with_proof(events);
        let verdict = carried.verify(
            &"ledger",
            10,
            sender,
            11,
            &first_bytes,
            &hash_of_event,
            &root_of,
            &|ledger: &&str,
              hash: HashValue,
              events_root: Option<HashValue>,
              version: u64,
              proof: &SignedTransactionProof| {
                assert_eq!(*ledger, "ledger");
                assert_eq!(hash, first_bytes(&expected));
                assert_eq!(events_root, expected_root);
                assert_eq!(version, 10);
                assert_eq!(proof, &carried.proof);
                Ok(())
            },
        );
        assert_eq!(verdict, Ok(()));
    }
}

#[test]
fn verification_returns_the_verdict() {
    let verdict = with_proof(None).verify(
        &(),
        10,
        AccountAddress::new([1; 32]),
        11,
        &first_bytes,
        &hash_of_event,
        &root_of,
        &|_: &(), _: HashValue, _: Option<HashValue>, _: u64, _: &SignedTransactionProof| {
            Err(Error::Rejected("no such leaf".to_string()))
        },
    );
    assert_eq!(verdict, Err(Error::Rejected("no such leaf".to_string())));
}

#[test]
fn unexpected_transactions_are_refused_before_the_proof_is_read() {
    let carried = with_proof(Some(vec![event(1)]));
    let sender = AccountAddress::new([1; 32]);
    let other = AccountAddress::new([0xfe; 32]);
    let refuse = |version: u64, sender: AccountAddress, sequence_number: u64| {
        carried
            .verify(
                &(),
                version,
                sender,
                sequence_number,
                &first_bytes,
                &|_: &ContractEvent| -> HashValue { panic!("no event is hashed") },
                &root_of,
                &|_: &(), _: HashValue, _: Option<HashValue>, _: u64, _: &SignedTransactionProof| {
                    panic!("no proof is read")
                },
            )
            .unwrap_err()
    };
    let version = refuse(9, other, 12);
    assert_eq!(version, Error::VersionMismatch { found_version: 10, expected_version: 9 });
    assert_eq!(version.message(), "Version (10) is not expected (9).");
    let sender_error = refuse(10, other, 12);
    assert_eq!(
        sender_error,
        Error::SenderMismatch { found_sender: sender, expected_sender: other }
    );
    assert_eq!(
        sender_error.message(),
        format!("Sender ({}) not expected ({}).", "01".repeat(32), "fe".repeat(32))
    );
    let number = refuse(10, sender, 12);
    assert_eq!(number, Error::SequenceNumberMismatch { found_number: 11, expected_number: 12 });
    assert_eq!(number.message(), "Sequence number (11) not expected (12).");
    assert_eq!(carried.check_expected(10, sender, 11), Ok(()));
}

#[test]
fn transaction_with_proof_comes_back() {
    for events in [None, Some(vec![]), Some(vec![event(1), event(2)])] {
        let carried = with_proof(events);
        let message = carried.clone().into_proto();
        assert_eq!(message.version, 10);
        assert_eq!(message.events.is_some(), carried.events.is_some());
        assert_eq!(SignedTransactionWithProof::from_proto(message), Ok(carried));
    }
}

#[test]
fn transaction_with_proof_is_read_in_order() {
    let broken = |txn: bool, path: bool, events: bool| {
        let mut message = with_proof(Some(vec![event(1)])).into_proto();
        if txn {
            message.signed_transaction.signed_txn.clear();
        }
        if path {
            message.proof.ledger_info_to_transaction_info_proof.siblings[1].push(0);
        }
        if events {
            let mut list = message.events.take().unwrap().events.into_vec();
            list[0].key.pop();
            message.events = Some(EventsListProto { events: RepeatedField::from_vec(list) });
        }
        SignedTransactionWithProof::from_proto(message).unwrap_err()
    };
    assert_eq!(broken(true, true, true), Error::UnexpectedEnd);
    assert_eq!(broken(false, true, true), Error::InvalidHashLength);
    assert_eq!(broken(false, false, true), Error::InvalidEventKeyLength);
}

#[test]
fn signed_transaction_message_is_its_bytes() {
    let signed = transaction(3);
    let message = signed.clone().into_proto();
    assert_eq!(message.signed_txn, to_canonical_bytes(&signed).unwrap());
    assert_eq!(SignedTransaction::from_proto(message), Ok(signed));
}

#[test]
fn checked_transaction_message_is_that_of_the_transaction() {
    let signed = transaction(3);
    let key = signed.public_key();
    let signature = signed.signature();
    let checked = signed
        .clone()
        .into_raw_transaction()
        .sign(
            &(),
            key,
            &first_bytes,
            &|_: &(), _: &HashValue| signature,
            &|_: &Ed25519PublicKey, _: &HashValue, _: &Ed25519Signature| Ok(()),
        )
        .unwrap();
    assert_eq!(checked.into_proto(), signed.into_proto());
}

#[test]
fn transaction_info_comes_back() {
    let message = info(7).into_proto();
    assert_eq!(
        message,
        TransactionInfoProto {
            signed_transaction_hash: vec![1; 32],
            state_root_hash: vec![2; 32],
            event_root_hash: vec![3; 32],
            gas_used: 7,
            major_status: 4001,
        }
    );
    assert_eq!(TransactionInfo::from_proto(message.clone()), Ok(info(7)));
    for broken in 0..3 {
        let mut bad = message.clone();
        match broken {
            0 => bad.signed_transaction_hash.pop(),
            1 => bad.state_root_hash.pop(),
            _ => bad.event_root_hash.pop(),
        };
        assert_eq!(TransactionInfo::from_proto(bad), Err(Error::InvalidHashLength));
    }
}

#[test]
fn a_status_that_is_refused_is_named_last() {
    let no_status = || Err(Error::Rejected("no such status".to_string()));
    let message = info(7).into_proto();
    assert_eq!(
        TransactionInfo::from_proto_with_status(message.clone(), no_status()),
        Err(Error::Rejected("no such status".to_string()))
    );
    let other = Ok(StatusCode { code: 1 });
    let read = TransactionInfo::from_proto_with_status(message.clone(), other).unwrap();
    assert_eq!(read.major_status(), StatusCode { code: 1 });
    assert_eq!(read.gas_used(), 7);
    let mut broken = message;
    broken.event_root_hash.pop();
    assert_eq!(
        TransactionInfo::from_proto_with_status(broken, no_status()),
        Err(Error::InvalidHashLength)
    );

    let commit = to_commit().into_proto();
    assert_eq!(
        TransactionToCommit::from_proto_with_status(commit, no_status()),
        Err(Error::Rejected("no such status".to_string()))
    );
    let mut broken = to_commit().into_proto();
    broken.events[0].key.pop();
    assert_eq!(
        TransactionToCommit::from_proto_with_status(broken, no_status()),
        Err(Error::InvalidEventKeyLength)
    );
    let read = TransactionToCommit::from_proto_with_status(
        to_commit().into_proto(),
        Ok(StatusCode { code: 5 }),
    );
    assert_eq!(read, Ok(to_commit()));
    assert_eq!(StatusCode::from_proto(4001), Ok(StatusCode { code: 4001 }));
    assert_eq!(StatusCode { code: 4001 }.into_proto(), 4001);
}

#[test]
fn event_comes_back() {
    assert_eq!(event(5).key().len(), EVENT_KEY_LENGTH);
    assert_eq!(event(5).event_data(), &[1, 2]);
    let message = event(5).into_proto();
    assert_eq!(
        message,
        EventProto { key: vec![9; 40], sequence_number: 5, event_data: vec![1, 2] }
    );
    assert_eq!(ContractEvent::from_proto(message), Ok(event(5)));
    assert_eq!(ContractEvent::new(vec![9; 39], 5, vec![]), Err(Error::InvalidEventKeyLength));
}

#[test]
fn lists_of_each_length_come_back() {
    for n in 0..5 {
        let list = list_of(n);
        assert_eq!(list.len(), n as usize);
        assert_eq!(list.is_empty(), n == 0);
        assert_eq!(list.clone(), list);
        let message = list.clone().into_proto();
        assert_eq!(message.transactions.len(), n as usize);
        assert_eq!(message.infos.len(), n as usize);
        assert_eq!(message.first_transaction_version, list.first_transaction_version);
        assert_eq!(TransactionListWithProof::from_proto(message), Ok(list));
    }
}

#[test]
fn pairs_keep_their_order() {
    let message = list_of(3).into_proto();
    for i in 0..3u64 {
        assert_eq!(
            message.transactions[i as usize].signed_txn,
            to_canonical_bytes(&transaction(i)).unwrap()
        );
        assert_eq!(message.infos[i as usize].gas_used, 100 + i);
    }
}

#[test]
fn empty_list() {
    let empty = TransactionListWithProof::new_empty();
    assert!(empty.is_empty());
    assert_eq!(empty.len(), 0);
    assert_eq!(empty.events, None);
    assert_eq!(empty.first_transaction_version, None);
    assert_eq!(empty.proof_of_first_transaction, None);
    assert_eq!(empty.proof_of_last_transaction, None);
    let message = empty.clone().into_proto();
    assert!(message.events_for_versions.is_none());
    assert_eq!(TransactionListWithProof::from_proto(message), Ok(empty));
}

#[test]
fn counts_have_to_agree() {
    let mut message = list_of(2).into_proto();
    message.infos.pop();
    message.proof_of_last_transaction = None;
    let refused = TransactionListWithProof::from_proto(message).unwrap_err();
    assert_eq!(refused, Error::InfoCountMismatch { transactions: 2, infos: 1 });
    assert_eq!(
        refused.message(),
        "Number of transactions (2) does not match the number of transaction infos (1)."
    );
}

#[test]
fn three_states_of_a_list() {
    for n in 0..4usize {
        for bits in 0..8 {
            let (first, last, version) = (bits & 1 != 0, bits & 2 != 0, bits & 4 != 0);
            let (good, error) = match n {
                0 => (!first && !last && !version, Error::ProofForEmptyList),
                1 => (first && !last && version, Error::ProofForSingleTransaction),
                _ => (first && last && version, Error::ProofForManyTransactions),
            };
            let mut list = list_of(n as u64);
            list.first_transaction_version = if version { Some(1) } else { None };
            list.proof_of_first_transaction = if first { Some(path(1)) } else { None };
            list.proof_of_last_transaction = if last { Some(path(2)) } else { None };
            let read = TransactionListWithProof::from_proto(list.clone().into_proto());
            if good {
                assert_eq!(check_shape(n, first, last, version), Ok(()));
                assert_eq!(read, Ok(list));
            } else {
                assert_eq!(read.unwrap_err(), error);
                assert_eq!(check_shape(n, first, last, version), Err(error));
            }
        }
    }
}

#[test]
fn words_for_a_wrong_shape() {
    assert_eq!(Error::ProofForEmptyList.message(), "Some proof exists with 0 transactions");
    assert_eq!(
        Error::ProofForSingleTransaction.message(),
        "Proof of last transaction exists with 1 transaction"
    );
    assert_eq!(
        Error::ProofForManyTransactions.message(),
        "Both proofs of first and last transactions must exist with 2+ transactions"
    );
}

#[test]
fn words_for_what_cannot_be_read() {
    let cases = [
        (Error::UnexpectedEnd, "Unexpected end of input"),
        (Error::LengthLimit, "Length exceeds the limit of the canonical format"),
        (
            Error::UnknownPayloadType(7),
            "ParseError: Unable to decode TransactionPayloadType, found 7",
        ),
        (
            Error::UnknownArgumentType(8),
            "ParseError: Unable to decode TransactionArgument type, found 8",
        ),
        (Error::UnknownWriteOpType(9), "ParseError: Unable to decode WriteOp type, found 9"),
        (Error::InvalidUtf8, "Text is not valid UTF-8"),
        (Error::InvalidAddressLength, "Account address has a wrong length"),
        (Error::InvalidHashLength, "Hash has a wrong length"),
        (Error::InvalidPublicKeyLength, "Public key has a wrong length"),
        (Error::InvalidSignatureLength, "Signature has a wrong length"),
        (Error::InvalidEventKeyLength, "Event key has a wrong length"),
    ];
    for (error, words) in cases {
        assert_eq!(error.message(), words);
    }
}

#[test]
fn lists_are_read_in_order() {
    let broken = |events: bool, txn: bool, info: bool, first: bool, last: bool| {
        let mut message = list_of(2).into_proto();
        if events {
            message.events_for_versions = Some(EventsForVersionsProto {
                events_for_version: RepeatedField::from_vec(vec![EventsListProto {
                    events: RepeatedField::from_vec(vec![EventProto {
                        key: vec![],
                        sequence_number: 0,
                        event_data: vec![],
                    }]),
                }]),
            });
        }
        if txn {
            message.transactions[1] = SignedTransactionProto { signed_txn: vec![1] };
        }
        if info {
            message.infos[0].state_root_hash.clear();
        }
        if first {
            message.proof_of_first_transaction.as_mut().unwrap().siblings[0].clear();
        }
        if last {
            message.proof_of_last_transaction.as_mut().unwrap().siblings[0].clear();
        }
        TransactionListWithProof::from_proto(message)
    };
    assert_eq!(broken(true, true, true, true, true), Err(Error::InvalidEventKeyLength));
    // The info of the first transaction is read before the second transaction.
    assert_eq!(broken(false, true, true, true, true), Err(Error::InvalidHashLength));
    assert_eq!(broken(false, true, false, true, true), Err(Error::UnexpectedEnd));
    assert_eq!(broken(false, false, false, true, false), Err(Error::InvalidHashLength));
    assert_eq!(broken(false, false, false, false, true), Err(Error::InvalidHashLength));
    assert!(broken(false, false, false, false, false).is_ok());
}

#[test]
fn list_verification() {
    let list = list_of(2);
    let accept = |ledger: &u8, given: &TransactionListWithProof| {
        assert_eq!(*ledger, 77);
        assert_eq!(given, &list);
        Ok(())
    };
    assert_eq!(list.verify(&77, Some(20), &accept), Ok(()));
    let refuse = |_: &u8, _: &TransactionListWithProof| -> Result<(), Error> {
        Err(Error::Rejected("wrong root".to_string()))
    };
    assert_eq!(
        list.verify(&77, Some(20), &refuse),
        Err(Error::Rejected("wrong root".to_string()))
    );
    let unread = |_: &u8, _: &TransactionListWithProof| -> Result<(), Error> {
        panic!("no proof is read")
    };
    let other = list.verify(&77, Some(21), &unread).unwrap_err();
    assert_eq!(
        other,
        Error::FirstVersionMismatch { found_first: Some(20), expected_first: Some(21) }
    );
    assert_eq!(other.message(), "First transaction version (20) not expected (21).");
    let absent = list.verify(&77, None, &unread).unwrap_err();
    assert_eq!(absent.message(), "First transaction version (20) not expected (absent).");
    let mut versionless = list.clone();
    versionless.first_transaction_version = None;
    let refused = versionless.verify(&77, None, &unread).unwrap_err();
    assert_eq!(refused, Error::MissingFirstVersion);
    assert_eq!(refused.message(), "First transaction version is absent with 1+ transactions");
    let empty = TransactionListWithProof::new_empty();
    let missing = empty.verify(&77, Some(0), &unread).unwrap_err();
    assert_eq!(missing.message(), "First transaction version (absent) not expected (0).");
    assert_eq!(
        empty.verify(&77, None, &|_: &u8, given: &TransactionListWithProof| {
            assert!(given.is_empty());
            Ok(())
        }),
        Ok(())
    );
}

#[test]
fn versions_as_text() {
    assert_eq!(TransactionListWithProof::display_option_version(Some(0)), "0");
    assert_eq!(TransactionListWithProof::display_option_version(Some(120)), "120");
    assert_eq!(TransactionListWithProof::display_option_version(None), "absent");
}

#[test]
fn transaction_to_commit_keeps_its_parts() {
    let commit = to_commit();
    assert_eq!(commit.signed_txn(), &transaction(1));
    assert_eq!(commit.account_states().len(), 2);
    assert_eq!(commit.events(), &[event(3)]);
    assert_eq!(commit.gas_used(), 4);
    assert_eq!(commit.major_status(), StatusCode { code: 5 });
}

#[test]
fn transaction_to_commit_comes_back() {
    let commit = to_commit();
    let message = commit.clone().into_proto();
    assert_eq!(message.account_states.len(), 2);
    assert_eq!(
        message.account_states[0],
        AccountStateProto { address: vec![1; 32], blob: vec![1] }
    );
    assert_eq!(message.events.len(), 1);
    assert_eq!(message.gas_used, 4);
    assert_eq!(message.major_status, 5);
    assert_eq!(TransactionToCommit::from_proto(message), Ok(commit));
}

#[test]
fn order_of_account_states_is_free() {
    let mut message = to_commit().into_proto();
    message.account_states =
        RepeatedField::from_vec(message.account_states.into_iter().rev().collect());
    let read = TransactionToCommit::from_proto(message).unwrap();
    assert_eq!(read.account_states().entries()[0], state(2, vec![]));
    assert_eq!(read, to_commit());
}

#[test]
fn account_states_are_shown_as_a_map() {
    for entries in
        [vec![], vec![state(1, vec![0xaa])], vec![state(1, vec![0xaa]), state(2, vec![])]]
    {
        let states = AccountStates::from_entries(entries.clone()).unwrap();
        let flat: Vec<String> =
            entries.iter().map(|e| format!("{:?}: {:?}", e.address, e.blob)).collect();
        assert_eq!(format!("{:?}", states), format!("{{{}}}", flat.join(", ")));
        let lines: String = flat.iter().map(|line| format!("    {},\n", line)).collect();
        let expected = if flat.is_empty() {
            "{}".to_string()
        } else {
            format!("{{\n{}}}", lines)
        };
        assert_eq!(format!("{:#?}", states), expected);
    }
    let pairs: std::collections::BTreeMap<u8, Option<u8>> = [(1, None), (2, None)].into();
    assert_eq!(format!("{:?}", pairs), "{1: None, 2: None}");
    assert_eq!(format!("{:#?}", pairs), "{\n    1: None,\n    2: None,\n}");
}

#[test]
fn accounts_occur_once() {
    let mut message = to_commit().into_proto();
    message.account_states.push(AccountStateProto { address: vec![1; 32], blob: vec![9] });
    message.events = RepeatedField::from_vec(vec![EventProto {
        key: vec![],
        sequence_number: 0,
        event_data: vec![],
    }]);
    let refused = TransactionToCommit::from_proto(message).unwrap_err();
    assert_eq!(refused, Error::DuplicateAccount);
    assert_eq!(refused.message(), "account_states should have no duplication.");
}

#[test]
fn transaction_to_commit_is_read_in_order() {
    let broken = |txn: bool, address: bool, events: bool| {
        let mut message = to_commit().into_proto();
        if txn {
            message.signed_txn.signed_txn.truncate(3);
        }
        if address {
            // Every address is read before accounts are compared.
            message.account_states.push(AccountStateProto { address: vec![1; 32], blob: vec![] });
            message.account_states.push(AccountStateProto { address: vec![1; 31], blob: vec![] });
        }
        if events {
            message.events[0].key.clear();
        }
        TransactionToCommit::from_proto(message).unwrap_err()
    };
    assert_eq!(broken(true, true, true), Error::UnexpectedEnd);
    assert_eq!(broken(false, true, true), Error::InvalidAddressLength);
    assert_eq!(broken(false, false, true), Error::InvalidEventKeyLength);
}

#[test]
fn account_states_are_a_map() {
    let one = AccountAddress::new([1; 32]);
    let two = AccountAddress::new([2; 32]);
    let mut states = AccountStates::new();
    assert_eq!(states.len(), 0);
    assert_eq!(states.get(&one), None);
    states.insert(one, AccountStateBlob { blob: vec![1] });
    states.insert(two, AccountStateBlob { blob: vec![2] });
    states.insert(one, AccountStateBlob { blob: vec![3] });
    assert_eq!(states.len(), 2);
    assert_eq!(states.get(&one), Some(&AccountStateBlob { blob: vec![3] }));
    assert_eq!(states.get(&two), Some(&AccountStateBlob { blob: vec![2] }));
    assert_eq!(states.entries(), &[state(1, vec![3]), state(2, vec![2])]);
    let swapped =
        AccountStates::from_entries(vec![state(2, vec![2]), state(1, vec![3])]).unwrap();
    assert!(states == swapped);
    let other = AccountStates::from_entries(vec![state(2, vec![2]), state(1, vec![4])]).unwrap();
    assert!(states != other);
    assert!(states != AccountStates::from_entries(vec![state(2, vec![2])]).unwrap());
    assert!(AccountStates::from_entries(vec![state(2, vec![2])]).unwrap() != states);
    assert_eq!(
        AccountStates::from_entries(vec![state(2, vec![2]), state(2, vec![2])]),
        Err(Error::DuplicateAccount)
    );
}
