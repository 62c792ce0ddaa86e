//! The nullifier store, the batch date, the framing and the replies.

use act_core::error::{Error, PolicyError, ProtocolError, StoreError};
use act_core::keygen::{output_file, DEFAULT_KEY_FILE};
use act_core::ledger::{read_ledger, write_ledger, RECORD_BYTES};
use act_core::nullifier::{parse_batch_date, BatchDate, Nullifier, NullifierStore, Record};
use act_core::transport::{
    error_reason, error_status, frame_issuance, read_reply, reply_for, split_issuance, Reply,
};

fn marker(tag: u8) -> Nullifier {
    let mut bytes = [0u8; 32];
    bytes[31] = tag;
    Nullifier { bytes }
}

fn day(yyyymmdd: u32) -> BatchDate {
    BatchDate { yyyymmdd }
}

#[test]
fn a_marker_is_new_once() {
    let mut store = NullifierStore::new();
    assert_eq!(store.len(), 0);
    assert!(!store.is_used(&marker(1)));
    assert!(store.check_and_insert(marker(1), day(20240115)));
    assert!(store.is_used(&marker(1)));
    assert!(!store.check_and_insert(marker(1), day(20240115)));
    assert!(!store.check_and_insert(marker(1), day(20250101)));
    assert_eq!(store.len(), 1);
    assert!(!store.is_used(&marker(2)));
    assert!(store.check_and_insert(marker(2), day(20240115)));
    assert_eq!(store.len(), 2);
}

#[test]
fn markers_differ_in_any_byte() {
    let zero = Nullifier { bytes: [0u8; 32] };
    assert!(zero.same(&Nullifier { bytes: [0u8; 32] }));
    for i in 0..32 {
        let mut bytes = [0u8; 32];
        bytes[i] = 1;
        let other = Nullifier { bytes };
        assert!(!zero.same(&other));
        assert!(other.same(&other));
    }
    let mut store = NullifierStore::new();
    let mut first = [0u8; 32];
    first[0] = 9;
    let mut last = [0u8; 32];
    last[31] = 9;
    store.mark_used(Nullifier { bytes: first }, day(20240115));
    assert!(!store.is_used(&Nullifier { bytes: last }));
    assert!(store.is_used(&Nullifier { bytes: first }));
}

#[test]
fn a_marker_keeps_the_batch_it_was_first_recorded_under() {
    let mut store = NullifierStore::new();
    store.mark_used(marker(1), day(20240115));
    store.mark_used(marker(1), day(20300101));
    let records = store.records();
    assert_eq!(records.len(), 1);
    assert_eq!(records[0].batch, day(20240115));
    assert_eq!(records[0].nullifier.bytes, marker(1).bytes);
}

#[test]
fn pruning_drops_the_markers_of_expired_batches_only() {
    let mut store = NullifierStore::new();
    store.mark_used(marker(1), day(20231231));
    store.mark_used(marker(2), day(20240115));
    store.mark_used(marker(3), day(20240116));
    store.mark_used(marker(4), day(20230101));
    store.mark_used(marker(5), day(20240115));

    assert_eq!(store.prune(day(20000101)), 0);
    assert_eq!(store.len(), 5);
    assert_eq!(store.prune(day(20240115)), 2);
    assert_eq!(store.len(), 3);
    assert!(!store.is_used(&marker(1)));
    assert!(store.is_used(&marker(2)));
    assert!(store.is_used(&marker(3)));
    assert!(!store.is_used(&marker(4)));
    assert!(store.is_used(&marker(5)));
    // again with the same bound: nothing more goes
    assert_eq!(store.prune(day(20240115)), 0);
    // a pruned marker is new again
    assert!(store.check_and_insert(marker(1), day(20240201)));
    assert_eq!(store.prune(day(20240116)), 2);
    assert_eq!(store.prune(day(99991231)), 2);
    assert_eq!(store.len(), 0);
}

#[test]
fn a_store_comes_back_from_its_records() {
    let mut store = NullifierStore::new();
    for tag in 0..20u8 {
        store.mark_used(marker(tag), day(20240100 + tag as u32));
    }
    let records = store.records();
    assert_eq!(records.len(), 20);
    let mut back = NullifierStore::restore(&records);
    assert_eq!(back.len(), 20);
    for tag in 0..20u8 {
        assert!(back.is_used(&marker(tag)));
    }
    assert!(!back.is_used(&marker(20)));
    assert_eq!(back.prune(day(20240110)), 10);

    // records that repeat a marker: the first one counts
    let twice = [
        Record { nullifier: marker(7), batch: day(20240115) },
        Record { nullifier: marker(8), batch: day(20240115) },
        Record { nullifier: marker(7), batch: day(20990101) },
    ];
    let mut store = NullifierStore::restore(&twice);
    assert_eq!(store.len(), 2);
    assert_eq!(store.prune(day(20240116)), 2);
    assert_eq!(NullifierStore::restore(&[]).len(), 0);
}

#[test]
fn a_record_is_written_as_date_and_marker() {
    assert_eq!(RECORD_BYTES, 36);
    assert_eq!(write_ledger(&[]), Vec::<u8>::new());
    let record = Record { nullifier: marker(0xab), batch: day(20240115) };
    // 20240115 is 0x0134d6f3
    let mut expected = vec![0x01, 0x34, 0xd6, 0xf3];
    expected.extend_from_slice(&[0u8; 31]);
    expected.push(0xab);
    assert_eq!(write_ledger(&[record]), expected);

    let all = Record { nullifier: Nullifier { bytes: [0xff; 32] }, batch: day(u32::MAX) };
    assert_eq!(write_ledger(&[all]), vec![0xffu8; 36]);
    let none = Record { nullifier: Nullifier { bytes: [0; 32] }, batch: day(0) };
    assert_eq!(write_ledger(&[none, all]), [vec![0u8; 36], vec![0xffu8; 36]].concat());
    let low = Record { nullifier: marker(1), batch: day(0x0102_0304) };
    assert_eq!(&write_ledger(&[low])[..4], &[1, 2, 3, 4]);
}

#[test]
fn a_ledger_reads_back_as_the_records_it_was_written_from() {
    let records: Vec<Record> = (0..50u8)
        .map(|tag| {
            let mut bytes = [tag; 32];
            bytes[0] = 255 - tag;
            Record { nullifier: Nullifier { bytes }, batch: day(20230000 + 37 * tag as u32) }
        })
        .collect();
    let ledger = write_ledger(&records);
    assert_eq!(ledger.len(), 50 * 36);
    let back = read_ledger(&ledger).expect("the ledger is whole");
    assert_eq!(back.len(), 50);
    for (a, b) in records.iter().zip(back.iter()) {
        assert_eq!(a.batch, b.batch);
        assert_eq!(a.nullifier.bytes, b.nullifier.bytes);
    }
    assert_eq!(write_ledger(&back), ledger);
    assert_eq!(read_ledger(&[]).map(|r| r.len()), Some(0));

    let mut bytes = vec![0x01, 0x34, 0xd6, 0xf3];
    bytes.extend_from_slice(&[7u8; 32]);
    let one = read_ledger(&bytes).expect("one record");
    assert_eq!(one[0].batch, day(20240115));
    assert_eq!(one[0].nullifier.bytes, [7u8; 32]);
}

#[test]
fn a_ledger_cut_short_is_refused() {
    let ledger = write_ledger(&[
        Record { nullifier: marker(1), batch: day(20240115) },
        Record { nullifier: marker(2), batch: day(20240115) },
    ]);
    for cut in [1usize, 35, 37, 71] {
        assert!(read_ledger(&ledger[..cut]).is_none());
    }
    assert!(read_ledger(&ledger[..36]).is_some());
    assert!(read_ledger(&ledger[..72]).is_some());
}

#[test]
fn a_store_outlasts_the_process_as_a_ledger() {
    let mut store = NullifierStore::new();
    store.mark_used(marker(1), day(20231231));
    store.mark_used(marker(2), day(20240115));
    store.mark_used(marker(3), day(20240116));
    let ledger = write_ledger(&store.records());

    let mut back = NullifierStore::restore(&read_ledger(&ledger).expect("the ledger is whole"));
    assert_eq!(back.len(), 3);
    assert!(!back.check_and_insert(marker(2), day(20240301)));
    assert!(back.check_and_insert(marker(4), day(20240301)));
    assert_eq!(back.prune(day(20240116)), 2);
    assert!(back.is_used(&marker(3)));
    assert!(back.is_used(&marker(4)));
    assert_eq!(write_ledger(&back.records()).len(), 72);
}

#[test]
fn a_batch_date_is_read_as_a_number() {
    assert_eq!(parse_batch_date("2024-01-15"), Some(day(20240115)));
    assert_eq!(parse_batch_date("0000-01-01"), Some(day(101)));
    assert_eq!(parse_batch_date("9999-12-31"), Some(day(99991231)));
    assert_eq!(parse_batch_date("1999-02-31"), Some(day(19990231)));
    assert!(parse_batch_date("2024-01-15").unwrap().yyyymmdd < parse_batch_date("2024-01-16").unwrap().yyyymmdd);
    assert!(parse_batch_date("2023-12-31").unwrap().yyyymmdd < parse_batch_date("2024-01-01").unwrap().yyyymmdd);
}

#[test]
fn text_that_is_no_date_is_refused() {
    for text in [
        "",
        "2024-01-1",
        "2024-01-150",
        "2024-1-15",
        "2024/01/15",
        "2024-01/15",
        "20240115",
        "2024-00-15",
        "2024-13-15",
        "2024-01-00",
        "2024-01-32",
        "2024-01-99",
        "202a-01-15",
        "2024-0x-15",
        "2024-01-1 ",
        " 2024-01-15",
        "-024-01-15",
        "２０２４-01-15",
        "2024-01-1５",
        "2024–01–15",
    ] {
        assert_eq!(parse_batch_date(text), None, "{text:?}");
    }
}

#[test]
fn the_amount_goes_first_and_the_request_follows_at_once() {
    assert_eq!(frame_issuance(3, &[0xa4, 0x01, 0x58]), vec![3, 0xa4, 0x01, 0x58]);
    assert_eq!(frame_issuance(0, &[]), vec![0]);
    assert_eq!(frame_issuance(255, &[255]), vec![255, 255]);

    assert_eq!(split_issuance(&[3, 0xa4, 0x01, 0x58]), Some((3, vec![0xa4, 0x01, 0x58])));
    assert_eq!(split_issuance(&[7]), Some((7, vec![])));
    assert_eq!(split_issuance(&[0, 0]), Some((0, vec![0])));
    assert_eq!(split_issuance(&[]), None);

    let request: Vec<u8> = (0..=255u8).collect();
    for amount in [0u8, 1, 3, 128, 255] {
        assert_eq!(split_issuance(&frame_issuance(amount, &request)), Some((amount, request.clone())));
    }
}

#[test]
fn every_failure_travels_under_its_own_status() {
    let cases: [(Error, u16, &str); 12] = [
        (Error::Serialization, 400, "err: malformed request"),
        (Error::Store(StoreError::DoubleSpend), 409, "err: Double-spending attempt detected"),
        (
            Error::Policy(PolicyError::InsufficientBalance),
            402,
            "err: not enough credits available to spend",
        ),
        (
            Error::Policy(PolicyError::AmountExceedsPolicy),
            403,
            "err: requested amount is out of policy",
        ),
        (Error::Protocol(ProtocolError::InvalidProof), 422, "err: proof verification failed"),
        (Error::IssuerFault, 500, "err: issuer unavailable"),
        (Error::Transport, 500, "err: issuer unavailable"),
        (Error::OutOfPhase, 500, "err: issuer unavailable"),
        (Error::Protocol(ProtocolError::InvalidIssuance), 500, "err: issuer unavailable"),
        (Error::Protocol(ProtocolError::InvalidRefund), 500, "err: issuer unavailable"),
        (Error::Policy(PolicyError::InsufficientBalance), 402, "err: not enough credits available to spend"),
        (Error::Store(StoreError::DoubleSpend), 409, "err: Double-spending attempt detected"),
    ];
    for (error, status, reason) in cases {
        assert_eq!(error_status(error), status);
        assert_eq!(error_reason(error), reason);
        let reply = reply_for(Err(error));
        assert_eq!(reply.status, status);
        assert_eq!(reply.body, reason.as_bytes().to_vec());
    }
    let reply = reply_for(Ok(vec![1, 2, 3]));
    assert_eq!((reply.status, reply.body), (200, vec![1, 2, 3]));
    let reply = reply_for(Ok(vec![]));
    assert_eq!((reply.status, reply.body), (200, vec![]));
}

#[test]
fn a_reply_reads_back_as_the_outcome_it_was_made_for() {
    let read = |status: u16, body: &[u8]| read_reply(Reply { status, body: body.to_vec() });
    assert_eq!(read(200, &[9, 9]), Ok(vec![9, 9]));
    assert_eq!(read(200, &[]), Ok(vec![]));
    assert_eq!(read(400, b"err"), Err(Error::Serialization));
    assert_eq!(read(402, b"err"), Err(Error::Policy(PolicyError::InsufficientBalance)));
    assert_eq!(read(403, b"err"), Err(Error::Policy(PolicyError::AmountExceedsPolicy)));
    assert_eq!(read(409, b"err"), Err(Error::Store(StoreError::DoubleSpend)));
    assert_eq!(read(422, b"err"), Err(Error::Protocol(ProtocolError::InvalidProof)));
    for status in [0u16, 1, 100, 199, 201, 204, 301, 401, 404, 408, 500, 502, 503, 65535] {
        assert_eq!(read(status, &[1, 2, 3]), Err(Error::Transport));
    }

    for error in [
        Error::Serialization,
        Error::Store(StoreError::DoubleSpend),
        Error::Policy(PolicyError::InsufficientBalance),
        Error::Policy(PolicyError::AmountExceedsPolicy),
        Error::Protocol(ProtocolError::InvalidProof),
    ] {
        assert_eq!(read_reply(reply_for(Err(error))), Err(error));
    }
    assert_eq!(read_reply(reply_for(Err(Error::IssuerFault))), Err(Error::Transport));
    assert_eq!(read_reply(reply_for(Ok(vec![4, 2]))), Ok(vec![4, 2]));
}

#[test]
fn expected_refusals_are_told_from_faults() {
    assert!(Error::Store(StoreError::DoubleSpend).business_outcome());
    assert!(Error::Policy(PolicyError::InsufficientBalance).business_outcome());
    assert!(Error::Policy(PolicyError::AmountExceedsPolicy).business_outcome());
    for fault in [
        Error::Serialization,
        Error::Transport,
        Error::OutOfPhase,
        Error::IssuerFault,
        Error::Protocol(ProtocolError::InvalidProof),
        Error::Protocol(ProtocolError::InvalidIssuance),
        Error::Protocol(ProtocolError::InvalidRefund),
    ] {
        assert!(!fault.business_outcome());
    }
}

#[test]
fn a_key_goes_to_the_file_named_or_to_the_default() {
    assert_eq!(DEFAULT_KEY_FILE, "issuer_key.txt");
    let args = |list: &[&str]| list.iter().map(|s| s.to_string()).collect::<Vec<String>>();
    assert_eq!(output_file(&args(&[])), "issuer_key.txt");
    assert_eq!(output_file(&args(&["keygen"])), "issuer_key.txt");
    assert_eq!(output_file(&args(&["keygen", "secret/key.hex"])), "secret/key.hex");
    assert_eq!(output_file(&args(&["keygen", "a", "b"])), "a");
    assert_eq!(output_file(&args(&["keygen", ""])), "");
}
