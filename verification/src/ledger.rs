//! The nullifier store as bytes, for keeping it where it outlasts the
//! process. A record is 36 bytes: the batch date as a big-endian number in
//! four, then the marker in 32. A ledger is records one after the other.

use crate::nullifier::{BatchDate, Nullifier, Record};
use vstd::prelude::*;

verus! {

/// Bytes in one record of a ledger.
pub const RECORD_BYTES: usize = 36;

/// The four bytes of a batch date, highest first.
pub open spec fn date_bytes(date: BatchDate) -> Seq<u8> {
    let n = date.yyyymmdd as int;
    seq![
        (n / 16777216) as u8,
        (n / 65536 % 256) as u8,
        (n / 256 % 256) as u8,
        (n % 256) as u8,
    ]
}

/// The batch date that four bytes spell, highest first.
pub open spec fn date_of_bytes(bytes: Seq<u8>) -> BatchDate {
    BatchDate {
        yyyymmdd: (bytes[0] as int * 16777216 + bytes[1] as int * 65536 + bytes[2] as int * 256
            + bytes[3] as int) as u32,
    }
}

/// The 36 bytes of a record.
pub open spec fn record_bytes(record: Record) -> Seq<u8> {
    date_bytes(record.batch) + record.nullifier@
}

/// The ledger of a sequence of records.
pub open spec fn ledger_of(records: Seq<Record>) -> Seq<u8>
    decreases records.len(),
{
    if records.len() == 0 {
        Seq::empty()
    } else {
        ledger_of(records.drop_last()) + record_bytes(records.last())
    }
}

/// Whether bytes are the ledger of the records: one record for every 36
/// bytes, in order, each spelling its date and its marker.
pub open spec fn is_ledger_of(bytes: Seq<u8>, records: Seq<Record>) -> bool {
    &&& bytes.len() == records.len() * 36
    &&& forall|k: int|
        0 <= k < records.len() ==> {
            &&& (#[trigger] records[k]).batch == date_of_bytes(bytes.subrange(36 * k, 36 * k + 4))
            &&& records[k].nullifier@ == bytes.subrange(36 * k + 4, 36 * k + 36)
        }
}

proof fn lemma_date_round_trip(date: BatchDate)
    ensures
        date_bytes(date).len() == 4,
        date_of_bytes(date_bytes(date)) == date,
{
    let n = date.yyyymmdd as int;
    assert(n == (n / 16777216) * 16777216 + (n / 65536 % 256) * 65536 + (n / 256 % 256) * 256 + n
        % 256);
}

proof fn lemma_ledger_len(records: Seq<Record>)
    ensures
        ledger_of(records).len() == records.len() * 36,
    decreases records.len(),
{
    if records.len() > 0 {
        lemma_ledger_len(records.drop_last());
    }
}

/// A ledger spells the records it was written from, and no others.
pub proof fn law_ledger_spells_its_records(records: Seq<Record>)
    ensures
        is_ledger_of(ledger_of(records), records),
        forall|others: Seq<Record>|
            is_ledger_of(ledger_of(records), others) ==> others.len() == records.len()
                && forall|k: int|
                0 <= k < records.len() ==> (#[trigger] others[k]).batch == records[k].batch
                    && others[k].nullifier@ == records[k].nullifier@,
    decreases records.len(),
{
    lemma_ledger_len(records);
    if records.len() > 0 {
        let front = records.drop_last();
        let last = records.last();
        let bytes = ledger_of(records);
        law_ledger_spells_its_records(front);
        lemma_ledger_len(front);
        lemma_date_round_trip(last.batch);
        assert forall|k: int| 0 <= k < records.len() implies {
            &&& (#[trigger] records[k]).batch == date_of_bytes(bytes.subrange(36 * k, 36 * k + 4))
            &&& records[k].nullifier@ == bytes.subrange(36 * k + 4, 36 * k + 36)
        } by {
            if k < front.len() {
                assert(front[k] == records[k]);
                assert(bytes.subrange(36 * k, 36 * k + 4) =~= ledger_of(front).subrange(
                    36 * k,
                    36 * k + 4,
                ));
                assert(bytes.subrange(36 * k + 4, 36 * k + 36) =~= ledger_of(front).subrange(
                    36 * k + 4,
                    36 * k + 36,
                ));
            } else {
                assert(bytes.subrange(36 * k, 36 * k + 4) =~= date_bytes(last.batch));
                assert(bytes.subrange(36 * k + 4, 36 * k + 36) =~= last.nullifier@);
            }
        }
    }
    assert forall|others: Seq<Record>| is_ledger_of(ledger_of(records), others) implies others.len()
        == records.len() && forall|k: int|
        0 <= k < records.len() ==> (#[trigger] others[k]).batch == records[k].batch
            && others[k].nullifier@ == records[k].nullifier@ by {
        assert forall|k: int| 0 <= k < records.len() implies (#[trigger] others[k]).batch
            == records[k].batch && others[k].nullifier@ == records[k].nullifier@ by {
            assert(records[k].batch == records[k].batch);
        }
    }
}

fn write_date(out: &mut Vec<u8>, date: BatchDate)
    ensures
        final(out)@ == old(out)@ + date_bytes(date),
{
    let n = date.yyyymmdd;
    out.push((n / 16777216) as u8);
    out.push((n / 65536 % 256) as u8);
    out.push((n / 256 % 256) as u8);
    out.push((n % 256) as u8);
    assert(out@ =~= old(out)@ + date_bytes(date));
}

/// Writes records as a ledger.
pub fn write_ledger(records: &[Record]) -> (bytes: Vec<u8>)
    ensures
        bytes@ == ledger_of(records@),
{
    let mut bytes: Vec<u8> = Vec::new();
    let mut i: usize = 0;
    while i < records.len()
        invariant
            i <= records.len(),
            bytes@ == ledger_of(records@.take(i as int)),
        decreases records.len() - i,
    {
        let record = records[i];
        let ghost before = bytes@;
        write_date(&mut bytes, record.batch);
        let mut j: usize = 0;
        while j < 32
            invariant
                j <= 32,
                bytes@ == before + date_bytes(record.batch) + record.nullifier@.take(j as int),
            decreases 32 - j,
        {
            bytes.push(record.nullifier.bytes[j]);
            assert(record.nullifier@.take(j + 1) =~= record.nullifier@.take(j as int).push(
                record.nullifier.bytes@[j as int],
            ));
            j = j + 1;
        }
        proof {
            assert(record.nullifier@.take(32) =~= record.nullifier@);
            assert(records@.take(i + 1).drop_last() =~= records@.take(i as int));
            assert(bytes@ =~= ledger_of(records@.take(i + 1)));
        }
        i = i + 1;
    }
    proof {
        assert(records@.take(i as int) =~= records@);
    }
    bytes
}

/// Reads a ledger. Bytes that are no whole number of records are refused;
/// any other bytes spell exactly one sequence of records.
pub fn read_ledger(bytes: &[u8]) -> (r: Option<Vec<Record>>)
    ensures
        r is Some <==> bytes@.len() % 36 == 0,
        r matches Some(records) ==> is_ledger_of(bytes@, records@),
{
    if bytes.len() % RECORD_BYTES != 0 {
        return None;
    }
    let count = bytes.len() / RECORD_BYTES;
    let mut records: Vec<Record> = Vec::new();
    let mut k: usize = 0;
    while k < count
        invariant
            k <= count,
            count * 36 == bytes@.len(),
            bytes@.len() <= usize::MAX,
            records@.len() == k,
            forall|m: int|
                0 <= m < k ==> {
                    &&& (#[trigger] records@[m]).batch == date_of_bytes(
                        bytes@.subrange(36 * m, 36 * m + 4),
                    )
                    &&& records@[m].nullifier@ == bytes@.subrange(36 * m + 4, 36 * m + 36)
                },
        decreases count - k,
    {
        let at = k * RECORD_BYTES;
        let yyyymmdd = (bytes[at] as u32) * 16777216 + (bytes[at + 1] as u32) * 65536 + (bytes[at
            + 2] as u32) * 256 + (bytes[at + 3] as u32);
        let mut marker = [0u8; 32];
        let mut j: usize = 0;
        while j < 32
            invariant
                j <= 32,
                at + 36 <= bytes@.len(),
                bytes@.len() <= usize::MAX,
                forall|m: int| 0 <= m < j ==> marker@[m] == bytes@[at + 4 + m],
            decreases 32 - j,
        {
            marker[j] = bytes[at + 4 + j];
            j = j + 1;
        }
        let record = Record { nullifier: Nullifier { bytes: marker }, batch: BatchDate { yyyymmdd } };
        proof {
            assert(record.nullifier@ =~= bytes@.subrange(36 * k + 4, 36 * k + 36));
            let four = bytes@.subrange(36 * k, 36 * k + 4);
            assert(four[0] == bytes@[at as int] && four[1] == bytes@[at + 1] && four[2] == bytes@[at
                + 2] && four[3] == bytes@[at + 3]);
        }
        records.push(record);
        k = k + 1;
    }
    Some(records)
}

} // verus!
