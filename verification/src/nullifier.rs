//! The issuer's record of redeemed spend markers. Every spend passes through
//! [`NullifierStore::check_and_insert`], which is the one point where
//! concurrent spends must be taken in turn: it needs the store exclusively.

use vstd::prelude::*;
use vstd::string::StrSliceExecFns;

verus! {

/// A spend marker: the 32 bytes of the scalar that a spend proof reveals.
#[derive(Clone, Copy, Debug)]
pub struct Nullifier {
    pub bytes: [u8; 32],
}

impl View for Nullifier {
    type V = Seq<u8>;

    open spec fn view(&self) -> Seq<u8> {
        self.bytes@
    }
}

impl Nullifier {
    /// Whether two markers are the same 32 bytes.
    pub fn same(&self, other: &Nullifier) -> (r: bool)
        ensures
            r == (self@ == other@),
    {
        let mut i: usize = 0;
        while i < 32
            invariant
                i <= 32,
                forall|j: int| 0 <= j < i ==> self.bytes@[j] == other.bytes@[j],
            decreases 32 - i,
        {
            if self.bytes[i] != other.bytes[i] {
                return false;
            }
            i = i + 1;
        }
        assert(self@ =~= other@);
        true
    }
}

/// The day a batch of credentials was opened, as the number `yyyymmdd`.
/// Later days are larger numbers.
#[derive(Clone, Copy, Debug, PartialEq, Eq, Structural)]
pub struct BatchDate {
    pub yyyymmdd: u32,
}

/// The value of a decimal digit, or -1 for any other character.
pub open spec fn digit_value(c: char) -> int {
    if '0' <= c <= '9' {
        c as int - '0' as int
    } else {
        -1
    }
}

/// The number that two characters spell in decimal, or a negative number
/// where one of them is no digit.
pub open spec fn two_digits(a: char, b: char) -> int {
    if digit_value(a) >= 0 && digit_value(b) >= 0 {
        digit_value(a) * 10 + digit_value(b)
    } else {
        -1
    }
}

/// What a batch date spells: `YYYY-MM-DD`, with a month from 01 to 12 and a
/// day from 01 to 31. Anything else spells no date.
pub open spec fn batch_date_of(text: Seq<char>) -> Option<BatchDate> {
    if text.len() == 10 && text[4] == '-' && text[7] == '-' {
        let century = two_digits(text[0], text[1]);
        let year = two_digits(text[2], text[3]);
        let month = two_digits(text[5], text[6]);
        let day = two_digits(text[8], text[9]);
        if century >= 0 && year >= 0 && 1 <= month <= 12 && 1 <= day <= 31 {
            Some(BatchDate { yyyymmdd: (century * 1000000 + year * 10000 + month * 100 + day) as u32 })
        } else {
            None
        }
    } else {
        None
    }
}

fn digit(b: u8) -> (r: Option<u32>)
    ensures
        match r {
            Some(v) => v == digit_value(b as char) && v <= 9,
            None => digit_value(b as char) < 0,
        },
{
    if 48 <= b && b <= 57 {
        Some((b - 48) as u32)
    } else {
        None
    }
}

fn pair(a: u8, b: u8) -> (r: Option<u32>)
    ensures
        match r {
            Some(v) => v == two_digits(a as char, b as char) && v <= 99,
            None => two_digits(a as char, b as char) < 0,
        },
{
    match (digit(a), digit(b)) {
        (Some(x), Some(y)) => Some(x * 10 + y),
        _ => None,
    }
}

/// Reads the batch date of a deployment.
pub fn parse_batch_date(text: &str) -> (r: Option<BatchDate>)
    ensures
        r == batch_date_of(text@),
{
    if !text.is_ascii() {
        proof {
            // a date is ten characters from `0-9` and `-`, all of them ASCII
            if batch_date_of(text@) is Some {
                assert forall|i: int| 0 <= i < text@.len() implies '\0' <= #[trigger] text@[i]
                    <= '\u{7f}' by {
                    assert(digit_value(text@[i]) >= 0 || text@[i] == '-');
                }
            }
        }
        return None;
    }
    if text.unicode_len() != 10 {
        return None;
    }
    let c = |i: usize| -> (b: u8)
        requires
            i < 10,
        ensures
            b as char == text@[i as int],
        { text.get_ascii(i) };
    if c(4) != 45 || c(7) != 45 {
        return None;
    }
    let century = pair(c(0), c(1));
    let year = pair(c(2), c(3));
    let month = pair(c(5), c(6));
    let day = pair(c(8), c(9));
    match (century, year, month, day) {
        (Some(cc), Some(yy), Some(mm), Some(dd)) => {
            if 1 <= mm && mm <= 12 && 1 <= dd && dd <= 31 {
                Some(BatchDate { yyyymmdd: cc * 1000000 + yy * 10000 + mm * 100 + dd })
            } else {
                None
            }
        },
        _ => None,
    }
}

/// One redeemed spend marker, with the batch it was redeemed under.
#[derive(Clone, Copy, Debug)]
pub struct Record {
    pub nullifier: Nullifier,
    pub batch: BatchDate,
}

/// The map that a sequence of records stands for: each marker with its batch.
pub open spec fn records_map(records: Seq<Record>) -> Map<Seq<u8>, BatchDate>
    decreases records.len(),
{
    if records.len() == 0 {
        Map::empty()
    } else {
        records_map(records.drop_last()).insert(records.last().nullifier@, records.last().batch)
    }
}

/// No marker occurs in two records.
pub open spec fn distinct_markers(records: Seq<Record>) -> bool {
    forall|i: int, j: int|
        0 <= i < j < records.len() ==> (#[trigger] records[i]).nullifier@ != (
        #[trigger] records[j]).nullifier@
}

/// What is left of a store when every marker of a batch opened before
/// `oldest_kept` is dropped.
pub open spec fn pruned(store: Map<Seq<u8>, BatchDate>, oldest_kept: BatchDate) -> Map<
    Seq<u8>,
    BatchDate,
> {
    Map::new(
        |n: Seq<u8>| store.contains_key(n) && store[n].yyyymmdd >= oldest_kept.yyyymmdd,
        |n: Seq<u8>| store[n],
    )
}

/// The store that comes of recording the records one after the other: a
/// marker that occurs again keeps the batch of its first record.
pub open spec fn marked(records: Seq<Record>) -> Map<Seq<u8>, BatchDate>
    decreases records.len(),
{
    if records.len() == 0 {
        Map::empty()
    } else {
        let before = marked(records.drop_last());
        if before.contains_key(records.last().nullifier@) {
            before
        } else {
            before.insert(records.last().nullifier@, records.last().batch)
        }
    }
}

/// A marker is in the map of a sequence exactly if some record carries it,
/// and then under that record's batch where markers are distinct.
proof fn lemma_records_map(records: Seq<Record>)
    ensures
        forall|n: Seq<u8>| #[trigger]
            records_map(records).contains_key(n) <==> exists|i: int|
                0 <= i < records.len() && (#[trigger] records[i]).nullifier@ == n,
        distinct_markers(records) ==> forall|i: int|
            0 <= i < records.len() ==> records_map(records)[(#[trigger] records[i]).nullifier@]
                == records[i].batch,
        records_map(records).dom().finite(),
        distinct_markers(records) ==> records_map(records).dom().len() == records.len(),
    decreases records.len(),
{
    if records.len() > 0 {
        let front = records.drop_last();
        let last = records.last();
        lemma_records_map(front);
        assert forall|n: Seq<u8>| #[trigger]
            records_map(records).contains_key(n) implies exists|i: int|
            0 <= i < records.len() && (#[trigger] records[i]).nullifier@ == n by {
            if n == last.nullifier@ {
                assert(records[records.len() - 1].nullifier@ == n);
            } else {
                assert(records_map(front).contains_key(n));
                let i = choose|i: int| 0 <= i < front.len() && (#[trigger] front[i]).nullifier@ == n;
                assert(records[i].nullifier@ == n);
            }
        }
        assert forall|n: Seq<u8>|
            (exists|i: int|
                0 <= i < records.len() && (#[trigger] records[i]).nullifier@
                    == n) implies #[trigger] records_map(records).contains_key(n) by {
            let i = choose|i: int| 0 <= i < records.len() && (#[trigger] records[i]).nullifier@ == n;
            if i < front.len() {
                assert(front[i].nullifier@ == n);
            }
        }
        if distinct_markers(records) {
            assert(distinct_markers(front)) by {
                assert forall|i: int, j: int| 0 <= i < j < front.len() implies (
                #[trigger] front[i]).nullifier@ != (#[trigger] front[j]).nullifier@ by {
                    assert(records[i].nullifier@ != records[j].nullifier@);
                }
            }
            assert(!records_map(front).contains_key(last.nullifier@)) by {
                if records_map(front).contains_key(last.nullifier@) {
                    let i = choose|i: int|
                        0 <= i < front.len() && (#[trigger] front[i]).nullifier@ == last.nullifier@;
                    assert(records[i].nullifier@ != records[records.len() - 1].nullifier@);
                }
            }
            assert forall|i: int| 0 <= i < records.len() implies records_map(records)[(
            #[trigger] records[i]).nullifier@] == records[i].batch by {
                if i < front.len() {
                    assert(front[i].nullifier@ == records[i].nullifier@);
                    assert(records[i].nullifier@ != records[records.len() - 1].nullifier@);
                }
            }
        }
    }
}

/// The set of redeemed spend markers, each under the batch it was redeemed
/// in. No marker is ever held twice. The store lives in memory and is
/// searched by scanning; [`NullifierStore::records`] and
/// [`NullifierStore::restore`] carry it to and from where it outlasts the
/// process.
pub struct NullifierStore {
    records: Vec<Record>,
}

impl View for NullifierStore {
    type V = Map<Seq<u8>, BatchDate>;

    closed spec fn view(&self) -> Map<Seq<u8>, BatchDate> {
        records_map(self.records@)
    }
}

impl NullifierStore {
    /// The store's invariant: no marker is held twice.
    pub closed spec fn wf(&self) -> bool {
        distinct_markers(self.records@)
    }

    /// A store that holds no marker.
    pub fn new() -> (store: NullifierStore)
        ensures
            store.wf(),
            store@ == Map::<Seq<u8>, BatchDate>::empty(),
    {
        NullifierStore { records: Vec::new() }
    }

    /// How many markers the store holds.
    pub fn len(&self) -> (n: usize)
        requires
            self.wf(),
        ensures
            self@.dom().finite(),
            n == self@.dom().len(),
    {
        proof {
            lemma_records_map(self.records@);
        }
        self.records.len()
    }

    /// Whether the marker was recorded before.
    pub fn is_used(&self, nullifier: &Nullifier) -> (used: bool)
        ensures
            used == self@.contains_key(nullifier@),
    {
        let mut i: usize = 0;
        while i < self.records.len()
            invariant
                i <= self.records.len(),
                forall|j: int| 0 <= j < i ==> (#[trigger] self.records@[j]).nullifier@ != nullifier@,
            decreases self.records.len() - i,
        {
            if self.records[i].nullifier.same(nullifier) {
                proof {
                    lemma_records_map(self.records@);
                }
                return true;
            }
            i = i + 1;
        }
        proof {
            lemma_records_map(self.records@);
        }
        false
    }

    /// Records the marker under its batch, unless it is held already: a
    /// marker keeps the batch it was first recorded under.
    pub fn mark_used(&mut self, nullifier: Nullifier, batch: BatchDate)
        requires
            old(self).wf(),
        ensures
            final(self).wf(),
            final(self)@ == if old(self)@.contains_key(nullifier@) {
                old(self)@
            } else {
                old(self)@.insert(nullifier@, batch)
            },
    {
        let _ = self.check_and_insert(nullifier, batch);
    }

    /// Tests for the marker and records it in one step. Returns whether it
    /// was newly recorded; a marker that was held before changes nothing.
    pub fn check_and_insert(&mut self, nullifier: Nullifier, batch: BatchDate) -> (fresh: bool)
        requires
            old(self).wf(),
        ensures
            final(self).wf(),
            fresh == !old(self)@.contains_key(nullifier@),
            fresh ==> final(self)@ == old(self)@.insert(nullifier@, batch),
            !fresh ==> final(self)@ == old(self)@,
    {
        if self.is_used(&nullifier) {
            return false;
        }
        proof {
            lemma_records_map(self.records@);
            let next = self.records@.push(Record { nullifier, batch });
            assert(next.drop_last() =~= self.records@);
            assert(distinct_markers(next)) by {
                assert forall|i: int, j: int| 0 <= i < j < next.len() implies (
                #[trigger] next[i]).nullifier@ != (#[trigger] next[j]).nullifier@ by {
                    if j < self.records@.len() {
                        assert(self.records@[i].nullifier@ != self.records@[j].nullifier@);
                    } else {
                        assert(self.records@[i].nullifier@ != nullifier@);
                    }
                }
            }
        }
        self.records.push(Record { nullifier, batch });
        true
    }

    /// What the store holds, one record for each marker, to be put away
    /// where it outlasts the process.
    pub fn records(&self) -> (records: Vec<Record>)
        requires
            self.wf(),
        ensures
            distinct_markers(records@),
            records_map(records@) == self@,
    {
        vstd::slice::slice_to_vec(self.records.as_slice())
    }

    /// The store that records were put away from. Records are taken in
    /// order; a marker that occurs again is skipped.
    pub fn restore(records: &[Record]) -> (store: NullifierStore)
        ensures
            store.wf(),
            store@ == marked(records@),
    {
        let mut store = NullifierStore::new();
        let mut i: usize = 0;
        while i < records.len()
            invariant
                i <= records.len(),
                store.wf(),
                store@ == marked(records@.take(i as int)),
            decreases records.len() - i,
        {
            proof {
                assert(records@.take(i + 1).drop_last() =~= records@.take(i as int));
            }
            store.mark_used(records[i].nullifier, records[i].batch);
            i = i + 1;
        }
        proof {
            assert(records@.take(i as int) =~= records@);
        }
        store
    }

    /// Drops every marker of a batch opened before `oldest_kept`, and keeps
    /// the others as they are. Returns how many were dropped.
    pub fn prune(&mut self, oldest_kept: BatchDate) -> (dropped: usize)
        requires
            old(self).wf(),
        ensures
            final(self).wf(),
            final(self)@ == pruned(old(self)@, oldest_kept),
            dropped == old(self)@.dom().len() - final(self)@.dom().len(),
    {
        let mut kept: Vec<Record> = Vec::new();
        let mut i: usize = 0;
        while i < self.records.len()
            invariant
                i <= self.records.len(),
                kept.len() <= i,
                distinct_markers(self.records@),
                distinct_markers(kept@),
                records_map(kept@) == pruned(records_map(self.records@.take(i as int)), oldest_kept),
            decreases self.records.len() - i,
        {
            let record = self.records[i];
            proof {
                let before = self.records@.take(i as int);
                let upto = self.records@.take(i + 1);
                assert(upto.drop_last() =~= before);
                assert(upto.last() == record);
                lemma_records_map(before);
                assert(!records_map(before).contains_key(record.nullifier@)) by {
                    if records_map(before).contains_key(record.nullifier@) {
                        let k = choose|k: int|
                            0 <= k < before.len() && (#[trigger] before[k]).nullifier@
                                == record.nullifier@;
                        assert(self.records@[k].nullifier@ != self.records@[i as int].nullifier@);
                    }
                }
                if record.batch.yyyymmdd >= oldest_kept.yyyymmdd {
                    let next = kept@.push(record);
                    assert(next.drop_last() =~= kept@);
                    assert(records_map(next) =~= pruned(records_map(upto), oldest_kept));
                    lemma_records_map(kept@);
                    assert(distinct_markers(next)) by {
                        assert forall|a: int, b: int| 0 <= a < b < next.len() implies (
                        #[trigger] next[a]).nullifier@ != (#[trigger] next[b]).nullifier@ by {
                            if b < kept@.len() {
                                assert(kept@[a].nullifier@ != kept@[b].nullifier@);
                            } else {
                                assert(records_map(kept@).contains_key(kept@[a].nullifier@));
                            }
                        }
                    }
                } else {
                    assert(records_map(kept@) =~= pruned(records_map(upto), oldest_kept));
                }
            }
            if record.batch.yyyymmdd >= oldest_kept.yyyymmdd {
                kept.push(record);
            }
            i = i + 1;
        }
        proof {
            assert(self.records@.take(i as int) =~= self.records@);
            lemma_records_map(self.records@);
            lemma_records_map(kept@);
        }
        let dropped = self.records.len() - kept.len();
        self.records = kept;
        dropped
    }
}

/// Restoring what was put away gives the store back: for records with
/// distinct markers, as a store hands them out, recording them one after
/// the other yields the map they stand for.
pub proof fn law_restore_undoes_records(records: Seq<Record>)
    requires
        distinct_markers(records),
    ensures
        marked(records) == records_map(records),
    decreases records.len(),
{
    if records.len() > 0 {
        let front = records.drop_last();
        assert(distinct_markers(front)) by {
            assert forall|i: int, j: int| 0 <= i < j < front.len() implies (
            #[trigger] front[i]).nullifier@ != (#[trigger] front[j]).nullifier@ by {
                assert(records[i].nullifier@ != records[j].nullifier@);
            }
        }
        law_restore_undoes_records(front);
        lemma_records_map(front);
        if records_map(front).contains_key(records.last().nullifier@) {
            let i = choose|i: int|
                0 <= i < front.len() && (#[trigger] front[i]).nullifier@ == records.last().nullifier@;
            assert(records[i].nullifier@ != records[records.len() - 1].nullifier@);
        }
    }
}

/// Pruning keeps exactly the markers of the batches that are still valid,
/// each under its batch, and pruning again with the same bound changes
/// nothing.
pub proof fn law_prune_keeps_the_valid(
    store: Map<Seq<u8>, BatchDate>,
    oldest_kept: BatchDate,
    marker: Seq<u8>,
)
    ensures
        pruned(store, oldest_kept).contains_key(marker) <==> store.contains_key(marker)
            && store[marker].yyyymmdd >= oldest_kept.yyyymmdd,
        pruned(store, oldest_kept).contains_key(marker) ==> pruned(store, oldest_kept)[marker]
            == store[marker],
        pruned(pruned(store, oldest_kept), oldest_kept) == pruned(store, oldest_kept),
{
    assert(pruned(pruned(store, oldest_kept), oldest_kept) =~= pruned(store, oldest_kept));
}

} // verus!
