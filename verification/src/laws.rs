//! Laws of the archive model.
//!
//! Each proof function here states a property that spans several operations,
//! over the same spec functions their contracts use, so the property is
//! checked once and for all rather than exercised on sample values.

use vstd::prelude::*;
use crate::entry::read_end;
use crate::entry::read_out;
use crate::record::RecordModel;
use crate::record::SourceModel;
use crate::record::has_name;
use crate::record::index_of_name;
use crate::record::lookup;
use crate::record::consistent_records;
use crate::record::committed_records;
use crate::record::add_record;
use crate::record::delete_record;
use crate::record::lemma_index_of_name;
use crate::record::lemma_add_record_consistent;
use crate::record::lemma_committed_records_names;
use crate::record::lemma_delete_record_consistent;

verus! {

/// The total number of bytes a sequence of reads asks for.
pub open spec fn total_len(lens: Seq<int>) -> int
    decreases lens.len(),
{
    if lens.len() == 0 {
        0
    } else {
        lens[0] + total_len(lens.drop_first())
    }
}

/// No read asks for a negative number of bytes.
pub open spec fn nonneg_lens(lens: Seq<int>) -> bool {
    forall|i: int| 0 <= i < lens.len() ==> lens[i] >= 0
}

/// Everything a stream positioned at `pos` over `data` hands back when read
/// with the given chunk sizes, concatenated in order.
pub open spec fn drained(data: Seq<u8>, pos: int, lens: Seq<int>) -> Seq<u8>
    decreases lens.len(),
{
    if lens.len() == 0 {
        Seq::empty()
    } else {
        read_out(data, pos, lens[0]) + drained(
            data,
            read_end(data, pos, lens[0]),
            lens.drop_first(),
        )
    }
}

/// Reading in chunks of any sizes yields exactly the stream's remaining
/// content, cut off where the chunks stop asking: the chunk boundaries do not
/// matter, only the total.
pub proof fn lemma_reads_drain(data: Seq<u8>, pos: int, lens: Seq<int>)
    requires
        0 <= pos <= data.len(),
        nonneg_lens(lens),
    ensures
        drained(data, pos, lens) == data.subrange(
            pos,
            vstd::math::min(pos + total_len(lens), data.len() as int),
        ),
    decreases lens.len(),
{
    let stop = vstd::math::min(pos + total_len(lens), data.len() as int);
    if lens.len() == 0 {
        assert(drained(data, pos, lens) =~= data.subrange(pos, stop));
    } else {
        let e = read_end(data, pos, lens[0]);
        assert(nonneg_lens(lens.drop_first()));
        assert(total_len(lens.drop_first()) >= 0) by {
            lemma_total_len_nonneg(lens.drop_first());
        }
        lemma_reads_drain(data, e, lens.drop_first());
        assert(drained(data, pos, lens) =~= data.subrange(pos, stop));
    }
}

/// A non-negative list of chunk sizes asks for a non-negative total.
pub proof fn lemma_total_len_nonneg(lens: Seq<int>)
    requires
        nonneg_lens(lens),
    ensures
        total_len(lens) >= 0,
    decreases lens.len(),
{
    if lens.len() > 0 {
        assert(nonneg_lens(lens.drop_first()));
        lemma_total_len_nonneg(lens.drop_first());
    }
}

/// Draining a fresh stream — reads whose sizes add up to at least the
/// content's length — reproduces the content byte for byte, and every read
/// after that is empty: the zero-length terminal read.
pub proof fn lemma_full_drain(data: Seq<u8>, lens: Seq<int>)
    requires
        nonneg_lens(lens),
        total_len(lens) >= data.len(),
    ensures
        drained(data, 0, lens) == data,
        forall|more: int| more >= 0 ==> read_out(data, data.len() as int, more) == Seq::<u8>::empty(),
{
    lemma_reads_drain(data, 0, lens);
    assert(drained(data, 0, lens) =~= data);
    assert forall|more: int| more >= 0 implies read_out(data, data.len() as int, more) == Seq::<
        u8,
    >::empty() by {
        assert(read_out(data, data.len() as int, more) =~= Seq::<u8>::empty());
    }
}

/// Overwrite-by-name registration does not disturb any other name.
pub proof fn lemma_add_record_other_names(rs: Seq<RecordModel>, r: RecordModel)
    requires
        consistent_records(rs),
    ensures
        forall|m: Seq<char>|
            m != r.name ==> (has_name(add_record(rs, r), m) <==> has_name(rs, m)),
{
    lemma_index_of_name(rs, r.name);
    let rs2 = add_record(rs, r);
    assert forall|m: Seq<char>| m != r.name && has_name(rs, m) implies has_name(rs2, m) by {
        let w = choose|w: int| 0 <= w < rs.len() && rs[w].name == m;
        assert(rs2[w].name == m);
    }
    assert forall|m: Seq<char>| m != r.name && has_name(rs2, m) implies has_name(rs, m) by {
        let w = choose|w: int| 0 <= w < rs2.len() && rs2[w].name == m;
        if w < rs.len() {
            assert(rs[w].name == m);
        }
    }
}

/// Enumeration reflects mutation: after a member is registered and then
/// deleted, the listing does not include its name — while every other name is
/// listed exactly as before.
pub proof fn lemma_enumeration_reflects_mutation(rs: Seq<RecordModel>, r: RecordModel)
    requires
        consistent_records(rs),
        r.name.len() > 0,
    ensures
        !has_name(delete_record(add_record(rs, r), r.name), r.name),
        forall|m: Seq<char>|
            m != r.name ==> (has_name(delete_record(add_record(rs, r), r.name), m) <==> has_name(
                rs,
                m,
            )),
        !has_name(rs, r.name) ==> delete_record(add_record(rs, r), r.name) == rs,
        has_name(rs, r.name) ==> delete_record(add_record(rs, r), r.name) == delete_record(
            rs,
            r.name,
        ),
{
    lemma_add_record_consistent(rs, r);
    lemma_add_record_other_names(rs, r);
    lemma_delete_record_consistent(add_record(rs, r), r.name);
    lemma_index_of_name(rs, r.name);
    if has_name(rs, r.name) {
        assert(delete_record(add_record(rs, r), r.name) =~= delete_record(rs, r.name));
    } else {
        assert(delete_record(add_record(rs, r), r.name) =~= rs);
    }
}

/// Open/read/close round trip: whatever the archive already lists, a payload
/// registered under a name, finalized into an image, and reopened is listed
/// committed under that name with the same bytes; draining the stream opened
/// over it reproduces the payload exactly, ending in a zero-length read.
///
/// The spec functions here are the ones the operation contracts use:
/// `add_buffer` yields `add_record`, `close` hands the listing back as the
/// image, reopening yields `committed_records` of it (and accepts it, since
/// it stays consistent), `get_entry` opens a stream over `lookup`'s bytes,
/// and each `read` returns a `read_out` chunk.
pub proof fn lemma_open_read_close_round_trip(
    rs: Seq<RecordModel>,
    p: Seq<u8>,
    n: Seq<char>,
    lens: Seq<int>,
)
    requires
        consistent_records(rs),
        p.len() > 0,
        n.len() > 0,
        nonneg_lens(lens),
        total_len(lens) >= p.len(),
    ensures
        ({
            let image = add_record(
                rs,
                RecordModel { name: n, source: SourceModel::Bytes(p), committed: false },
            );
            let reopened = committed_records(image);
            &&& consistent_records(image)
            &&& has_name(reopened, n)
            &&& lookup(reopened, n) == RecordModel {
                name: n,
                source: SourceModel::Bytes(p),
                committed: true,
            }
            &&& drained(p, 0, lens) == p
        }),
{
    let r = RecordModel { name: n, source: SourceModel::Bytes(p), committed: false };
    lemma_add_record_consistent(rs, r);
    let image = add_record(rs, r);
    lemma_committed_records_names(image, n);
    lemma_index_of_name(image, n);
    lemma_full_drain(p, lens);
}

/// Entry independence: an entry's stream is a value of its own, so a read's
/// outcome is a function of that stream alone — no contract of this library
/// lets one entry's read mention another entry. Draining two entries opened
/// over distinct members therefore reproduces each member's content whatever
/// the interleaving; the chunk lists here are each entry's own reads, in
/// whatever order they were interleaved.
pub proof fn lemma_entry_independence(
    d1: Seq<u8>,
    lens1: Seq<int>,
    d2: Seq<u8>,
    lens2: Seq<int>,
)
    requires
        nonneg_lens(lens1),
        total_len(lens1) >= d1.len(),
        nonneg_lens(lens2),
        total_len(lens2) >= d2.len(),
    ensures
        drained(d1, 0, lens1) == d1,
        drained(d2, 0, lens2) == d2,
{
    lemma_full_drain(d1, lens1);
    lemma_full_drain(d2, lens2);
}

} // verus!
