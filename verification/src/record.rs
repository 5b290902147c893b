//! Records of the container model.
//!
//! The engine's container is, at the level this wrapper observes it, a finite
//! list of named members. Each member carries a data source: either bytes
//! already in memory, or a filesystem path the engine reads only when the
//! archive is finalized. A record also remembers whether it was part of the
//! container when the archive was opened (`committed`) or registered since;
//! only committed byte-backed members can be streamed.
//!
//! Spec-level reasoning works on [`RecordModel`] values, the views of
//! [`EntryRecord`], so contracts can quantify over names and payloads as
//! `Seq<char>` and `Seq<u8>`.

use vstd::prelude::*;

verus! {

/// Where a member's bytes come from.
#[derive(Clone, Debug, PartialEq, Eq)]
pub enum EntrySource {
    /// The bytes themselves, registered from memory or loaded from the
    /// container image.
    Bytes(Vec<u8>),
    /// A filesystem path the engine reads lazily at finalize time.
    FilePath(String),
}

/// One member of a container: a unique name plus its data source.
#[derive(Clone, Debug, PartialEq, Eq)]
pub struct EntryRecord {
    pub name: String,
    pub source: EntrySource,
    /// Whether this member was already part of the container when the archive
    /// was opened. Members added since are pending until the next finalize
    /// and cannot be streamed yet.
    pub committed: bool,
}

/// Spec-level view of an [`EntrySource`].
pub enum SourceModel {
    Bytes(Seq<u8>),
    FilePath(Seq<char>),
}

/// Spec-level view of an [`EntryRecord`].
pub struct RecordModel {
    pub name: Seq<char>,
    pub source: SourceModel,
    pub committed: bool,
}

impl View for EntrySource {
    type V = SourceModel;

    open spec fn view(&self) -> SourceModel {
        match self {
            EntrySource::Bytes(b) => SourceModel::Bytes(b@),
            EntrySource::FilePath(p) => SourceModel::FilePath(p@),
        }
    }
}

impl View for EntryRecord {
    type V = RecordModel;

    open spec fn view(&self) -> RecordModel {
        RecordModel { name: self.name@, source: self.source@, committed: self.committed }
    }
}

/// The views of a vector of records, in listing order.
pub open spec fn records_view(rs: Seq<EntryRecord>) -> Seq<RecordModel> {
    rs.map_values(|r: EntryRecord| r@)
}

/// Whether some record in `rs` is named `n`.
pub open spec fn has_name(rs: Seq<RecordModel>, n: Seq<char>) -> bool {
    exists|i: int| 0 <= i < rs.len() && rs[i].name == n
}

/// The index of the first record named `n`, or `-1` if there is none.
pub open spec fn index_of_name(rs: Seq<RecordModel>, n: Seq<char>) -> int
    decreases rs.len(),
{
    if rs.len() == 0 {
        -1
    } else if rs[0].name == n {
        0
    } else {
        let rest = index_of_name(rs.drop_first(), n);
        if rest < 0 {
            -1
        } else {
            rest + 1
        }
    }
}

/// The first record named `n`.
pub open spec fn lookup(rs: Seq<RecordModel>, n: Seq<char>) -> RecordModel {
    rs[index_of_name(rs, n)]
}

/// No two records share a name.
pub open spec fn unique_names(rs: Seq<RecordModel>) -> bool {
    forall|i: int, j: int| 0 <= i < j < rs.len() ==> rs[i].name != rs[j].name
}

/// Every record's name is non-empty.
pub open spec fn nonempty_names(rs: Seq<RecordModel>) -> bool {
    forall|i: int| 0 <= i < rs.len() ==> rs[i].name.len() > 0
}

/// A listing the engine would accept: unique, non-empty names.
pub open spec fn consistent_records(rs: Seq<RecordModel>) -> bool {
    unique_names(rs) && nonempty_names(rs)
}

/// The listing after registering `r`: the policy is overwrite-by-name, so an
/// existing member of the same name is replaced in place and a new name is
/// appended at the end.
pub open spec fn add_record(rs: Seq<RecordModel>, r: RecordModel) -> Seq<RecordModel> {
    if has_name(rs, r.name) {
        rs.update(index_of_name(rs, r.name), r)
    } else {
        rs.push(r)
    }
}

/// The listing after deleting the member named `n` (which must be present).
pub open spec fn delete_record(rs: Seq<RecordModel>, n: Seq<char>) -> Seq<RecordModel> {
    rs.remove(index_of_name(rs, n))
}

/// The listing as it looks right after opening a container image: every
/// member is committed.
pub open spec fn committed_records(rs: Seq<RecordModel>) -> Seq<RecordModel> {
    rs.map_values(
        |r: RecordModel| RecordModel { name: r.name, source: r.source, committed: true },
    )
}

/// `index_of_name` finds a name exactly when `has_name` says one is there,
/// and what it finds is the first occurrence.
pub proof fn lemma_index_of_name(rs: Seq<RecordModel>, n: Seq<char>)
    ensures
        has_name(rs, n) <==> 0 <= index_of_name(rs, n) < rs.len(),
        has_name(rs, n) ==> rs[index_of_name(rs, n)].name == n,
        forall|i: int| 0 <= i < index_of_name(rs, n) ==> rs[i].name != n,
        !has_name(rs, n) ==> index_of_name(rs, n) == -1,
    decreases rs.len(),
{
    if rs.len() == 0 {
    } else if rs[0].name == n {
    } else {
        lemma_index_of_name(rs.drop_first(), n);
        assert forall|i: int| 0 <= i < rs.len() && rs[i].name == n implies i >= 1 by {}
        assert forall|i: int| 0 <= i < index_of_name(rs, n) implies rs[i].name != n by {
            if i >= 1 {
                assert(rs[i] == rs.drop_first()[i - 1]);
            }
        }
        if has_name(rs, n) {
            let w = choose|i: int| 0 <= i < rs.len() && rs[i].name == n;
            assert(rs.drop_first()[w - 1].name == n);
        }
        if has_name(rs.drop_first(), n) {
            let w = choose|i: int| 0 <= i < rs.drop_first().len() && rs.drop_first()[i].name == n;
            assert(rs[w + 1].name == n);
        }
    }
}

/// Committing a listing changes no name, no source and no order, so lookups
/// land on the same member, and a consistent listing stays consistent.
pub proof fn lemma_committed_records_names(rs: Seq<RecordModel>, n: Seq<char>)
    ensures
        committed_records(rs).len() == rs.len(),
        forall|i: int|
            0 <= i < rs.len() ==> (#[trigger] committed_records(rs)[i]) == (RecordModel {
                name: rs[i].name,
                source: rs[i].source,
                committed: true,
            }),
        index_of_name(committed_records(rs), n) == index_of_name(rs, n),
        has_name(committed_records(rs), n) <==> has_name(rs, n),
        consistent_records(rs) ==> consistent_records(committed_records(rs)),
    decreases rs.len(),
{
    let cs = committed_records(rs);
    if rs.len() == 0 {
    } else {
        assert(cs.drop_first() =~= committed_records(rs.drop_first()));
        lemma_committed_records_names(rs.drop_first(), n);
    }
    lemma_index_of_name(rs, n);
    lemma_index_of_name(cs, n);
}

/// Registering a properly named record keeps a consistent listing
/// consistent, and the record is listed afterwards.
pub proof fn lemma_add_record_consistent(rs: Seq<RecordModel>, r: RecordModel)
    requires
        consistent_records(rs),
        r.name.len() > 0,
    ensures
        consistent_records(add_record(rs, r)),
        has_name(add_record(rs, r), r.name),
        lookup(add_record(rs, r), r.name) == r,
        index_of_name(add_record(rs, r), r.name) == (if has_name(rs, r.name) {
            index_of_name(rs, r.name)
        } else {
            rs.len() as int
        }),
{
    lemma_index_of_name(rs, r.name);
    let rs2 = add_record(rs, r);
    if has_name(rs, r.name) {
        let i = index_of_name(rs, r.name);
        assert(rs2 == rs.update(i, r));
        assert forall|p: int, q: int| 0 <= p < q < rs2.len() implies rs2[p].name != rs2[q].name by {
            if p != i && q != i {
                assert(rs2[p] == rs[p] && rs2[q] == rs[q]);
            } else if p == i {
                assert(rs2[q] == rs[q] && rs[q].name != rs[i].name);
            } else {
                assert(rs2[p] == rs[p] && rs[p].name != rs[i].name);
            }
        }
        assert(rs2[i].name == r.name);
        lemma_index_of_name(rs2, r.name);
        assert(index_of_name(rs2, r.name) == i);
    } else {
        assert(rs2 == rs.push(r));
        assert forall|p: int, q: int| 0 <= p < q < rs2.len() implies rs2[p].name != rs2[q].name by {
            if q == rs.len() {
                assert(rs2[p] == rs[p] && rs2[q] == r);
            } else {
                assert(rs2[p] == rs[p] && rs2[q] == rs[q]);
            }
        }
        assert(rs2[rs.len() as int].name == r.name);
        lemma_index_of_name(rs2, r.name);
        assert(index_of_name(rs2, r.name) == rs.len());
    }
}

/// Deleting a listed name keeps the listing consistent, and the name is gone
/// afterwards while every other name stays.
pub proof fn lemma_delete_record_consistent(rs: Seq<RecordModel>, n: Seq<char>)
    requires
        consistent_records(rs),
        has_name(rs, n),
    ensures
        consistent_records(delete_record(rs, n)),
        !has_name(delete_record(rs, n), n),
        forall|m: Seq<char>| m != n ==> (has_name(delete_record(rs, n), m) <==> has_name(rs, m)),
{
    lemma_index_of_name(rs, n);
    let i = index_of_name(rs, n);
    let rs2 = delete_record(rs, n);
    assert forall|p: int| 0 <= p < rs2.len() implies rs2[p] == (if p < i {
        rs[p]
    } else {
        rs[p + 1]
    }) by {}
    assert forall|p: int, q: int| 0 <= p < q < rs2.len() implies rs2[p].name != rs2[q].name by {}
    assert forall|p: int| 0 <= p < rs2.len() implies rs2[p].name != n by {
        if p < i {
            assert(rs2[p] == rs[p] && rs[i].name == n);
        } else {
            assert(rs2[p] == rs[p + 1] && rs[i].name == n);
        }
    }
    assert forall|m: Seq<char>| m != n && has_name(rs, m) implies has_name(rs2, m) by {
        let w = choose|w: int| 0 <= w < rs.len() && rs[w].name == m;
        if w < i {
            assert(rs2[w].name == m);
        } else {
            assert(w != i);
            assert(rs2[w - 1].name == m);
        }
    }
    assert forall|m: Seq<char>| m != n && has_name(rs2, m) implies has_name(rs, m) by {
        let w = choose|w: int| 0 <= w < rs2.len() && rs2[w].name == m;
        if w < i {
            assert(rs[w].name == m);
        } else {
            assert(rs[w + 1].name == m);
        }
    }
}

} // verus!
