//! The two collections of the record store, and what the operations on
//! them do to their contents.

use crate::protocol::{DBItem, RecordView};
use crate::text::{copy_texts, same_text};
use vstd::prelude::*;

verus! {

/// One of the two collections of records.
#[derive(Clone, Copy, Debug, PartialEq, Eq, Structural)]
pub enum Collection {
    /// Namespaces that the policy applies to.
    Track,
    /// Namespaces that the policy leaves alone.
    Ignore,
}

/// The collection that a name stands for: `track` or `graylist` for the
/// tracked one, `ignore` or `whitelist` for the exempt one.
pub open spec fn collection_named(name: Seq<char>) -> Option<Collection> {
    if name == "track"@ || name == "graylist"@ {
        Some(Collection::Track)
    } else if name == "ignore"@ || name == "whitelist"@ {
        Some(Collection::Ignore)
    } else {
        None
    }
}

impl Collection {
    /// The name under which the store keeps the collection.
    pub open spec fn label(self) -> Seq<char> {
        match self {
            Collection::Track => "track"@,
            Collection::Ignore => "ignore"@,
        }
    }

    /// The name under which the store keeps the collection.
    pub fn name(&self) -> (name: &'static str)
        ensures
            name@ == self.label(),
    {
        match self {
            Collection::Track => "track",
            Collection::Ignore => "ignore",
        }
    }

    /// The heading under which the collection is listed.
    pub fn heading(&self) -> (heading: &'static str)
        ensures
            heading@ == (match self {
                Collection::Track => "Tracked projects:"@,
                Collection::Ignore => "Ignored projects:"@,
            }),
    {
        match self {
            Collection::Track => "Tracked projects:",
            Collection::Ignore => "Ignored projects:",
        }
    }

    /// Finds the collection that a name stands for.
    pub fn from_name(name: &str) -> (found: Option<Collection>)
        ensures
            found == collection_named(name@),
    {
        if same_text(name, "track") || same_text(name, "graylist") {
            Some(Collection::Track)
        } else if same_text(name, "ignore") || same_text(name, "whitelist") {
            Some(Collection::Ignore)
        } else {
            None
        }
    }
}

/// One change to the record store.
#[derive(Debug, Clone, PartialEq, Eq)]
pub enum StoreOp {
    /// Add a record to a collection.
    Insert { collection: Collection, record: DBItem },
    /// Take the record of a namespace out of a collection, if it is there.
    Delete { collection: Collection, name: String },
}

/// What a change holds, as sequences of characters.
pub enum StoreOpView {
    Insert { collection: Collection, record: RecordView },
    Delete { collection: Collection, name: Seq<char> },
}

impl View for StoreOp {
    type V = StoreOpView;

    open spec fn view(&self) -> StoreOpView {
        match self {
            StoreOp::Insert { collection, record } => StoreOpView::Insert {
                collection: *collection,
                record: record@,
            },
            StoreOp::Delete { collection, name } => StoreOpView::Delete {
                collection: *collection,
                name: name@,
            },
        }
    }
}

/// The changes of a list.
pub open spec fn op_views(ops: Seq<StoreOp>) -> Seq<StoreOpView> {
    ops.map_values(|op: StoreOp| op@)
}

/// The records of a list.
pub open spec fn record_views(records: Seq<DBItem>) -> Seq<RecordView> {
    records.map_values(|record: DBItem| record@)
}

/// Position of the first record of a namespace, or the length of the list
/// where it has none.
pub open spec fn first_named(records: Seq<RecordView>, name: Seq<char>) -> int
    decreases records.len(),
{
    if records.len() == 0 {
        0
    } else if records[0].name == name {
        0
    } else {
        1 + first_named(records.drop_first(), name)
    }
}

/// Whether a list holds a record of a namespace.
pub open spec fn holds(records: Seq<RecordView>, name: Seq<char>) -> bool {
    first_named(records, name) < records.len()
}

/// The first record of a namespace in a list.
pub open spec fn record_named(records: Seq<RecordView>, name: Seq<char>) -> Option<RecordView> {
    if holds(records, name) {
        Some(records[first_named(records, name)])
    } else {
        None
    }
}

/// Whether no two records of a list share a name.
pub open spec fn unique_names(records: Seq<RecordView>) -> bool {
    forall|i: int, j: int|
        0 <= i < j < records.len() ==> (#[trigger] records[i]).name != (#[trigger] records[j]).name
}

/// A list without the first record of a namespace.
pub open spec fn without(records: Seq<RecordView>, name: Seq<char>) -> Seq<RecordView> {
    if holds(records, name) {
        records.remove(first_named(records, name))
    } else {
        records
    }
}

/// What the two collections of the record store hold.
pub struct Store {
    pub track: Seq<RecordView>,
    pub ignore: Seq<RecordView>,
}

impl Store {
    /// The records of one collection.
    pub open spec fn of(self, collection: Collection) -> Seq<RecordView> {
        match collection {
            Collection::Track => self.track,
            Collection::Ignore => self.ignore,
        }
    }

    /// The store with other records in one collection.
    pub open spec fn with(self, collection: Collection, records: Seq<RecordView>) -> Store {
        match collection {
            Collection::Track => Store { track: records, ignore: self.ignore },
            Collection::Ignore => Store { track: self.track, ignore: records },
        }
    }

    /// Whether each collection holds at most one record of a namespace.
    pub open spec fn well_formed(self) -> bool {
        unique_names(self.track) && unique_names(self.ignore)
    }

    /// The store after one change: an insertion adds the record at the end
    /// of its collection, a deletion takes out the first record of that
    /// name.
    pub open spec fn after(self, op: StoreOpView) -> Store {
        match op {
            StoreOpView::Insert { collection, record } => self.with(
                collection,
                self.of(collection).push(record),
            ),
            StoreOpView::Delete { collection, name } => self.with(
                collection,
                without(self.of(collection), name),
            ),
        }
    }

    /// The store after some changes, made in their order.
    pub open spec fn after_all(self, ops: Seq<StoreOpView>) -> Store
        decreases ops.len(),
    {
        if ops.len() == 0 {
            self
        } else {
            self.after_all(ops.drop_last()).after(ops.last())
        }
    }
}

/// Some changes one after the other: what one change and what two changes
/// leave behind.
pub proof fn lemma_after_few(store: Store, first: StoreOpView, second: StoreOpView)
    ensures
        store.after_all(Seq::empty()) == store,
        store.after_all(seq![first]) == store.after(first),
        store.after_all(seq![first, second]) == store.after(first).after(second),
{
    reveal_with_fuel(Store::after_all, 3);
    assert(seq![first].drop_last() =~= Seq::<StoreOpView>::empty());
    assert(seq![first, second].drop_last() =~= seq![first]);
}

/// [`first_named`] is the position of a record of that name before which
/// no record has the name, or the length of the list where no record has it.
pub proof fn lemma_first_named(records: Seq<RecordView>, name: Seq<char>)
    ensures
        0 <= first_named(records, name) <= records.len(),
        holds(records, name) ==> records[first_named(records, name)].name == name,
        forall|k: int| 0 <= k < first_named(records, name) ==> (#[trigger] records[k]).name != name,
    decreases records.len(),
{
    if records.len() > 0 && records[0].name != name {
        let rest = records.drop_first();
        lemma_first_named(rest, name);
        assert forall|k: int| 0 <= k < first_named(records, name) implies (
        #[trigger] records[k]).name != name by {
            if k > 0 {
                assert(records[k] == rest[k - 1]);
            }
        }
        if holds(records, name) {
            assert(records[first_named(records, name)] == rest[first_named(rest, name)]);
        }
    }
}

/// A position at which a record has the name, and before which none has,
/// is the one that [`first_named`] gives.
pub proof fn lemma_first_named_is(records: Seq<RecordView>, name: Seq<char>, at: int)
    requires
        0 <= at <= records.len(),
        at < records.len() ==> records[at].name == name,
        forall|k: int| 0 <= k < at ==> (#[trigger] records[k]).name != name,
    ensures
        first_named(records, name) == at,
{
    lemma_first_named(records, name);
    let first = first_named(records, name);
    if first < at {
        assert(records[first].name == name);
    } else if first > at {
        assert(records[at].name == name);
    }
}

/// Taking the record of a namespace out of a list without doubles leaves
/// no record of it, keeps every other record, and leaves no doubles.
pub proof fn lemma_without(records: Seq<RecordView>, name: Seq<char>)
    requires
        unique_names(records),
    ensures
        !holds(without(records, name), name),
        unique_names(without(records, name)),
        forall|other: Seq<char>|
            other != name ==> record_named(without(records, name), other) == record_named(
                records,
                other,
            ),
{
    lemma_first_named(records, name);
    let rest = without(records, name);
    if holds(records, name) {
        let at = first_named(records, name);
        assert forall|k: int| 0 <= k < rest.len() implies (#[trigger] rest[k]).name != name by {
            if k < at {
                assert(rest[k] == records[k]);
            } else {
                assert(rest[k] == records[k + 1]);
                assert(records[at].name != records[k + 1].name);
            }
        }
        lemma_first_named_is(rest, name, rest.len() as int);
        assert forall|i: int, j: int| 0 <= i < j < rest.len() implies (#[trigger] rest[i]).name != (
        #[trigger] rest[j]).name by {
            let from_i = if i < at { i } else { i + 1 };
            let from_j = if j < at { j } else { j + 1 };
            assert(rest[i] == records[from_i]);
            assert(rest[j] == records[from_j]);
        }
        assert forall|other: Seq<char>| other != name implies record_named(rest, other)
            == record_named(records, other) by {
            lemma_first_named(records, other);
            let old_at = first_named(records, other);
            if old_at < records.len() {
                let new_at = if old_at < at { old_at } else { old_at - 1 };
                assert(rest[new_at] == records[old_at]);
                assert forall|k: int| 0 <= k < new_at implies (#[trigger] rest[k]).name
                    != other by {
                    let from = if k < at { k } else { k + 1 };
                    assert(rest[k] == records[from]);
                }
                lemma_first_named_is(rest, other, new_at);
            } else {
                assert forall|k: int| 0 <= k < rest.len() implies (#[trigger] rest[k]).name
                    != other by {
                    let from = if k < at { k } else { k + 1 };
                    assert(rest[k] == records[from]);
                }
                lemma_first_named_is(rest, other, rest.len() as int);
            }
        }
    } else {
        lemma_first_named_is(rest, name, rest.len() as int);
    }
}

/// Adding a record to a list that holds none of its name makes it the
/// record of that name, keeps every other record, and leaves no doubles
/// where there were none.
pub proof fn lemma_push(records: Seq<RecordView>, record: RecordView)
    requires
        unique_names(records),
        !holds(records, record.name),
    ensures
        record_named(records.push(record), record.name) == Some(record),
        unique_names(records.push(record)),
        forall|other: Seq<char>|
            other != record.name ==> record_named(records.push(record), other) == record_named(
                records,
                other,
            ),
{
    lemma_first_named(records, record.name);
    let more = records.push(record);
    assert forall|k: int| 0 <= k < records.len() implies (#[trigger] more[k]).name
        != record.name by {
        assert(more[k] == records[k]);
    }
    lemma_first_named_is(more, record.name, records.len() as int);
    assert forall|i: int, j: int| 0 <= i < j < more.len() implies (#[trigger] more[i]).name != (
    #[trigger] more[j]).name by {
        assert(more[i] == records[i]);
        if j < records.len() {
            assert(more[j] == records[j]);
        }
    }
    assert forall|other: Seq<char>| other != record.name implies record_named(more, other)
        == record_named(records, other) by {
        lemma_first_named(records, other);
        let at = first_named(records, other);
        assert forall|k: int| 0 <= k < at implies (#[trigger] more[k]).name != other by {
            assert(more[k] == records[k]);
        }
        if at < records.len() {
            assert(more[at] == records[at]);
            lemma_first_named_is(more, other, at);
        } else {
            lemma_first_named_is(more, other, more.len() as int);
        }
    }
}

/// Looks for the first record of a namespace in a list.
pub fn find_record(records: &Vec<DBItem>, name: &str) -> (found: Option<usize>)
    ensures
        found is Some <==> holds(record_views(records@), name@),
        found matches Some(at) ==> at == first_named(record_views(records@), name@)
            && at < records@.len() && records@[at as int].name@ == name@,
{
    let ghost views = record_views(records@);
    let mut i: usize = 0;
    while i < records.len()
        invariant
            i <= records@.len(),
            views == record_views(records@),
            forall|k: int| 0 <= k < i ==> (#[trigger] views[k]).name != name@,
        decreases records@.len() - i,
    {
        if same_text(records[i].name.as_str(), name) {
            proof {
                assert(views[i as int].name == name@);
                lemma_first_named_is(views, name@, i as int);
            }
            return Some(i);
        }
        assert(views[i as int].name != name@);
        i = i + 1;
    }
    proof {
        lemma_first_named_is(views, name@, views.len() as int);
    }
    None
}

impl DBItem {
    /// A second copy of the record.
    pub fn copy(&self) -> (copy: DBItem)
        ensures
            copy@ == self@,
    {
        DBItem {
            name: self.name.clone(),
            admins: copy_texts(&self.admins),
            discovery_date: self.discovery_date.clone(),
            last_update: self.last_update.clone(),
            cause: self.cause.clone(),
        }
    }
}

impl StoreOp {
    /// A second copy of the change.
    pub fn copy(&self) -> (copy: StoreOp)
        ensures
            copy@ == self@,
    {
        match self {
            StoreOp::Insert { collection, record } => StoreOp::Insert {
                collection: *collection,
                record: record.copy(),
            },
            StoreOp::Delete { collection, name } => StoreOp::Delete {
                collection: *collection,
                name: name.clone(),
            },
        }
    }
}

/// The store that holds these records in its two collections.
pub open spec fn store_of(track: Seq<DBItem>, ignore: Seq<DBItem>) -> Store {
    Store { track: record_views(track), ignore: record_views(ignore) }
}

/// Takes the first record of a namespace out of a list, if there is one.
pub fn remove_record(records: &mut Vec<DBItem>, name: &str)
    ensures
        record_views(final(records)@) == without(record_views(old(records)@), name@),
{
    let ghost before = records@;
    match find_record(records, name) {
        Some(at) => {
            let _gone = records.remove(at);
            assert(record_views(records@) =~= record_views(before).remove(at as int));
        },
        None => {},
    }
}

/// Makes one change to the records of the two collections, as the store
/// would.
pub fn apply_op(track: &mut Vec<DBItem>, ignore: &mut Vec<DBItem>, op: StoreOp)
    ensures
        store_of(final(track)@, final(ignore)@) == store_of(old(track)@, old(ignore)@).after(op@),
{
    let ghost track_before = track@;
    let ghost ignore_before = ignore@;
    match op {
        StoreOp::Insert { collection, record } => {
            match collection {
                Collection::Track => {
                    track.push(record);
                    assert(record_views(track@) =~= record_views(track_before).push(record@));
                },
                Collection::Ignore => {
                    ignore.push(record);
                    assert(record_views(ignore@) =~= record_views(ignore_before).push(record@));
                },
            }
        },
        StoreOp::Delete { collection, name } => {
            match collection {
                Collection::Track => remove_record(track, name.as_str()),
                Collection::Ignore => remove_record(ignore, name.as_str()),
            }
        },
    }
}

/// Makes some changes to the records of the two collections, in their
/// order.
pub fn apply_ops(track: &mut Vec<DBItem>, ignore: &mut Vec<DBItem>, ops: &Vec<StoreOp>)
    ensures
        store_of(final(track)@, final(ignore)@) == store_of(old(track)@, old(ignore)@).after_all(
            op_views(ops@),
        ),
{
    let ghost start = store_of(track@, ignore@);
    let ghost wanted = op_views(ops@);
    let mut i: usize = 0;
    assert(wanted.take(0) =~= Seq::<StoreOpView>::empty());
    while i < ops.len()
        invariant
            i <= ops@.len(),
            wanted == op_views(ops@),
            store_of(track@, ignore@) == start.after_all(wanted.take(i as int)),
        decreases ops@.len() - i,
    {
        proof {
            assert(wanted.take(i + 1).drop_last() =~= wanted.take(i as int));
            assert(wanted.take(i + 1).last() == ops@[i as int]@);
        }
        apply_op(track, ignore, ops[i].copy());
        i = i + 1;
    }
    assert(wanted.take(i as int) =~= wanted);
}

} // verus!
