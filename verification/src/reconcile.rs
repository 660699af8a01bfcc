//! Keeping the record of a namespace in step with what the platform
//! reports: whether it is added, refreshed or passed over, and which
//! changes to the store that takes.

use crate::clock::{rfc2822_text, write_rfc2822, Timestamp};
use crate::protocol::{DBItem, RecordView};
use crate::store::{
    apply_ops, find_record, holds, lemma_after_few, lemma_push, lemma_without, op_views,
    record_named, record_views, store_of, without, Collection, Store, StoreOp, StoreOpView,
};
use crate::text::{copy_texts, same_text};
use vstd::prelude::*;

verus! {

/// A namespace of the platform itself, which is never recorded.
pub const MANAGEMENT_NAMESPACE: &'static str = "management-infra";

/// The platform's default namespace, which is never recorded.
pub const DEFAULT_NAMESPACE: &'static str = "default";

/// Who says whether a namespace that is new to a collection is added.
#[derive(Clone, Copy, Debug, PartialEq, Eq, Structural)]
pub enum ConfirmationSource {
    /// Every new namespace is added.
    AutoAccept,
    /// The operator is asked.
    InteractivePrompt,
}

/// How the reconciliation of one namespace ended.
#[derive(Clone, Copy, Debug, PartialEq, Eq, Structural)]
pub enum Verdict {
    /// The namespace is exempt and the tracked collection was asked about:
    /// nothing is done.
    Ignored,
    /// The namespace has no admin, so it is taken for the platform's own.
    NoAdmins,
    /// The namespace is one of the platform's own by name.
    Reserved,
    /// The namespace is new and the operator has not been asked yet: ask,
    /// and reconcile again with the answer.
    NeedsAnswer,
    /// The operator declined to add the namespace.
    Declined,
    /// The present time cannot be written as a discovery date.
    BadClock,
    /// The namespace was new and is added, discovered now.
    Added,
    /// The namespace was known and is refreshed; it keeps its discovery
    /// date.
    Updated,
}

/// How a reconciliation ended, and the changes to the store that it takes,
/// in their order.
#[derive(Debug, Clone, PartialEq, Eq)]
pub struct Reconciliation {
    pub verdict: Verdict,
    pub ops: Vec<StoreOp>,
}

/// Whether a name is one of the platform's own.
pub open spec fn is_reserved(name: Seq<char>) -> bool {
    name == MANAGEMENT_NAMESPACE@ || name == DEFAULT_NAMESPACE@
}

/// Whether a new namespace may be added: always where everything is
/// accepted, else as the operator answered, if asked.
pub open spec fn consent(source: ConfirmationSource, answer: Option<bool>) -> Option<bool> {
    match source {
        ConfirmationSource::AutoAccept => Some(true),
        ConfirmationSource::InteractivePrompt => answer,
    }
}

/// How the reconciliation of a namespace ends.
///
/// An exempt namespace is passed over when the tracked collection is
/// asked about. Then a namespace without admins and one of the platform's
/// own are passed over. A namespace that the collection already holds is
/// refreshed. A new one is added with consent, at a time that can be
/// written down.
pub open spec fn verdict_of(
    collection: Collection,
    target: Seq<RecordView>,
    exempt: Seq<RecordView>,
    info: RecordView,
    source: ConfirmationSource,
    answer: Option<bool>,
    now: Timestamp,
) -> Verdict {
    if is_passed_over(collection, exempt, info.name) {
        Verdict::Ignored
    } else if info.admins.len() == 0 {
        Verdict::NoAdmins
    } else if is_reserved(info.name) {
        Verdict::Reserved
    } else if holds(target, info.name) {
        Verdict::Updated
    } else {
        match consent(source, answer) {
            None => Verdict::NeedsAnswer,
            Some(false) => Verdict::Declined,
            Some(true) => if now.printable() {
                Verdict::Added
            } else {
                Verdict::BadClock
            },
        }
    }
}

/// A record with another discovery date.
pub open spec fn dated(info: RecordView, discovery_date: Seq<char>) -> RecordView {
    RecordView {
        name: info.name,
        admins: info.admins,
        discovery_date,
        last_update: info.last_update,
        cause: info.cause,
    }
}

/// The present time as a discovery date.
pub open spec fn stamp(now: Timestamp) -> Seq<char> {
    rfc2822_text(now.secs as int, now.nanos as int, now.offset as int)
}

/// The changes that a reconciliation takes.
///
/// None where the namespace is passed over. A refresh deletes the record
/// and inserts the new one under the old discovery date. An addition
/// inserts the new record, discovered now; into the exempt collection only
/// after the namespace has left the tracked one.
pub open spec fn ops_of(
    collection: Collection,
    target: Seq<RecordView>,
    exempt: Seq<RecordView>,
    info: RecordView,
    source: ConfirmationSource,
    answer: Option<bool>,
    now: Timestamp,
) -> Seq<StoreOpView> {
    match verdict_of(collection, target, exempt, info, source, answer, now) {
        Verdict::Updated => seq![
            StoreOpView::Delete { collection, name: info.name },
            StoreOpView::Insert {
                collection,
                record: dated(info, record_named(target, info.name).unwrap().discovery_date),
            },
        ],
        Verdict::Added => match collection {
            Collection::Track => seq![
                StoreOpView::Insert { collection, record: dated(info, stamp(now)) },
            ],
            Collection::Ignore => seq![
                StoreOpView::Delete { collection: Collection::Track, name: info.name },
                StoreOpView::Insert { collection, record: dated(info, stamp(now)) },
            ],
        },
        _ => Seq::empty(),
    }
}

/// Whether a namespace is passed over before anything is asked of the
/// platform: it is exempt, and the tracked collection is asked about.
pub open spec fn is_passed_over(
    collection: Collection,
    exempt: Seq<RecordView>,
    name: Seq<char>,
) -> bool {
    collection == Collection::Track && holds(exempt, name)
}

/// Tells whether a namespace is passed over because it is exempt. This
/// can be asked before the platform is, and saves the asking.
pub fn passes_over(collection: Collection, exempt: &Vec<DBItem>, namespace: &str) -> (yes: bool)
    ensures
        yes == is_passed_over(collection, record_views(exempt@), namespace@),
{
    match collection {
        Collection::Track => find_record(exempt, namespace).is_some(),
        Collection::Ignore => false,
    }
}

/// Copies a record under another discovery date.
fn redate(info: &DBItem, discovery_date: String) -> (record: DBItem)
    ensures
        record@ == dated(info@, discovery_date@),
{
    let record = DBItem {
        name: info.name.clone(),
        admins: copy_texts(&info.admins),
        discovery_date,
        last_update: info.last_update.clone(),
        cause: info.cause.clone(),
    };
    record
}

/// Reconciles one namespace with a collection.
///
/// `target` holds the records of the collection that is asked about,
/// `exempt` those of the exempt collection, `info` what the platform
/// reports of the namespace now. When asked for an answer, the caller
/// puts the question to the operator and reconciles once more, handing in
/// what the operator said.
pub fn query_known_namespace(
    collection: Collection,
    target: &Vec<DBItem>,
    exempt: &Vec<DBItem>,
    info: &DBItem,
    source: ConfirmationSource,
    answer: Option<bool>,
    now: Timestamp,
) -> (result: Reconciliation)
    ensures
        result.verdict == verdict_of(
            collection,
            record_views(target@),
            record_views(exempt@),
            info@,
            source,
            answer,
            now,
        ),
        op_views(result.ops@) == ops_of(
            collection,
            record_views(target@),
            record_views(exempt@),
            info@,
            source,
            answer,
            now,
        ),
        collection is Track && holds(record_views(exempt@), info@.name) ==> result.verdict
            is Ignored && result.ops@.len() == 0,
        info@.admins.len() == 0 ==> result.ops@.len() == 0,
        !(result.verdict is Added || result.verdict is Updated) ==> result.ops@.len() == 0,
{
    let mut ops: Vec<StoreOp> = Vec::new();
    assert(op_views(ops@) =~= Seq::<StoreOpView>::empty());
    let name = info.name.as_str();
    let on_track = match collection {
        Collection::Track => true,
        Collection::Ignore => false,
    };
    if passes_over(collection, exempt, name) {
        return Reconciliation { verdict: Verdict::Ignored, ops };
    }
    assert(info@.admins.len() == info.admins@.len());
    if info.admins.len() == 0 {
        return Reconciliation { verdict: Verdict::NoAdmins, ops };
    }
    if same_text(name, MANAGEMENT_NAMESPACE) || same_text(name, DEFAULT_NAMESPACE) {
        return Reconciliation { verdict: Verdict::Reserved, ops };
    }
    match find_record(target, name) {
        Some(at) => {
            let kept = target[at].discovery_date.clone();
            assert(record_views(target@)[at as int] == target@[at as int]@);
            ops.push(StoreOp::Delete { collection, name: info.name.clone() });
            ops.push(StoreOp::Insert { collection, record: redate(info, kept) });
            assert(op_views(ops@) =~= seq![
                StoreOpView::Delete { collection, name: info@.name },
                StoreOpView::Insert { collection, record: dated(info@, kept@) },
            ]);
            Reconciliation { verdict: Verdict::Updated, ops }
        },
        None => {
            let agreed = match source {
                ConfirmationSource::AutoAccept => Some(true),
                ConfirmationSource::InteractivePrompt => answer,
            };
            match agreed {
                None => Reconciliation { verdict: Verdict::NeedsAnswer, ops },
                Some(false) => Reconciliation { verdict: Verdict::Declined, ops },
                Some(true) => {
                    if !now.is_printable() {
                        return Reconciliation { verdict: Verdict::BadClock, ops };
                    }
                    let record = redate(info, write_rfc2822(&now));
                    if !on_track {
                        ops.push(
                            StoreOp::Delete {
                                collection: Collection::Track,
                                name: info.name.clone(),
                            },
                        );
                        ops.push(StoreOp::Insert { collection, record });
                        assert(op_views(ops@) =~= seq![
                            StoreOpView::Delete {
                                collection: Collection::Track,
                                name: info@.name,
                            },
                            StoreOpView::Insert {
                                collection,
                                record: dated(info@, stamp(now)),
                            },
                        ]);
                    } else {
                        ops.push(StoreOp::Insert { collection, record });
                        assert(op_views(ops@) =~= seq![
                            StoreOpView::Insert {
                                collection,
                                record: dated(info@, stamp(now)),
                            },
                        ]);
                    }
                    Reconciliation { verdict: Verdict::Added, ops }
                },
            }
        },
    }
}

/// The store after a namespace has been reconciled with it.
pub open spec fn reconciled(
    store: Store,
    collection: Collection,
    info: RecordView,
    source: ConfirmationSource,
    answer: Option<bool>,
    now: Timestamp,
) -> Store {
    store.after_all(
        ops_of(collection, store.of(collection), store.ignore, info, source, answer, now),
    )
}

/// What a reconciliation leaves in the store, seen from one collection
/// and one namespace.
///
/// No collection gets a second record of a namespace. The records of all
/// other namespaces are as they were. Of the namespace itself, a refresh
/// leaves the new record under the old discovery date in its collection
/// and the other collection as it was; an addition leaves the new record,
/// discovered now, in its collection, none in the tracked collection
/// where the exempt one took it, and the exempt one as it was where the
/// tracked one took it; and where the namespace is passed over, the whole
/// store is as it was.
pub proof fn lemma_reconciled(
    store: Store,
    collection: Collection,
    info: RecordView,
    source: ConfirmationSource,
    answer: Option<bool>,
    now: Timestamp,
    watched: Collection,
    name: Seq<char>,
)
    requires
        store.well_formed(),
    ensures
        reconciled(store, collection, info, source, answer, now).well_formed(),
        name != info.name ==> record_named(
            reconciled(store, collection, info, source, answer, now).of(watched),
            name,
        ) == record_named(store.of(watched), name),
        match verdict_of(
            collection,
            store.of(collection),
            store.ignore,
            info,
            source,
            answer,
            now,
        ) {
            Verdict::Updated => {
                &&& record_named(
                    reconciled(store, collection, info, source, answer, now).of(collection),
                    info.name,
                ) == Some(
                    dated(
                        info,
                        record_named(store.of(collection), info.name).unwrap().discovery_date,
                    ),
                )
                &&& watched != collection ==> reconciled(
                    store,
                    collection,
                    info,
                    source,
                    answer,
                    now,
                ).of(watched) == store.of(watched)
            },
            Verdict::Added => {
                &&& record_named(
                    reconciled(store, collection, info, source, answer, now).of(collection),
                    info.name,
                ) == Some(dated(info, stamp(now)))
                &&& collection is Track ==> reconciled(
                    store,
                    collection,
                    info,
                    source,
                    answer,
                    now,
                ).ignore == store.ignore
                &&& collection is Ignore ==> !holds(
                    reconciled(store, collection, info, source, answer, now).track,
                    info.name,
                )
            },
            _ => reconciled(store, collection, info, source, answer, now) == store,
        },
{
    let target = store.of(collection);
    let ops = ops_of(collection, target, store.ignore, info, source, answer, now);
    let end = reconciled(store, collection, info, source, answer, now);
    match verdict_of(collection, target, store.ignore, info, source, answer, now) {
        Verdict::Updated => {
            let fresh = dated(info, record_named(target, info.name).unwrap().discovery_date);
            lemma_after_few(store, ops[0], ops[1]);
            assert(ops =~= seq![ops[0], ops[1]]);
            lemma_without(target, info.name);
            lemma_push(without(target, info.name), fresh);
            assert(end.of(collection) == without(target, info.name).push(fresh));
        },
        Verdict::Added => {
            let fresh = dated(info, stamp(now));
            match collection {
                Collection::Track => {
                    lemma_after_few(store, ops[0], ops[0]);
                    assert(ops =~= seq![ops[0]]);
                    lemma_push(target, fresh);
                    assert(end == store.with(collection, target.push(fresh)));
                },
                Collection::Ignore => {
                    lemma_after_few(store, ops[0], ops[1]);
                    assert(ops =~= seq![ops[0], ops[1]]);
                    lemma_without(store.track, info.name);
                    lemma_push(store.ignore, fresh);
                    assert(end == Store {
                        track: without(store.track, info.name),
                        ignore: store.ignore.push(fresh),
                    });
                },
            }
        },
        _ => {
            lemma_after_few(store, arbitrary(), arbitrary());
            assert(ops =~= Seq::<StoreOpView>::empty());
            assert(end == store);
        },
    }
}

/// A record keeps its discovery date for as long as it stays in its
/// collection: whatever namespace is reconciled with whatever collection,
/// whatever the platform reports of it and whenever, a record that is in a
/// collection before and after has the same discovery date after as
/// before. No collection gets a second record of a namespace either.
pub proof fn lemma_discovery_date_is_kept(
    store: Store,
    collection: Collection,
    info: RecordView,
    source: ConfirmationSource,
    answer: Option<bool>,
    now: Timestamp,
    watched: Collection,
    name: Seq<char>,
)
    requires
        store.well_formed(),
    ensures
        reconciled(store, collection, info, source, answer, now).well_formed(),
        holds(store.of(watched), name) && holds(
            reconciled(store, collection, info, source, answer, now).of(watched),
            name,
        ) ==> record_named(
            reconciled(store, collection, info, source, answer, now).of(watched),
            name,
        ).unwrap().discovery_date == record_named(store.of(watched), name).unwrap().discovery_date,
{
    lemma_reconciled(store, collection, info, source, answer, now, watched, name);
}

/// Whether no namespace has a record in both collections.
pub open spec fn kept_apart(store: Store) -> bool {
    forall|name: Seq<char>| !(#[trigger] holds(store.track, name) && holds(store.ignore, name))
}

/// A namespace has its record in at most one of the two collections, and
/// reconciling keeps it so: a namespace enters the tracked collection only
/// where it is not exempt, and the exempt one only as it leaves the
/// tracked one.
pub proof fn lemma_collections_stay_apart(
    store: Store,
    collection: Collection,
    info: RecordView,
    source: ConfirmationSource,
    answer: Option<bool>,
    now: Timestamp,
)
    requires
        store.well_formed(),
        kept_apart(store),
    ensures
        kept_apart(reconciled(store, collection, info, source, answer, now)),
{
    let end = reconciled(store, collection, info, source, answer, now);
    assert forall|name: Seq<char>| !(#[trigger] holds(end.track, name) && holds(
        end.ignore,
        name,
    )) by {
        lemma_reconciled(store, collection, info, source, answer, now, Collection::Track, name);
        lemma_reconciled(store, collection, info, source, answer, now, Collection::Ignore, name);
        assert(!(holds(store.track, name) && holds(store.ignore, name)));
    }
}

/// One reconciliation: the collection asked about, what the platform
/// reported, who consented, and when.
pub struct Call {
    pub collection: Collection,
    pub info: RecordView,
    pub source: ConfirmationSource,
    pub answer: Option<bool>,
    pub now: Timestamp,
}

/// The store after a run of reconciliations, made in their order.
pub open spec fn replayed(store: Store, calls: Seq<Call>) -> Store
    decreases calls.len(),
{
    if calls.len() == 0 {
        store
    } else {
        let call = calls.last();
        reconciled(
            replayed(store, calls.drop_last()),
            call.collection,
            call.info,
            call.source,
            call.answer,
            call.now,
        )
    }
}

/// However many reconciliations are run, of whatever namespaces and
/// whatever the platform reports: a record that is in its collection at
/// the start and after every one of them ends with the discovery date it
/// began with.
pub proof fn lemma_discovery_date_survives(
    store: Store,
    calls: Seq<Call>,
    watched: Collection,
    name: Seq<char>,
)
    requires
        store.well_formed(),
        forall|k: int|
            0 <= k <= calls.len() ==> holds(
                #[trigger] replayed(store, calls.take(k)).of(watched),
                name,
            ),
    ensures
        replayed(store, calls).well_formed(),
        record_named(replayed(store, calls).of(watched), name).unwrap().discovery_date
            == record_named(store.of(watched), name).unwrap().discovery_date,
    decreases calls.len(),
{
    if calls.len() > 0 {
        let front = calls.drop_last();
        let call = calls.last();
        assert forall|k: int| 0 <= k <= front.len() implies holds(
            #[trigger] replayed(store, front.take(k)).of(watched),
            name,
        ) by {
            assert(front.take(k) =~= calls.take(k));
        }
        lemma_discovery_date_survives(store, front, watched, name);
        assert(front.take(front.len() as int) =~= front);
        assert(calls.take(calls.len() as int) =~= calls);
        assert(holds(replayed(store, front.take(front.len() as int)).of(watched), name));
        assert(holds(replayed(store, calls.take(calls.len() as int)).of(watched), name));
        lemma_discovery_date_is_kept(
            replayed(store, front),
            call.collection,
            call.info,
            call.source,
            call.answer,
            call.now,
            watched,
            name,
        );
    }
}

/// A run of reconciliations leaves no collection with two records of a
/// namespace, where none had two before, and no namespace in both
/// collections, where none was in both before.
pub proof fn lemma_replayed_well_formed(store: Store, calls: Seq<Call>)
    requires
        store.well_formed(),
    ensures
        replayed(store, calls).well_formed(),
        kept_apart(store) ==> kept_apart(replayed(store, calls)),
    decreases calls.len(),
{
    if calls.len() > 0 {
        let call = calls.last();
        let before = replayed(store, calls.drop_last());
        lemma_replayed_well_formed(store, calls.drop_last());
        lemma_discovery_date_is_kept(
            before,
            call.collection,
            call.info,
            call.source,
            call.answer,
            call.now,
            call.collection,
            call.info.name,
        );
        if kept_apart(store) {
            lemma_collections_stay_apart(
                before,
                call.collection,
                call.info,
                call.source,
                call.answer,
                call.now,
            );
        }
    }
}

/// The reconciliations of a batch: one for each namespace of the listing
/// of which the platform's reports were had, in the order of the listing,
/// all with the same collection, at the same time and without asking.
pub open spec fn batch_calls(
    found: Seq<Option<DBItem>>,
    collection: Collection,
    now: Timestamp,
) -> Seq<Call>
    decreases found.len(),
{
    if found.len() == 0 {
        Seq::empty()
    } else {
        let before = batch_calls(found.drop_last(), collection, now);
        match found.last() {
            Some(info) => before.push(
                Call {
                    collection,
                    info: info@,
                    source: ConfirmationSource::AutoAccept,
                    answer: None,
                    now,
                },
            ),
            None => before,
        }
    }
}

/// Whether some results are those of a batch: each namespace is
/// reconciled with the store as the namespaces before it have left it,
/// and a namespace without reports has no result.
pub open spec fn is_batch(
    results: Seq<Option<Reconciliation>>,
    start: Store,
    collection: Collection,
    found: Seq<Option<DBItem>>,
    now: Timestamp,
) -> bool {
    &&& results.len() == found.len()
    &&& forall|k: int|
        0 <= k < found.len() ==> match (#[trigger] found[k], results[k]) {
            (Some(info), Some(done)) => {
                let store = replayed(start, batch_calls(found.take(k), collection, now));
                &&& done.verdict == verdict_of(
                    collection,
                    store.of(collection),
                    store.ignore,
                    info@,
                    ConfirmationSource::AutoAccept,
                    None,
                    now,
                )
                &&& op_views(done.ops@) == ops_of(
                    collection,
                    store.of(collection),
                    store.ignore,
                    info@,
                    ConfirmationSource::AutoAccept,
                    None,
                    now,
                )
            },
            (None, None) => true,
            _ => false,
        }
}

/// Reconciles every namespace of a listing with a collection at `now`,
/// one after the other, and makes the changes to the records handed in as
/// it goes, so that each namespace meets what the ones before it have
/// left. A namespace of which the platform's reports could not be had or
/// read stands as `None` in the listing and in the results, and the
/// others are reconciled all the same. New namespaces are added without
/// asking.
pub fn reconcile_all(
    collection: Collection,
    track: &mut Vec<DBItem>,
    ignore: &mut Vec<DBItem>,
    found: &Vec<Option<DBItem>>,
    now: Timestamp,
) -> (results: Vec<Option<Reconciliation>>)
    ensures
        is_batch(results@, store_of(old(track)@, old(ignore)@), collection, found@, now),
        store_of(final(track)@, final(ignore)@) == replayed(
            store_of(old(track)@, old(ignore)@),
            batch_calls(found@, collection, now),
        ),
        store_of(old(track)@, old(ignore)@).well_formed() ==> store_of(
            final(track)@,
            final(ignore)@,
        ).well_formed(),
        store_of(old(track)@, old(ignore)@).well_formed() && kept_apart(
            store_of(old(track)@, old(ignore)@),
        ) ==> kept_apart(store_of(final(track)@, final(ignore)@)),
{
    let ghost start = store_of(track@, ignore@);
    let mut results: Vec<Option<Reconciliation>> = Vec::new();
    let mut i: usize = 0;
    assert(found@.take(0) =~= Seq::<Option<DBItem>>::empty());
    while i < found.len()
        invariant
            i <= found@.len(),
            results@.len() == i,
            store_of(track@, ignore@) == replayed(
                start,
                batch_calls(found@.take(i as int), collection, now),
            ),
            forall|k: int|
                0 <= k < i ==> match (#[trigger] found@[k], results@[k]) {
                    (Some(info), Some(done)) => {
                        let store = replayed(
                            start,
                            batch_calls(found@.take(k), collection, now),
                        );
                        &&& done.verdict == verdict_of(
                            collection,
                            store.of(collection),
                            store.ignore,
                            info@,
                            ConfirmationSource::AutoAccept,
                            None,
                            now,
                        )
                        &&& op_views(done.ops@) == ops_of(
                            collection,
                            store.of(collection),
                            store.ignore,
                            info@,
                            ConfirmationSource::AutoAccept,
                            None,
                            now,
                        )
                    },
                    (None, None) => true,
                    _ => false,
                },
        decreases found@.len() - i,
    {
        let ghost before = store_of(track@, ignore@);
        let ghost calls = batch_calls(found@.take(i as int), collection, now);
        proof {
            assert(found@.take(i + 1).drop_last() =~= found@.take(i as int));
            assert(found@.take(i + 1).last() == found@[i as int]);
        }
        let one = match &found[i] {
            Some(info) => {
                let done = match collection {
                    Collection::Track => query_known_namespace(
                        collection,
                        track,
                        ignore,
                        info,
                        ConfirmationSource::AutoAccept,
                        None,
                        now,
                    ),
                    Collection::Ignore => query_known_namespace(
                        collection,
                        ignore,
                        ignore,
                        info,
                        ConfirmationSource::AutoAccept,
                        None,
                        now,
                    ),
                };
                apply_ops(track, ignore, &done.ops);
                proof {
                    let call = Call {
                        collection,
                        info: info@,
                        source: ConfirmationSource::AutoAccept,
                        answer: None,
                        now,
                    };
                    assert(calls.push(call).drop_last() =~= calls);
                    assert(calls.push(call).last() == call);
                }
                Some(done)
            },
            None => None,
        };
        results.push(one);
        i = i + 1;
    }
    proof {
        assert(found@.take(i as int) =~= found@);
        if start.well_formed() {
            lemma_replayed_well_formed(start, batch_calls(found@, collection, now));
        }
    }
    results
}

/// Reconciling an exempt namespace with the tracked collection changes
/// nothing in the store, however often it is done.
pub proof fn lemma_exempt_is_left_alone(
    store: Store,
    info: RecordView,
    source: ConfirmationSource,
    answer: Option<bool>,
    now: Timestamp,
)
    requires
        holds(store.ignore, info.name),
    ensures
        ops_of(Collection::Track, store.track, store.ignore, info, source, answer, now).len() == 0,
        reconciled(store, Collection::Track, info, source, answer, now) == store,
{
    lemma_after_few(store, arbitrary(), arbitrary());
    assert(ops_of(Collection::Track, store.track, store.ignore, info, source, answer, now)
        =~= Seq::<StoreOpView>::empty());
}

/// What a refresh changes and what it keeps: the record of a known
/// namespace carries afterwards what the platform reports now, under the
/// discovery date it had.
pub proof fn lemma_refresh(
    store: Store,
    collection: Collection,
    info: RecordView,
    source: ConfirmationSource,
    answer: Option<bool>,
    now: Timestamp,
)
    requires
        store.well_formed(),
        verdict_of(collection, store.of(collection), store.ignore, info, source, answer, now)
            is Updated,
    ensures
        record_named(
            reconciled(store, collection, info, source, answer, now).of(collection),
            info.name,
        ) == Some(
            dated(info, record_named(store.of(collection), info.name).unwrap().discovery_date),
        ),
{
    lemma_reconciled(store, collection, info, source, answer, now, collection, info.name);
}

} // verus!
