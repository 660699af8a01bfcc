//! What each tier calls for: the steps to take against one namespace, in
//! their order, and the line that reports them.

use crate::api::{
    deployments_address, deployments_call, project_address, project_call, scale_address,
    scale_body, scale_call, scale_document,
};
use crate::clock::Age;
use crate::notice::{mail_views, mails_about, notifications, Mail, MailView, Postbox, PostboxView};
use crate::protocol::{texts, DBItem, DeploymentItem, DeploymentResponse, RecordView};
use crate::store::Collection;
use crate::text::copy_texts;
use crate::tier::Tier;
use vstd::prelude::*;

verus! {

/// Where the platform is reached and how mail is sent.
#[derive(Debug, Clone, PartialEq, Eq)]
pub struct Settings {
    /// Host of the platform's API.
    pub endpoint: String,
    /// Sender, domain and the two mail switches.
    pub post: Postbox,
    /// Account of the operator who receives the report.
    pub root_address: String,
}

/// What the settings hold, as sequences of characters.
pub struct SettingsView {
    pub endpoint: Seq<char>,
    pub post: PostboxView,
    pub root_address: Seq<char>,
}

impl View for Settings {
    type V = SettingsView;

    open spec fn view(&self) -> SettingsView {
        SettingsView {
            endpoint: self.endpoint@,
            post: self.post@,
            root_address: self.root_address@,
        }
    }
}

/// One step that changes something outside: on the platform, in the record
/// store, on disk or in somebody's mailbox.
#[derive(Debug, Clone, PartialEq, Eq)]
pub enum Action {
    /// Write an offline archive of the namespace. A failure is noted and
    /// the steps after it are taken all the same.
    Export { namespace: String },
    /// Ask the platform to delete the project at this address.
    DeleteProject { call: String },
    /// Take the namespace's record out of a collection.
    RemoveRecord { collection: Collection, namespace: String },
    /// Read the namespace's deployments at this address and scale down
    /// each that [`scale_requests`] names for the reply.
    SpinDown { namespace: String, call: String },
    /// Send this document to this address, to scale one deployment to zero.
    Scale { call: String, body: String },
    /// Send a message to an admin.
    Notify { mail: Mail },
}

/// What a step holds, as sequences of characters.
pub enum ActionView {
    Export { namespace: Seq<char> },
    DeleteProject { call: Seq<char> },
    RemoveRecord { collection: Collection, namespace: Seq<char> },
    SpinDown { namespace: Seq<char>, call: Seq<char> },
    Scale { call: Seq<char>, body: Seq<char> },
    Notify { mail: MailView },
}

impl View for Action {
    type V = ActionView;

    open spec fn view(&self) -> ActionView {
        match self {
            Action::Export { namespace } => ActionView::Export { namespace: namespace@ },
            Action::DeleteProject { call } => ActionView::DeleteProject { call: call@ },
            Action::RemoveRecord { collection, namespace } => ActionView::RemoveRecord {
                collection: *collection,
                namespace: namespace@,
            },
            Action::SpinDown { namespace, call } => ActionView::SpinDown {
                namespace: namespace@,
                call: call@,
            },
            Action::Scale { call, body } => ActionView::Scale { call: call@, body: body@ },
            Action::Notify { mail } => ActionView::Notify { mail: mail@ },
        }
    }
}

/// The steps of a list.
pub open spec fn action_views(actions: Seq<Action>) -> Seq<ActionView> {
    actions.map_values(|a: Action| a@)
}

/// One line of the report: a namespace, its admins, its idle time in whole
/// weeks and the tier whose action it met.
#[derive(Debug, Clone, PartialEq, Eq)]
pub struct ReportRow {
    pub name: String,
    pub admins: Vec<String>,
    pub age_weeks: i64,
    pub action: Tier,
}

/// What a line of the report holds.
pub struct RowView {
    pub name: Seq<char>,
    pub admins: Seq<Seq<char>>,
    pub age_weeks: int,
    pub action: Tier,
}

impl View for ReportRow {
    type V = RowView;

    open spec fn view(&self) -> RowView {
        RowView {
            name: self.name@,
            admins: texts(self.admins@),
            age_weeks: self.age_weeks as int,
            action: self.action,
        }
    }
}

/// What the policy decided for one namespace: the steps to take, in their
/// order, and the line for the report, if one is due.
#[derive(Debug, Clone, PartialEq, Eq)]
pub struct ExecutionOutcome {
    pub actions: Vec<Action>,
    pub row: Option<ReportRow>,
}

/// The line of an outcome, if it has one.
pub open spec fn row_view(row: Option<ReportRow>) -> Option<RowView> {
    match row {
        Some(r) => Some(r@),
        None => None,
    }
}

/// The messages of a list as steps.
pub open spec fn as_notices(mails: Seq<MailView>) -> Seq<ActionView> {
    mails.map_values(|m: MailView| ActionView::Notify { mail: m })
}

/// The messages that go out about a record at a tier: none where mail is
/// switched off.
pub open spec fn notices(record: RecordView, tier: Tier, post: PostboxView) -> Seq<ActionView> {
    if post.send_mail {
        as_notices(mails_about(record.admins, tier, record, post))
    } else {
        Seq::empty()
    }
}

/// The steps that a tier calls for when they are really taken.
///
/// A fresh namespace calls for nothing and a nudge for the messages alone.
/// A spin-down scales the workloads first and writes afterwards. An archive
/// exports, deletes the project, forgets the record and writes last.
pub open spec fn steps_for(
    record: RecordView,
    tier: Tier,
    collection: Collection,
    settings: SettingsView,
) -> Seq<ActionView> {
    match tier {
        Tier::Fresh => Seq::empty(),
        Tier::Nudge => notices(record, tier, settings.post),
        Tier::SpinDown => seq![
            ActionView::SpinDown {
                namespace: record.name,
                call: deployments_call(settings.endpoint, record.name),
            },
        ] + notices(record, tier, settings.post),
        Tier::Archive => seq![
            ActionView::Export { namespace: record.name },
            ActionView::DeleteProject { call: project_call(settings.endpoint, record.name) },
            ActionView::RemoveRecord { collection, namespace: record.name },
        ] + notices(record, tier, settings.post),
    }
}

/// The steps of an outcome: those of [`steps_for`], and none in a dry run.
pub open spec fn actions_of(
    record: RecordView,
    tier: Tier,
    collection: Collection,
    dry_run: bool,
    settings: SettingsView,
) -> Seq<ActionView> {
    if dry_run {
        Seq::empty()
    } else {
        steps_for(record, tier, collection, settings)
    }
}

/// The line of an outcome: one for every tier but the fresh one, where a
/// report is asked for.
pub open spec fn row_of(
    record: RecordView,
    tier: Tier,
    idle: Age,
    report: bool,
) -> Option<RowView> {
    if report && tier != Tier::Fresh {
        Some(
            RowView {
                name: record.name,
                admins: record.admins,
                age_weeks: idle.spec_weeks(),
                action: tier,
            },
        )
    } else {
        None
    }
}

/// What is done about the steps that remain for a namespace when one of
/// its steps has failed.
#[derive(Clone, Copy, Debug, PartialEq, Eq, Structural)]
pub enum Followup {
    /// The failure is noted and the next step is taken.
    Continue,
    /// The failure is noted and the namespace is left as it is.
    SkipNamespace,
}

/// Says how to go on after a step has failed. Where the workloads of a
/// namespace cannot be read, nothing can be scaled and the admins are not
/// told that it was: the namespace is left as it is. Every other failure
/// stands for itself: an export, a deletion, a scaling or a message that
/// fails does not hold up the steps after it.
pub fn on_failure(failed: &Action) -> (followup: Followup)
    ensures
        followup is SkipNamespace <==> failed@ is SpinDown,
{
    match failed {
        Action::SpinDown { .. } => Followup::SkipNamespace,
        _ => Followup::Continue,
    }
}

/// Appends the messages about a record to a list of steps, where mail is
/// switched on.
fn add_notices(actions: &mut Vec<Action>, record: &DBItem, tier: Tier, post: &Postbox)
    ensures
        action_views(final(actions)@) == action_views(old(actions)@) + notices(
            record@,
            tier,
            post@,
        ),
{
    if !post.send_mail {
        assert(action_views(actions@) =~= action_views(actions@) + Seq::<ActionView>::empty());
        return ;
    }
    let mails = notifications(record, tier, post);
    let ghost wanted = mails_about(record@.admins, tier, record@, post@);
    let ghost start = action_views(actions@);
    let mut i: usize = 0;
    assert(as_notices(wanted.take(0)) =~= Seq::<ActionView>::empty());
    assert(start =~= start + as_notices(wanted.take(0)));
    while i < mails.len()
        invariant
            i <= mails@.len(),
            mail_views(mails@) == wanted,
            action_views(actions@) == start + as_notices(wanted.take(i as int)),
        decreases mails@.len() - i,
    {
        let ghost before = actions@;
        let mail = mails[i].copy();
        assert(mail@ == wanted[i as int]) by {
            assert(mail_views(mails@)[i as int] == mails@[i as int]@);
        }
        actions.push(Action::Notify { mail });
        assert(action_views(actions@) =~= action_views(before).push(
            ActionView::Notify { mail: wanted[i as int] },
        ));
        assert(as_notices(wanted.take(i + 1)) =~= as_notices(wanted.take(i as int)).push(
            ActionView::Notify { mail: wanted[i as int] },
        ));
        assert(action_views(actions@) =~= start + as_notices(wanted.take(i + 1)));
        i = i + 1;
    }
    assert(wanted.take(i as int) =~= wanted);
}

/// What a nudge calls for: the messages to the admins and nothing else.
pub fn nudge(
    record: &DBItem,
    collection: Collection,
    settings: &Settings,
) -> (actions: Vec<Action>)
    ensures
        action_views(actions@) == steps_for(record@, Tier::Nudge, collection, settings@),
{
    let mut actions: Vec<Action> = Vec::new();
    assert(action_views(actions@) =~= Seq::<ActionView>::empty());
    add_notices(&mut actions, record, Tier::Nudge, &settings.post);
    assert(action_views(actions@) =~= notices(record@, Tier::Nudge, settings@.post));
    actions
}

/// What a spin-down calls for: the workloads are scaled to nothing, then
/// the admins are told.
pub fn spin_down(
    record: &DBItem,
    collection: Collection,
    settings: &Settings,
) -> (actions: Vec<Action>)
    ensures
        action_views(actions@) == steps_for(record@, Tier::SpinDown, collection, settings@),
{
    let mut actions: Vec<Action> = Vec::new();
    actions.push(
        Action::SpinDown {
            namespace: record.name.clone(),
            call: deployments_address(settings.endpoint.as_str(), record.name.as_str()),
        },
    );
    assert(action_views(actions@) =~= seq![
        ActionView::SpinDown {
            namespace: record@.name,
            call: deployments_call(settings@.endpoint, record@.name),
        },
    ]);
    add_notices(&mut actions, record, Tier::SpinDown, &settings.post);
    actions
}

/// What an archive calls for: the namespace is exported, the project is
/// deleted, the record is taken out of its collection, then the admins are
/// told.
pub fn archive(
    record: &DBItem,
    collection: Collection,
    settings: &Settings,
) -> (actions: Vec<Action>)
    ensures
        action_views(actions@) == steps_for(record@, Tier::Archive, collection, settings@),
{
    let mut actions: Vec<Action> = Vec::new();
    actions.push(Action::Export { namespace: record.name.clone() });
    actions.push(
        Action::DeleteProject {
            call: project_address(settings.endpoint.as_str(), record.name.as_str()),
        },
    );
    actions.push(Action::RemoveRecord { collection, namespace: record.name.clone() });
    assert(action_views(actions@) =~= seq![
        ActionView::Export { namespace: record@.name },
        ActionView::DeleteProject { call: project_call(settings@.endpoint, record@.name) },
        ActionView::RemoveRecord { collection, namespace: record@.name },
    ]);
    add_notices(&mut actions, record, Tier::Archive, &settings.post);
    actions
}

/// Decides what is done about one namespace at its tier.
///
/// In a dry run no step is handed out at all: nothing is scaled, deleted,
/// forgotten or mailed, whatever the tier. The line for the report does not
/// depend on the dry run.
pub fn execute(
    record: &DBItem,
    tier: Tier,
    idle: Age,
    collection: Collection,
    dry_run: bool,
    report: bool,
    settings: &Settings,
) -> (outcome: ExecutionOutcome)
    ensures
        action_views(outcome.actions@) == actions_of(
            record@,
            tier,
            collection,
            dry_run,
            settings@,
        ),
        row_view(outcome.row) == row_of(record@, tier, idle, report),
        dry_run ==> outcome.actions@.len() == 0,
        tier is Fresh ==> outcome.actions@.len() == 0 && outcome.row is None,
{
    let row = match tier {
        Tier::Fresh => None,
        _ => if report {
            Some(
                ReportRow {
                    name: record.name.clone(),
                    admins: copy_texts(&record.admins),
                    age_weeks: idle.weeks(),
                    action: tier,
                },
            )
        } else {
            None
        },
    };
    let actions = if dry_run {
        Vec::new()
    } else {
        match tier {
            Tier::Fresh => Vec::new(),
            Tier::Nudge => nudge(record, collection, settings),
            Tier::SpinDown => spin_down(record, collection, settings),
            Tier::Archive => archive(record, collection, settings),
        }
    };
    assert(action_views(actions@).len() == actions@.len());
    ExecutionOutcome { actions, row }
}

/// Whether a deployment still runs replicas.
pub open spec fn is_running(item: DeploymentItem) -> bool {
    item.status.replicas > 0
}

/// The request that scales one deployment of a namespace to zero.
pub open spec fn scale_request(
    endpoint: Seq<char>,
    namespace: Seq<char>,
    item: DeploymentItem,
) -> ActionView {
    ActionView::Scale {
        call: scale_call(endpoint, namespace, item.metadata.name@),
        body: scale_body(item.metadata.name@, namespace),
    }
}

/// The requests of a spin-down: one for each deployment that still runs
/// replicas, in the order of the listing, and none in a dry run.
pub open spec fn scale_requests_of(
    endpoint: Seq<char>,
    namespace: Seq<char>,
    items: Seq<DeploymentItem>,
    dry_run: bool,
) -> Seq<ActionView> {
    if dry_run {
        Seq::empty()
    } else {
        items.filter(|item: DeploymentItem| is_running(item)).map_values(
            |item: DeploymentItem| scale_request(endpoint, namespace, item),
        )
    }
}

/// Names the requests that scale a namespace's workloads to zero, given
/// the listing of its deployments. Each request stands for itself: one
/// that fails does not keep the others from being sent.
pub fn scale_requests(
    settings: &Settings,
    namespace: &str,
    deployments: &DeploymentResponse,
    dry_run: bool,
) -> (requests: Vec<Action>)
    ensures
        action_views(requests@) == scale_requests_of(
            settings@.endpoint,
            namespace@,
            deployments.items@,
            dry_run,
        ),
        dry_run ==> requests@.len() == 0,
        forall|k: int| 0 <= k < requests@.len() ==> #[trigger] requests@[k] is Scale,
{
    let mut requests: Vec<Action> = Vec::new();
    assert(action_views(requests@) =~= Seq::<ActionView>::empty());
    if dry_run {
        return requests;
    }
    let ghost items = deployments.items@;
    let ghost endpoint = settings@.endpoint;
    let mut i: usize = 0;
    proof {
        reveal(Seq::filter);
        assert(items.take(0) =~= Seq::<DeploymentItem>::empty());
        assert(action_views(requests@) =~= scale_requests_of(
            endpoint,
            namespace@,
            items.take(0),
            false,
        ));
    }
    while i < deployments.items.len()
        invariant
            i <= items.len(),
            items == deployments.items@,
            endpoint == settings@.endpoint,
            action_views(requests@) == scale_requests_of(
                endpoint,
                namespace@,
                items.take(i as int),
                false,
            ),
            forall|k: int| 0 <= k < requests@.len() ==> #[trigger] requests@[k] is Scale,
        decreases items.len() - i,
    {
        let item = &deployments.items[i];
        let ghost before = requests@;
        proof {
            reveal(Seq::filter);
            assert(items.take(i + 1).drop_last() =~= items.take(i as int));
            assert(items.take(i + 1).last() == *item);
        }
        if item.status.replicas > 0 {
            let request = Action::Scale {
                call: scale_address(
                    settings.endpoint.as_str(),
                    namespace,
                    item.metadata.name.as_str(),
                ),
                body: scale_document(item.metadata.name.as_str(), namespace),
            };
            assert(request@ == scale_request(endpoint, namespace@, *item));
            requests.push(request);
            assert(action_views(requests@) =~= action_views(before).push(
                scale_request(endpoint, namespace@, *item),
            ));
            assert(action_views(requests@) =~= scale_requests_of(
                endpoint,
                namespace@,
                items.take(i + 1),
                false,
            ));
        }
        i = i + 1;
    }
    assert(items.take(i as int) =~= items);
    requests
}

/// A dry run changes nothing: whatever the record, its tier and the
/// settings, no step is handed out, and whatever the workloads of the
/// namespace, none is asked to scale.
pub proof fn lemma_dry_run_is_inert(
    record: RecordView,
    tier: Tier,
    collection: Collection,
    settings: SettingsView,
    items: Seq<DeploymentItem>,
)
    ensures
        actions_of(record, tier, collection, true, settings).len() == 0,
        scale_requests_of(settings.endpoint, record.name, items, true).len() == 0,
{
}

/// What is handed out when the steps are really taken: nothing for a
/// fresh namespace; for a nudge nothing but messages; for a spin-down the
/// scaling first; for an archive the export, the deletion and the
/// forgetting of the record, in this order, before any message.
pub proof fn lemma_order_of_steps(
    record: RecordView,
    tier: Tier,
    collection: Collection,
    settings: SettingsView,
)
    ensures
        tier is Fresh ==> steps_for(record, tier, collection, settings).len() == 0,
        tier is Nudge ==> forall|k: int|
            0 <= k < steps_for(record, tier, collection, settings).len() ==> (
            #[trigger] steps_for(record, tier, collection, settings)[k]) is Notify,
        tier is SpinDown ==> steps_for(record, tier, collection, settings)[0] is SpinDown
            && forall|k: int|
            1 <= k < steps_for(record, tier, collection, settings).len() ==> (
            #[trigger] steps_for(record, tier, collection, settings)[k]) is Notify,
        tier is Archive ==> steps_for(record, tier, collection, settings)[0] is Export
            && steps_for(record, tier, collection, settings)[1] is DeleteProject
            && steps_for(record, tier, collection, settings)[2] is RemoveRecord && forall|k: int|
            3 <= k < steps_for(record, tier, collection, settings).len() ==> (
            #[trigger] steps_for(record, tier, collection, settings)[k]) is Notify,
{
}

} // verus!
