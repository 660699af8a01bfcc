//! From the platform's replies about one namespace to the time it was last
//! active, the signal that says so, and the accounts that administer it.

use crate::clock::{read_rfc3339, rfc2822_text, rfc3339_reading, write_rfc2822, Timestamp};
use crate::protocol::{
    texts, BuildItem, BuildlistResponse, DBItem, DeploymentCondition, DeploymentItem,
    DeploymentResponse, ProjectItem, RecordView, RolebindingsItem, RolebindingsResponse,
};
use crate::text::{same_text, strip_quotes, without_quotes};
use vstd::prelude::*;
use vstd::string::StringExecFns;

verus! {

/// What stands for the discovery date of a record that was never stored.
pub const NOT_DISCOVERED: &'static str = "MISSING!";

/// The role binding whose accounts administer a namespace.
pub const ADMIN_BINDING: &'static str = "admin";

/// The signal that gave the time of the last activity.
#[derive(Clone, Copy, Debug, PartialEq, Eq, Structural)]
pub enum Cause {
    /// Nothing has happened since the project was created.
    Creation,
    /// A build completed.
    Build,
    /// A deployment changed.
    Deployment,
}

impl Cause {
    /// The name under which a record keeps the cause.
    pub open spec fn label(self) -> Seq<char> {
        match self {
            Cause::Creation => "Creation"@,
            Cause::Build => "Build"@,
            Cause::Deployment => "Deployment"@,
        }
    }

    /// The name under which a record keeps the cause.
    pub fn name(&self) -> (name: &'static str)
        ensures
            name@ == self.label(),
    {
        match self {
            Cause::Creation => "Creation",
            Cause::Build => "Build",
            Cause::Deployment => "Deployment",
        }
    }
}

/// When a namespace was last active, and what says so.
#[derive(Clone, Copy, Debug, PartialEq, Eq, Structural)]
pub struct Activity {
    pub last_update: Timestamp,
    pub cause: Cause,
}

/// Why the signals of a namespace gave no record.
#[derive(Clone, Copy, Debug, PartialEq, Eq, Structural)]
pub enum ResolveError {
    /// The creation time of the project cannot be read.
    MalformedCreation,
    /// The completion time of a build cannot be read.
    MalformedBuild,
    /// The update time of a deployment's condition cannot be read.
    MalformedDeployment,
    /// The time of the last activity lies outside the four-digit years.
    OutOfRange,
}

/// The latest of some timestamps in their order; among several at the
/// same second and fraction, the one that stands last. (Of no timestamps:
/// an arbitrary one.)
pub open spec fn latest(times: Seq<Timestamp>) -> Timestamp
    decreases times.len(),
{
    if times.len() <= 1 {
        times[0]
    } else {
        let before = latest(times.drop_last());
        if before.follows(times.last()) {
            before
        } else {
            times.last()
        }
    }
}

/// The time of the last activity: the creation where nothing else is
/// known; the latest deployment where there is one; the latest build where
/// the span to it from what was picked before is more than nothing.
pub open spec fn activity_of(
    creation: Timestamp,
    builds: Seq<Timestamp>,
    deployments: Seq<Timestamp>,
) -> Activity {
    let settled = if deployments.len() > 0 {
        Activity { last_update: latest(deployments), cause: Cause::Deployment }
    } else {
        Activity { last_update: creation, cause: Cause::Creation }
    };
    if builds.len() > 0 && latest(builds).since(settled.last_update) > 0 {
        Activity { last_update: latest(builds), cause: Cause::Build }
    } else {
        settled
    }
}

/// [`latest`] is one of the timestamps and none of them comes after it.
pub proof fn lemma_latest_is_maximum(times: Seq<Timestamp>)
    requires
        times.len() > 0,
    ensures
        times.contains(latest(times)),
        forall|k: int| 0 <= k < times.len() ==> !(#[trigger] times[k]).follows(latest(times)),
    decreases times.len(),
{
    if times.len() == 1 {
        assert(times[0] == latest(times));
    } else {
        let front = times.drop_last();
        lemma_latest_is_maximum(front);
        let at = choose|k: int| 0 <= k < front.len() && front[k] == latest(front);
        assert(times[at] == front[at]);
        assert(times[times.len() - 1] == times.last());
        assert forall|k: int| 0 <= k < times.len() implies !(#[trigger] times[k]).follows(
            latest(times),
        ) by {
            if k < front.len() {
                assert(times[k] == front[k]);
            }
        }
    }
}

/// The last activity is one of the signals, and the cause names its
/// kind: the creation itself, the latest of the builds, or the latest of
/// the deployments. A build is the cause only where there is one, a
/// deployment only where there is one and no build took its place.
pub proof fn lemma_activity_is_a_signal(
    creation: Timestamp,
    builds: Seq<Timestamp>,
    deployments: Seq<Timestamp>,
)
    ensures
        match activity_of(creation, builds, deployments).cause {
            Cause::Creation => deployments.len() == 0 && activity_of(
                creation,
                builds,
                deployments,
            ).last_update == creation,
            Cause::Build => builds.len() > 0 && builds.contains(
                activity_of(creation, builds, deployments).last_update,
            ) && activity_of(creation, builds, deployments).last_update == latest(builds),
            Cause::Deployment => deployments.len() > 0 && deployments.contains(
                activity_of(creation, builds, deployments).last_update,
            ) && activity_of(creation, builds, deployments).last_update == latest(deployments),
        },
{
    if builds.len() > 0 {
        lemma_latest_is_maximum(builds);
    }
    if deployments.len() > 0 {
        lemma_latest_is_maximum(deployments);
    }
}

/// Finds [`latest`] among timestamps, of which there is at least one.
pub fn latest_of(times: &Vec<Timestamp>) -> (found: Timestamp)
    requires
        times@.len() > 0,
    ensures
        found == latest(times@),
{
    let mut found = times[0];
    let mut i: usize = 1;
    assert(times@.take(1).len() == 1);
    while i < times.len()
        invariant
            1 <= i <= times@.len(),
            found == latest(times@.take(i as int)),
        decreases times@.len() - i,
    {
        let next = times[i];
        proof {
            assert(times@.take(i + 1).drop_last() =~= times@.take(i as int));
            assert(times@.take(i + 1).last() == next);
        }
        if !found.is_after(&next) {
            found = next;
        }
        i = i + 1;
    }
    assert(times@.take(i as int) =~= times@);
    found
}

/// Picks the time of the last activity among the signals of a namespace.
/// A build wins only where the span to it from what was picked before is
/// more than nothing, so that a tie goes to the deployment, or to the
/// creation.
pub fn resolve_activity(
    creation: Timestamp,
    builds: &Vec<Timestamp>,
    deployments: &Vec<Timestamp>,
) -> (activity: Activity)
    ensures
        activity == activity_of(creation, builds@, deployments@),
{
    let mut activity = Activity { last_update: creation, cause: Cause::Creation };
    if deployments.len() > 0 {
        activity = Activity { last_update: latest_of(deployments), cause: Cause::Deployment };
    }
    if builds.len() > 0 {
        let build = latest_of(builds);
        if build.nanos_since(&activity.last_update).nanos > 0 {
            activity = Activity { last_update: build, cause: Cause::Build };
        }
    }
    activity
}

/// The completion times of the builds of a listing, in its order. A build
/// that has not completed is passed over; a time that cannot be read
/// spoils the whole.
pub open spec fn build_readings(items: Seq<BuildItem>) -> Option<Seq<Timestamp>>
    decreases items.len(),
{
    if items.len() == 0 {
        Some(Seq::empty())
    } else {
        match build_readings(items.drop_last()) {
            None => None,
            Some(before) => match items.last().status.completion_timestamp {
                None => Some(before),
                Some(text) => match rfc3339_reading(text@) {
                    Some(t) => Some(before.push(t)),
                    None => None,
                },
            },
        }
    }
}

/// The update times of some conditions, in their order. A time that
/// cannot be read spoils the whole.
pub open spec fn condition_readings(conditions: Seq<DeploymentCondition>) -> Option<Seq<Timestamp>>
    decreases conditions.len(),
{
    if conditions.len() == 0 {
        Some(Seq::empty())
    } else {
        match condition_readings(conditions.drop_last()) {
            None => None,
            Some(before) => match rfc3339_reading(conditions.last().last_update_time@) {
                Some(t) => Some(before.push(t)),
                None => None,
            },
        }
    }
}

/// The update times of all conditions of the deployments of a listing, in
/// its order.
pub open spec fn deployment_readings(items: Seq<DeploymentItem>) -> Option<Seq<Timestamp>>
    decreases items.len(),
{
    if items.len() == 0 {
        Some(Seq::empty())
    } else {
        match deployment_readings(items.drop_last()) {
            None => None,
            Some(before) => match condition_readings(items.last().status.conditions@) {
                Some(times) => Some(before + times),
                None => None,
            },
        }
    }
}

/// Every text without its quotation marks.
pub open spec fn all_without_quotes(names: Seq<Seq<char>>) -> Seq<Seq<char>> {
    names.map_values(|name: Seq<char>| without_quotes(name))
}

/// The accounts that one role binding makes admins: those it names, where
/// it is the binding called `admin`, each without quotation marks.
pub open spec fn admins_in(item: RolebindingsItem) -> Seq<Seq<char>> {
    if item.metadata.name@ == ADMIN_BINDING@ {
        match item.user_names {
            Some(names) => all_without_quotes(texts(names@)),
            None => Seq::empty(),
        }
    } else {
        Seq::empty()
    }
}

/// The admins of a namespace: the accounts of every binding called
/// `admin`, in the order of the listing.
pub open spec fn admin_names(items: Seq<RolebindingsItem>) -> Seq<Seq<char>>
    decreases items.len(),
{
    if items.len() == 0 {
        Seq::empty()
    } else {
        admin_names(items.drop_last()) + admins_in(items.last())
    }
}

/// Reads the completion times of the builds of a listing.
pub fn read_builds(listing: &BuildlistResponse) -> (times: Option<Vec<Timestamp>>)
    ensures
        times is Some <==> build_readings(listing.items@) is Some,
        times matches Some(v) ==> Some(v@) == build_readings(listing.items@),
{
    let mut times: Vec<Timestamp> = Vec::new();
    let mut i: usize = 0;
    let ghost items = listing.items@;
    assert(items.take(0) =~= Seq::<BuildItem>::empty());
    while i < listing.items.len()
        invariant
            i <= items.len(),
            items == listing.items@,
            build_readings(items.take(i as int)) == Some(times@),
        decreases items.len() - i,
    {
        proof {
            assert(items.take(i + 1).drop_last() =~= items.take(i as int));
            assert(items.take(i + 1).last() == items[i as int]);
        }
        match &listing.items[i].status.completion_timestamp {
            Some(text) => match read_rfc3339(text.as_str()) {
                Ok(t) => {
                    times.push(t);
                },
                Err(_) => {
                    proof {
                        lemma_builds_spoiled(items, i + 1);
                    }
                    return None;
                },
            },
            None => {},
        }
        i = i + 1;
    }
    assert(items.take(i as int) =~= items);
    Some(times)
}

/// Once a part of a listing of builds cannot be read, neither can the
/// whole.
proof fn lemma_builds_spoiled(items: Seq<BuildItem>, upto: int)
    requires
        0 <= upto <= items.len(),
        build_readings(items.take(upto)) is None,
    ensures
        build_readings(items) is None,
    decreases items.len() - upto,
{
    if upto < items.len() {
        assert(items.take(upto + 1).drop_last() =~= items.take(upto));
        lemma_builds_spoiled(items, upto + 1);
    } else {
        assert(items.take(upto) =~= items);
    }
}

/// Once a part of some conditions cannot be read, neither can the whole.
proof fn lemma_conditions_spoiled(conditions: Seq<DeploymentCondition>, upto: int)
    requires
        0 <= upto <= conditions.len(),
        condition_readings(conditions.take(upto)) is None,
    ensures
        condition_readings(conditions) is None,
    decreases conditions.len() - upto,
{
    if upto < conditions.len() {
        assert(conditions.take(upto + 1).drop_last() =~= conditions.take(upto));
        lemma_conditions_spoiled(conditions, upto + 1);
    } else {
        assert(conditions.take(upto) =~= conditions);
    }
}

/// Once a part of a listing of deployments cannot be read, neither can
/// the whole.
proof fn lemma_deployments_spoiled(items: Seq<DeploymentItem>, upto: int)
    requires
        0 <= upto <= items.len(),
        deployment_readings(items.take(upto)) is None,
    ensures
        deployment_readings(items) is None,
    decreases items.len() - upto,
{
    if upto < items.len() {
        assert(items.take(upto + 1).drop_last() =~= items.take(upto));
        lemma_deployments_spoiled(items, upto + 1);
    } else {
        assert(items.take(upto) =~= items);
    }
}

/// Reads the update times of all conditions of the deployments of a
/// listing.
pub fn read_deployments(listing: &DeploymentResponse) -> (times: Option<Vec<Timestamp>>)
    ensures
        times is Some <==> deployment_readings(listing.items@) is Some,
        times matches Some(v) ==> Some(v@) == deployment_readings(listing.items@),
{
    let mut times: Vec<Timestamp> = Vec::new();
    let mut i: usize = 0;
    let ghost items = listing.items@;
    assert(items.take(0) =~= Seq::<DeploymentItem>::empty());
    while i < listing.items.len()
        invariant
            i <= items.len(),
            items == listing.items@,
            deployment_readings(items.take(i as int)) == Some(times@),
        decreases items.len() - i,
    {
        let conditions = &listing.items[i].status.conditions;
        let ghost all = conditions@;
        let ghost before = times@;
        proof {
            assert(items.take(i + 1).drop_last() =~= items.take(i as int));
            assert(items.take(i + 1).last() == items[i as int]);
            assert(all.take(0) =~= Seq::<DeploymentCondition>::empty());
            assert(before + Seq::<Timestamp>::empty() =~= before);
        }
        let mut j: usize = 0;
        while j < conditions.len()
            invariant
                j <= all.len(),
                all == conditions@,
                i < items.len(),
                items == listing.items@,
                all == items[i as int].status.conditions@,
                deployment_readings(items.take(i as int)) == Some(before),
                items.take(i + 1).drop_last() == items.take(i as int),
                items.take(i + 1).last() == items[i as int],
                condition_readings(all.take(j as int)) matches Some(some) && times@ == before
                    + some,
            decreases all.len() - j,
        {
            proof {
                assert(all.take(j + 1).drop_last() =~= all.take(j as int));
                assert(all.take(j + 1).last() == all[j as int]);
            }
            match read_rfc3339(conditions[j].last_update_time.as_str()) {
                Ok(t) => {
                    let ghost some = condition_readings(all.take(j as int)).unwrap();
                    times.push(t);
                    assert(times@ =~= before + some.push(t));
                },
                Err(_) => {
                    proof {
                        lemma_conditions_spoiled(all, j + 1);
                        assert(deployment_readings(items.take(i + 1)) is None);
                        lemma_deployments_spoiled(items, i + 1);
                    }
                    return None;
                },
            }
            j = j + 1;
        }
        assert(all.take(j as int) =~= all);
        i = i + 1;
    }
    assert(items.take(i as int) =~= items);
    Some(times)
}

/// Collects the admins of a namespace from the listing of its role
/// bindings.
pub fn admins_of(listing: &RolebindingsResponse) -> (admins: Vec<String>)
    ensures
        texts(admins@) == admin_names(listing.items@),
{
    let mut admins: Vec<String> = Vec::new();
    let mut i: usize = 0;
    let ghost items = listing.items@;
    assert(items.take(0) =~= Seq::<RolebindingsItem>::empty());
    assert(texts(admins@) =~= admin_names(items.take(0)));
    while i < listing.items.len()
        invariant
            i <= items.len(),
            items == listing.items@,
            texts(admins@) == admin_names(items.take(i as int)),
        decreases items.len() - i,
    {
        let item = &listing.items[i];
        let ghost before = texts(admins@);
        proof {
            assert(items.take(i + 1).drop_last() =~= items.take(i as int));
            assert(items.take(i + 1).last() == *item);
            assert(before + Seq::<Seq<char>>::empty() =~= before);
        }
        if same_text(item.metadata.name.as_str(), ADMIN_BINDING) {
            match &item.user_names {
                Some(names) => {
                    let ghost wanted = all_without_quotes(texts(names@));
                    let mut j: usize = 0;
                    assert(before + wanted.take(0) =~= before);
                    while j < names.len()
                        invariant
                            j <= names@.len(),
                            wanted == all_without_quotes(texts(names@)),
                            texts(admins@) == before + wanted.take(j as int),
                        decreases names@.len() - j,
                    {
                        let ghost so_far = admins@;
                        let name = strip_quotes(names[j].as_str());
                        admins.push(name);
                        assert(texts(admins@) =~= texts(so_far).push(wanted[j as int]));
                        assert(texts(admins@) =~= before + wanted.take(j + 1));
                        j = j + 1;
                    }
                    assert(wanted.take(j as int) =~= wanted);
                },
                None => {},
            }
        }
        i = i + 1;
    }
    assert(items.take(i as int) =~= items);
    admins
}

/// The record that the signals of a namespace give, or why they give none.
///
/// The creation time is read first, then the builds, then the deployments,
/// and the first that cannot be read is the error. The record carries the
/// last activity as RFC 2822 text and no discovery date yet.
pub open spec fn shelflife_of(
    namespace: Seq<char>,
    project: ProjectItem,
    builds: Seq<BuildItem>,
    deployments: Seq<DeploymentItem>,
    rolebindings: Seq<RolebindingsItem>,
) -> Result<RecordView, ResolveError> {
    match rfc3339_reading(project.metadata.creation_timestamp@) {
        None => Err(ResolveError::MalformedCreation),
        Some(creation) => match build_readings(builds) {
            None => Err(ResolveError::MalformedBuild),
            Some(built) => match deployment_readings(deployments) {
                None => Err(ResolveError::MalformedDeployment),
                Some(deployed) => described(
                    namespace,
                    activity_of(creation, built, deployed),
                    admin_names(rolebindings),
                ),
            },
        },
    }
}

/// The record of a namespace with this last activity and these admins, or
/// the error where the activity lies outside the four-digit years.
pub open spec fn described(
    namespace: Seq<char>,
    activity: Activity,
    admins: Seq<Seq<char>>,
) -> Result<RecordView, ResolveError> {
    if activity.last_update.printable() {
        Ok(
            RecordView {
                name: namespace,
                admins,
                discovery_date: NOT_DISCOVERED@,
                last_update: rfc2822_text(
                    activity.last_update.secs as int,
                    activity.last_update.nanos as int,
                    activity.last_update.offset as int,
                ),
                cause: activity.cause.label(),
            },
        )
    } else {
        Err(ResolveError::OutOfRange)
    }
}

/// Whether a result is the record, or the error, that a description asks
/// for.
pub open spec fn matches_description(
    result: Result<DBItem, ResolveError>,
    wanted: Result<RecordView, ResolveError>,
) -> bool {
    match (result, wanted) {
        (Ok(record), Ok(view)) => {
            &&& record@.name == view.name
            &&& record@.admins == view.admins
            &&& record@.discovery_date == view.discovery_date
            &&& record@.last_update == view.last_update
            &&& record@.cause == view.cause
        },
        (Err(e), Err(w)) => e == w,
        _ => false,
    }
}

/// Writes the record of a namespace from its last activity and its admins.
pub fn describe(
    namespace: &str,
    activity: Activity,
    admins: Vec<String>,
) -> (result: Result<DBItem, ResolveError>)
    ensures
        matches_description(result, described(namespace@, activity, texts(admins@))),
{
    if !activity.last_update.is_printable() {
        return Err(ResolveError::OutOfRange);
    }
    Ok(
        DBItem {
            name: String::from_str(namespace),
            admins,
            discovery_date: String::from_str(NOT_DISCOVERED),
            last_update: write_rfc2822(&activity.last_update),
            cause: String::from_str(activity.cause.name()),
        },
    )
}

/// Works out the record of a namespace from the platform's four replies
/// about it: the project, its builds, its deployments and its role
/// bindings.
pub fn get_shelflife_info(
    namespace: &str,
    project: &ProjectItem,
    builds: &BuildlistResponse,
    deployments: &DeploymentResponse,
    rolebindings: &RolebindingsResponse,
) -> (result: Result<DBItem, ResolveError>)
    ensures
        matches_description(
            result,
            shelflife_of(
                namespace@,
                *project,
                builds.items@,
                deployments.items@,
                rolebindings.items@,
            ),
        ),
{
    let creation = match read_rfc3339(project.metadata.creation_timestamp.as_str()) {
        Ok(t) => t,
        Err(_) => {
            return Err(ResolveError::MalformedCreation);
        },
    };
    let built = match read_builds(builds) {
        Some(times) => times,
        None => {
            return Err(ResolveError::MalformedBuild);
        },
    };
    let deployed = match read_deployments(deployments) {
        Some(times) => times,
        None => {
            return Err(ResolveError::MalformedDeployment);
        },
    };
    let activity = resolve_activity(creation, &built, &deployed);
    let admins = admins_of(rolebindings);
    describe(namespace, activity, admins)
}

} // verus!
