//! The shapes of the platform's replies and of a stored namespace record.

use vstd::prelude::*;

verus! {

/// Name and creation time of a project.
#[derive(Debug, Clone, PartialEq, Eq)]
pub struct ProjectMetadata {
    pub name: String,
    pub creation_timestamp: String,
}

/// One project of a listing.
#[derive(Debug, Clone, PartialEq, Eq)]
pub struct ProjectItem {
    pub metadata: ProjectMetadata,
}

/// The listing of all projects.
#[derive(Debug, Clone, PartialEq, Eq)]
pub struct ProjectResponse {
    pub items: Vec<ProjectItem>,
}

/// Creation time of a pod.
#[derive(Debug, Clone, PartialEq, Eq)]
pub struct PodMetadata {
    pub creation_timestamp: String,
}

/// One pod of a listing.
#[derive(Debug, Clone, PartialEq, Eq)]
pub struct PodItem {
    pub metadata: PodMetadata,
}

/// The listing of a namespace's pods.
#[derive(Debug, Clone, PartialEq, Eq)]
pub struct PodsResponse {
    pub items: Vec<PodItem>,
}

/// When a build completed, if it has.
#[derive(Debug, Clone, PartialEq, Eq)]
pub struct BuildStatus {
    pub completion_timestamp: Option<String>,
}

/// One build of a listing.
#[derive(Debug, Clone, PartialEq, Eq)]
pub struct BuildItem {
    pub status: BuildStatus,
}

/// The listing of a namespace's builds.
#[derive(Debug, Clone, PartialEq, Eq)]
pub struct BuildlistResponse {
    pub items: Vec<BuildItem>,
}

/// One condition of a deployment, with the time it last changed.
#[derive(Debug, Clone, PartialEq, Eq)]
pub struct DeploymentCondition {
    pub last_update_time: String,
}

/// Replica count and conditions of a deployment.
#[derive(Debug, Clone, PartialEq, Eq)]
pub struct DeploymentStatus {
    pub replicas: u32,
    pub conditions: Vec<DeploymentCondition>,
}

/// Name of a deployment.
#[derive(Debug, Clone, PartialEq, Eq)]
pub struct DeploymentMetadata {
    pub name: String,
}

/// One deployment of a listing.
#[derive(Debug, Clone, PartialEq, Eq)]
pub struct DeploymentItem {
    pub metadata: DeploymentMetadata,
    pub status: DeploymentStatus,
}

/// The listing of a namespace's deployments.
#[derive(Debug, Clone, PartialEq, Eq)]
pub struct DeploymentResponse {
    pub items: Vec<DeploymentItem>,
}

/// Name of a role binding.
#[derive(Debug, Clone, PartialEq, Eq)]
pub struct RolebindingsMetadata {
    pub name: String,
}

/// One role binding with the accounts it names, if any.
#[derive(Debug, Clone, PartialEq, Eq)]
pub struct RolebindingsItem {
    pub metadata: RolebindingsMetadata,
    pub user_names: Option<Vec<String>>,
}

/// The listing of a namespace's role bindings.
#[derive(Debug, Clone, PartialEq, Eq)]
pub struct RolebindingsResponse {
    pub items: Vec<RolebindingsItem>,
}

/// The stored record of one namespace. Both dates are kept as RFC 2822
/// text, the cause as the name of the signal that gave `last_update`.
#[derive(Debug, Clone, PartialEq, Eq)]
pub struct DBItem {
    pub name: String,
    pub admins: Vec<String>,
    pub discovery_date: String,
    pub last_update: String,
    pub cause: String,
}

/// The text of a field that a stored document may lack.
pub open spec fn text_or_empty(field: Option<String>) -> Seq<char> {
    match field {
        Some(text) => text@,
        None => Seq::empty(),
    }
}

impl DBItem {
    /// Puts a record together from the fields of a stored document. A
    /// field that the document lacks, or holds in another shape than
    /// text, is handed in as `None` and comes out empty.
    pub fn from_fields(
        name: Option<String>,
        admins: Option<Vec<String>>,
        discovery_date: Option<String>,
        last_update: Option<String>,
        cause: Option<String>,
    ) -> (record: DBItem)
        ensures
            record.name@ == text_or_empty(name),
            record.discovery_date@ == text_or_empty(discovery_date),
            record.last_update@ == text_or_empty(last_update),
            record.cause@ == text_or_empty(cause),
            match admins {
                Some(list) => record.admins == list,
                None => record.admins@.len() == 0,
            },
    {
        DBItem {
            name: Self::text_of(name),
            admins: match admins {
                Some(list) => list,
                None => Vec::new(),
            },
            discovery_date: Self::text_of(discovery_date),
            last_update: Self::text_of(last_update),
            cause: Self::text_of(cause),
        }
    }

    /// The text of a field, or the empty text where there is none.
    fn text_of(field: Option<String>) -> (text: String)
        ensures
            text@ == text_or_empty(field),
    {
        match field {
            Some(text) => text,
            None => String::new(),
        }
    }
}

/// What a record holds, as sequences of characters.
pub struct RecordView {
    pub name: Seq<char>,
    pub admins: Seq<Seq<char>>,
    pub discovery_date: Seq<char>,
    pub last_update: Seq<char>,
    pub cause: Seq<char>,
}

/// The texts of a list of strings.
pub open spec fn texts(list: Seq<String>) -> Seq<Seq<char>> {
    list.map_values(|s: String| s@)
}

impl View for DBItem {
    type V = RecordView;

    open spec fn view(&self) -> RecordView {
        RecordView {
            name: self.name@,
            admins: texts(self.admins@),
            discovery_date: self.discovery_date@,
            last_update: self.last_update@,
            cause: self.cause@,
        }
    }
}

} // verus!
