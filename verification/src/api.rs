//! The calls that the platform answers: their addresses, the header that
//! authorises them, and the reading of the status they come back with.

use crate::protocol::{texts, ProjectItem, ProjectResponse};
use vstd::prelude::*;
use vstd::string::StringExecFns;

verus! {

/// The status with which the platform answers a call that succeeded.
pub const STATUS_OK: u16 = 200;

/// The status with which the platform refuses the token.
pub const STATUS_FORBIDDEN: u16 = 403;

/// Address of the listing of all projects.
pub open spec fn projects_call(endpoint: Seq<char>) -> Seq<char> {
    "https://"@ + endpoint + "/apis/project.openshift.io/v1/projects"@
}

/// Address of one project, for reading and for deleting it.
pub open spec fn project_call(endpoint: Seq<char>, namespace: Seq<char>) -> Seq<char> {
    "https://"@ + endpoint + "/apis/project.openshift.io/v1/projects/"@ + namespace
}

/// Address of the listing of a namespace's builds.
pub open spec fn builds_call(endpoint: Seq<char>, namespace: Seq<char>) -> Seq<char> {
    "https://"@ + endpoint + "/apis/build.openshift.io/v1/namespaces/"@ + namespace + "/builds"@
}

/// Address of the listing of a namespace's deployments.
pub open spec fn deployments_call(endpoint: Seq<char>, namespace: Seq<char>) -> Seq<char> {
    "https://"@ + endpoint + "/apis/apps.openshift.io/v1/namespaces/"@ + namespace
        + "/deploymentconfigs"@
}

/// Address of the listing of a namespace's role bindings.
pub open spec fn rolebindings_call(endpoint: Seq<char>, namespace: Seq<char>) -> Seq<char> {
    "https://"@ + endpoint + "/apis/authorization.openshift.io/v1/namespaces/"@ + namespace
        + "/rolebindings"@
}

/// Address at which a deployment is scaled.
pub open spec fn scale_call(
    endpoint: Seq<char>,
    namespace: Seq<char>,
    deployment: Seq<char>,
) -> Seq<char> {
    "https://"@ + endpoint + "/oapi/v1/namespaces/"@ + namespace + "/deploymentconfigs/"@
        + deployment + "/scale"@
}

/// The document that asks for a deployment to run no replicas.
pub open spec fn scale_body(deployment: Seq<char>, namespace: Seq<char>) -> Seq<char> {
    "{\"apiVersion\":\"extensions/v1beta1\",\"kind\":\"Scale\",\"metadata\":{\"name\":\""@
        + deployment + "\",\"namespace\":\""@ + namespace + "\"},\"spec\":{\"replicas\":0}}"@
}

/// The value of the header that authorises a call.
pub open spec fn bearer(token: Seq<char>) -> Seq<char> {
    "Bearer "@ + token
}

/// Builds [`projects_call`].
pub fn projects_address(endpoint: &str) -> (call: String)
    ensures
        call@ == projects_call(endpoint@),
{
    let mut call = String::from_str("https://");
    call.append(endpoint);
    call.append("/apis/project.openshift.io/v1/projects");
    call
}

/// Builds [`project_call`].
pub fn project_address(endpoint: &str, namespace: &str) -> (call: String)
    ensures
        call@ == project_call(endpoint@, namespace@),
{
    let mut call = String::from_str("https://");
    call.append(endpoint);
    call.append("/apis/project.openshift.io/v1/projects/");
    call.append(namespace);
    call
}

/// Builds [`builds_call`].
pub fn builds_address(endpoint: &str, namespace: &str) -> (call: String)
    ensures
        call@ == builds_call(endpoint@, namespace@),
{
    let mut call = String::from_str("https://");
    call.append(endpoint);
    call.append("/apis/build.openshift.io/v1/namespaces/");
    call.append(namespace);
    call.append("/builds");
    call
}

/// Builds [`deployments_call`].
pub fn deployments_address(endpoint: &str, namespace: &str) -> (call: String)
    ensures
        call@ == deployments_call(endpoint@, namespace@),
{
    let mut call = String::from_str("https://");
    call.append(endpoint);
    call.append("/apis/apps.openshift.io/v1/namespaces/");
    call.append(namespace);
    call.append("/deploymentconfigs");
    call
}

/// Builds [`rolebindings_call`].
pub fn rolebindings_address(endpoint: &str, namespace: &str) -> (call: String)
    ensures
        call@ == rolebindings_call(endpoint@, namespace@),
{
    let mut call = String::from_str("https://");
    call.append(endpoint);
    call.append("/apis/authorization.openshift.io/v1/namespaces/");
    call.append(namespace);
    call.append("/rolebindings");
    call
}

/// Builds [`scale_call`].
pub fn scale_address(endpoint: &str, namespace: &str, deployment: &str) -> (call: String)
    ensures
        call@ == scale_call(endpoint@, namespace@, deployment@),
{
    let mut call = String::from_str("https://");
    call.append(endpoint);
    call.append("/oapi/v1/namespaces/");
    call.append(namespace);
    call.append("/deploymentconfigs/");
    call.append(deployment);
    call.append("/scale");
    call
}

/// Builds [`scale_body`].
pub fn scale_document(deployment: &str, namespace: &str) -> (body: String)
    ensures
        body@ == scale_body(deployment@, namespace@),
{
    let mut body = String::from_str(
        "{\"apiVersion\":\"extensions/v1beta1\",\"kind\":\"Scale\",\"metadata\":{\"name\":\"",
    );
    body.append(deployment);
    body.append("\",\"namespace\":\"");
    body.append(namespace);
    body.append("\"},\"spec\":{\"replicas\":0}}");
    body
}

/// Builds [`bearer`].
pub fn bearer_header(token: &str) -> (value: String)
    ensures
        value@ == bearer(token@),
{
    let mut value = String::from_str("Bearer ");
    value.append(token);
    value
}

/// Why a call to the platform did not succeed.
#[derive(Debug, Clone, PartialEq, Eq)]
pub struct ApiError {
    /// The address that was called.
    pub call: String,
    /// The status that came back.
    pub status: u16,
}

/// What is said of a call that did not succeed, before the address.
pub const FAILED_CALL: &'static str = "Error! Could not run API call. Call: ";

/// What stands between the address and the status.
pub const FAILED_CODE: &'static str = ", Code: ";

impl ApiError {
    /// The error in words: the call and the status it came back with.
    pub open spec fn wording(self) -> Seq<char> {
        FAILED_CALL@ + self.call@ + FAILED_CODE@ + crate::text::decimal_of(self.status as int)
    }

    /// Puts the error in words.
    pub fn message(&self) -> (text: String)
        ensures
            text@ == self.wording(),
    {
        let mut text = String::from_str(FAILED_CALL);
        text.append(self.call.as_str());
        text.append(FAILED_CODE);
        text.append(crate::text::decimal(self.status as i64).as_str());
        text
    }
}

/// What is said where the platform refuses the token.
pub const BAD_TOKEN: &'static str =
    "Error! Could not fetch namespace information. Bad API token?";

/// What is said where a namespace cannot be read.
pub const BAD_NAMESPACE: &'static str =
    "Error! Could not fetch namespace information. Is the namespace wrong?";

/// What a status other than success is put down to: a refused token where
/// the platform forbids the call, a wrong namespace otherwise. Success has
/// nothing to explain.
pub fn explain_status(status: u16) -> (text: Option<&'static str>)
    ensures
        status == 200 <==> text is None,
        status == 403 ==> text == Some(BAD_TOKEN),
        status != 200 && status != 403 ==> text == Some(BAD_NAMESPACE),
{
    match reply_kind(status) {
        Reply::Accepted => None,
        Reply::Forbidden => Some(BAD_TOKEN),
        Reply::Failed => Some(BAD_NAMESPACE),
    }
}

/// How the platform answered, as far as the policy tells answers apart.
#[derive(Clone, Copy, Debug, PartialEq, Eq, Structural)]
pub enum Reply {
    /// The call succeeded.
    Accepted,
    /// The token was refused.
    Forbidden,
    /// Anything else, such as a namespace that does not exist.
    Failed,
}

/// Tells the three kinds of answer apart by their status.
pub fn reply_kind(status: u16) -> (kind: Reply)
    ensures
        kind is Accepted <==> status == 200,
        kind is Forbidden <==> status == 403,
        kind is Failed <==> status != 200 && status != 403,
{
    if status == STATUS_OK {
        Reply::Accepted
    } else if status == STATUS_FORBIDDEN {
        Reply::Forbidden
    } else {
        Reply::Failed
    }
}

/// Accepts an answer with status 200 and turns any other into an error
/// that names the call and the status.
pub fn check_status(call: &str, status: u16) -> (r: Result<(), ApiError>)
    ensures
        r is Ok <==> status == 200,
        r matches Err(e) ==> e.call@ == call@ && e.status == status,
{
    if status == STATUS_OK {
        Ok(())
    } else {
        Err(ApiError { call: String::from_str(call), status })
    }
}

/// The names of the projects in a listing.
pub open spec fn project_names(items: Seq<ProjectItem>) -> Seq<Seq<char>> {
    items.map_values(|item: ProjectItem| item.metadata.name@)
}

/// Collects the names of all projects of a listing, in its order.
pub fn get_namespaces(listing: &ProjectResponse) -> (names: Vec<String>)
    ensures
        texts(names@) == project_names(listing.items@),
{
    let mut names: Vec<String> = Vec::new();
    let mut i: usize = 0;
    while i < listing.items.len()
        invariant
            i <= listing.items@.len(),
            names@.len() == i,
            forall|k: int| 0 <= k < i ==> #[trigger] names@[k]@ == listing.items@[k].metadata.name@,
        decreases listing.items@.len() - i,
    {
        names.push(listing.items[i].metadata.name.clone());
        i = i + 1;
    }
    assert(texts(names@) =~= project_names(listing.items@));
    names
}

} // verus!
