//! The commands that write the offline archive of a project.

use vstd::prelude::*;
use vstd::string::StringExecFns;

verus! {

/// One command for the shell, and the directory to run it in.
#[derive(Debug, Clone, PartialEq, Eq)]
pub struct Command {
    pub line: String,
    pub directory: String,
}

/// What a command holds, as sequences of characters.
pub struct CommandView {
    pub line: Seq<char>,
    pub directory: Seq<char>,
}

impl View for Command {
    type V = CommandView;

    open spec fn view(&self) -> CommandView {
        CommandView { line: self.line@, directory: self.directory@ }
    }
}

/// The commands of a list.
pub open spec fn command_views(commands: Seq<Command>) -> Seq<CommandView> {
    commands.map_values(|c: Command| c@)
}

/// The kinds of object that are exported one by one, besides `all`.
pub open spec fn exported_kinds() -> Seq<Seq<char>> {
    seq![
        "rolebindings"@,
        "serviceaccounts"@,
        "secrets"@,
        "imagestreamtags"@,
        "podpreset"@,
        "cms"@,
        "egressnetworkpolicies"@,
        "rolebindingrestrictions"@,
        "limitranges"@,
        "resourcequotas"@,
        "pvcs"@,
        "templates"@,
        "cronjobs"@,
        "statefulsets"@,
        "hpas"@,
        "deployments"@,
        "replicasets"@,
        "poddisruptionbudget"@,
        "endpoints"@,
    ]
}

/// The command that exports the objects of one kind into a file of the
/// project's directory.
pub open spec fn export_line(kind: Seq<char>, file: Seq<char>, project: Seq<char>) -> Seq<char> {
    "oc get -o yaml --export "@ + kind + " > "@ + project + "/"@ + file + ".yaml"@
}

/// The commands before the export of the single kinds: the backup
/// directory is made, the platform is logged in to, the project's
/// directory is made, the project is chosen and everything is exported.
pub open spec fn export_opening(
    project: Seq<char>,
    path: Seq<char>,
    endpoint: Seq<char>,
    token: Seq<char>,
) -> Seq<CommandView> {
    seq![
        CommandView { line: "mkdir "@ + path, directory: "/"@ },
        CommandView {
            line: "oc login https://"@ + endpoint + " --token="@ + token,
            directory: path,
        },
        CommandView { line: "mkdir "@ + path + "/"@ + project, directory: path },
        CommandView { line: "oc project "@ + project, directory: path },
        CommandView { line: export_line("all"@, "project"@, project), directory: path },
    ]
}

/// The whole run of commands: the opening, one export for each kind in
/// its order, and the compression of the project's directory.
pub open spec fn export_commands(
    project: Seq<char>,
    path: Seq<char>,
    endpoint: Seq<char>,
    token: Seq<char>,
) -> Seq<CommandView> {
    export_opening(project, path, endpoint, token) + exported_kinds().map_values(
        |kind: Seq<char>| CommandView { line: export_line(kind, kind, project), directory: path },
    ) + seq![
        CommandView {
            line: "zip -r "@ + project + ".zip "@ + project,
            directory: path,
        },
    ]
}

/// Lists [`exported_kinds`].
pub fn kinds() -> (kinds: Vec<&'static str>)
    ensures
        kinds@.map_values(|kind: &'static str| kind@) == exported_kinds(),
        kinds@.len() == 19,
{
    let mut kinds: Vec<&'static str> = Vec::new();
    kinds.push("rolebindings");
    kinds.push("serviceaccounts");
    kinds.push("secrets");
    kinds.push("imagestreamtags");
    kinds.push("podpreset");
    kinds.push("cms");
    kinds.push("egressnetworkpolicies");
    kinds.push("rolebindingrestrictions");
    kinds.push("limitranges");
    kinds.push("resourcequotas");
    kinds.push("pvcs");
    kinds.push("templates");
    kinds.push("cronjobs");
    kinds.push("statefulsets");
    kinds.push("hpas");
    kinds.push("deployments");
    kinds.push("replicasets");
    kinds.push("poddisruptionbudget");
    kinds.push("endpoints");
    assert(kinds@.map_values(|kind: &'static str| kind@) =~= exported_kinds());
    kinds
}

/// Writes [`export_line`].
fn export_one(kind: &str, file: &str, project: &str) -> (line: String)
    ensures
        line@ == export_line(kind@, file@, project@),
{
    let mut line = String::from_str("oc get -o yaml --export ");
    line.append(kind);
    line.append(" > ");
    line.append(project);
    line.append("/");
    line.append(file);
    line.append(".yaml");
    line
}

/// Names the commands that archive a project under the backup path, in
/// the order in which they are run.
pub fn export_project(
    project: &str,
    path: &str,
    endpoint: &str,
    token: &str,
) -> (commands: Vec<Command>)
    ensures
        command_views(commands@) == export_commands(project@, path@, endpoint@, token@),
        commands@.len() == 25,
{
    let mut commands: Vec<Command> = Vec::new();
    let mut line = String::from_str("mkdir ");
    line.append(path);
    commands.push(Command { line, directory: String::from_str("/") });
    let mut line = String::from_str("oc login https://");
    line.append(endpoint);
    line.append(" --token=");
    line.append(token);
    commands.push(Command { line, directory: String::from_str(path) });
    let mut line = String::from_str("mkdir ");
    line.append(path);
    line.append("/");
    line.append(project);
    commands.push(Command { line, directory: String::from_str(path) });
    let mut line = String::from_str("oc project ");
    line.append(project);
    commands.push(Command { line, directory: String::from_str(path) });
    commands.push(
        Command { line: export_one("all", "project", project), directory: String::from_str(path) },
    );
    let ghost opening = export_opening(project@, path@, endpoint@, token@);
    assert(command_views(commands@) =~= opening);
    let kinds = kinds();
    let ghost wanted = exported_kinds().map_values(
        |kind: Seq<char>| CommandView { line: export_line(kind, kind, project@), directory: path@ },
    );
    let mut i: usize = 0;
    assert(opening + wanted.take(0) =~= opening);
    while i < kinds.len()
        invariant
            i <= kinds@.len(),
            kinds@.len() == 19,
            kinds@.map_values(|kind: &'static str| kind@) == exported_kinds(),
            wanted == exported_kinds().map_values(
                |kind: Seq<char>|
                    CommandView { line: export_line(kind, kind, project@), directory: path@ },
            ),
            opening.len() == 5,
            command_views(commands@) == opening + wanted.take(i as int),
        decreases kinds@.len() - i,
    {
        let kind = kinds[i];
        let ghost before = commands@;
        assert(kind@ == exported_kinds()[i as int]) by {
            assert(kinds@.map_values(|kind: &'static str| kind@)[i as int] == kinds@[i as int]@);
        }
        commands.push(
            Command { line: export_one(kind, kind, project), directory: String::from_str(path) },
        );
        assert(command_views(commands@) =~= command_views(before).push(wanted[i as int]));
        assert(command_views(commands@) =~= opening + wanted.take(i + 1));
        i = i + 1;
    }
    assert(wanted.take(i as int) =~= wanted);
    let ghost before = commands@;
    let mut line = String::from_str("zip -r ");
    line.append(project);
    line.append(".zip ");
    line.append(project);
    commands.push(Command { line, directory: String::from_str(path) });
    assert(command_views(commands@) =~= command_views(before).push(
        CommandView { line: "zip -r "@ + project@ + ".zip "@ + project@, directory: path@ },
    ));
    assert(command_views(commands@) =~= export_commands(project@, path@, endpoint@, token@));
    commands
}

} // verus!
