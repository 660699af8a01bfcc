//! What must be configured before any work begins, and how the switches
//! among it are read.

use crate::notice::Postbox;
use crate::policy::Settings;
use crate::text::same_text;
use vstd::prelude::*;
use vstd::string::StringExecFns;

verus! {

/// The text that switches a switch on.
pub const ON: &'static str = "true";

/// One variable of the configuration, as the environment holds it.
#[derive(Debug, Clone, PartialEq, Eq)]
pub struct Variable {
    pub name: String,
    /// What the variable is set to, or `None` where it is not set.
    pub value: Option<String>,
}

/// Why the configuration is not complete.
#[derive(Debug, Clone, PartialEq, Eq)]
pub enum ConfigError {
    /// A variable is not set.
    Missing { name: String },
    /// A variable is set to nothing.
    Empty { name: String },
}

/// The names of the variables that must be set, in the order in which
/// they are checked: where the platform is reached and with which token,
/// where the store is, whether and how mail is sent, and where archives
/// are written.
pub open spec fn required_names() -> Seq<Seq<char>> {
    seq![
        "ENDPOINT"@,
        "OKD_TOKEN"@,
        "DB_ADDR"@,
        "DB_PORT"@,
        "SEND_MAIL"@,
        "MAIL_ROOT"@,
        "EMAIL_SRV"@,
        "EMAIL_UNAME"@,
        "EMAIL_PASSWD"@,
        "EMAIL_ADDRESS"@,
        "EMAIL_DOMAIN"@,
        "BACKUP_PATH"@,
    ]
}

/// Lists the variables that must be set.
pub fn required_variables() -> (names: Vec<&'static str>)
    ensures
        names@.len() == 12,
        names@.map_values(|name: &'static str| name@) == required_names(),
{
    let mut names: Vec<&'static str> = Vec::new();
    names.push("ENDPOINT");
    names.push("OKD_TOKEN");
    names.push("DB_ADDR");
    names.push("DB_PORT");
    names.push("SEND_MAIL");
    names.push("MAIL_ROOT");
    names.push("EMAIL_SRV");
    names.push("EMAIL_UNAME");
    names.push("EMAIL_PASSWD");
    names.push("EMAIL_ADDRESS");
    names.push("EMAIL_DOMAIN");
    names.push("BACKUP_PATH");
    assert(names@.map_values(|name: &'static str| name@) =~= required_names());
    names
}

/// Whether a variable is set to something.
pub open spec fn is_set(variable: Variable) -> bool {
    match variable.value {
        Some(value) => value@.len() > 0,
        None => false,
    }
}

/// Checks that every variable is set to something, and names the first
/// that is not.
pub fn check_env(variables: &Vec<Variable>) -> (result: Result<(), ConfigError>)
    ensures
        result is Ok <==> forall|k: int|
            0 <= k < variables@.len() ==> is_set(#[trigger] variables@[k]),
        result matches Err(e) ==> exists|at: int|
            {
                &&& 0 <= at < variables@.len()
                &&& !is_set(#[trigger] variables@[at])
                &&& forall|k: int| 0 <= k < at ==> is_set(#[trigger] variables@[k])
                &&& match e {
                    ConfigError::Missing { name } => variables@[at].value is None && name@
                        == variables@[at].name@,
                    ConfigError::Empty { name } => variables@[at].value is Some && name@
                        == variables@[at].name@,
                }
            },
{
    let mut i: usize = 0;
    while i < variables.len()
        invariant
            i <= variables@.len(),
            forall|k: int| 0 <= k < i ==> is_set(#[trigger] variables@[k]),
        decreases variables@.len() - i,
    {
        let variable = &variables[i];
        match &variable.value {
            None => {
                assert(!is_set(variables@[i as int]));
                return Err(ConfigError::Missing { name: variable.name.clone() });
            },
            Some(value) => {
                if value.as_str().unicode_len() == 0 {
                    assert(!is_set(variables@[i as int]));
                    return Err(ConfigError::Empty { name: variable.name.clone() });
                }
            },
        }
        i = i + 1;
    }
    Ok(())
}

/// Reads a switch: on for the text `true`, off for anything else.
pub fn switch(value: &str) -> (on: bool)
    ensures
        on == (value@ == ON@),
{
    same_text(value, ON)
}

/// Puts the settings together from the configured texts. The two mail
/// switches are read with [`switch`].
pub fn settings_from(
    endpoint: &str,
    email_address: &str,
    email_domain: &str,
    root_address: &str,
    send_mail: &str,
    mail_root: &str,
) -> (settings: Settings)
    ensures
        settings@.endpoint == endpoint@,
        settings@.post.address == email_address@,
        settings@.post.domain == email_domain@,
        settings@.root_address == root_address@,
        settings@.post.send_mail == (send_mail@ == ON@),
        settings@.post.notify_root == (mail_root@ == ON@),
{
    Settings {
        endpoint: String::from_str(endpoint),
        post: Postbox {
            address: String::from_str(email_address),
            domain: String::from_str(email_domain),
            send_mail: switch(send_mail),
            notify_root: switch(mail_root),
        },
        root_address: String::from_str(root_address),
    }
}

} // verus!
