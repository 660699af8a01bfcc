use shelflife::api::{
    bearer_header, builds_address, check_status, deployments_address, explain_status,
    get_namespaces, project_address, projects_address, reply_kind, rolebindings_address,
    scale_address, scale_document, ApiError, Reply, BAD_NAMESPACE, BAD_TOKEN,
};
use shelflife::config::{
    check_env, required_variables, settings_from, switch, ConfigError, Variable,
};
use shelflife::export::{export_project, kinds};
use shelflife::protocol::{DBItem, ProjectItem, ProjectMetadata, ProjectResponse};
use shelflife::store::Collection;
use shelflife::text::{copy_texts, decimal, digits, same_text, strip_quotes};

#[test]
fn same_text_compares_characters() {
    assert!(same_text("", ""));
    assert!(same_text("admin", "admin"));
    assert!(!same_text("admin", "admim"));
    assert!(!same_text("admin", "admins"));
    assert!(!same_text("", "a"));
    assert!(same_text("grüße", "grüße"));
    assert!(!same_text("grüße", "grusse"));
}

#[test]
fn strip_quotes_removes_every_quotation_mark() {
    assert_eq!(strip_quotes("\"alice\""), "alice");
    assert_eq!(strip_quotes("a\"b\"c"), "abc");
    assert_eq!(strip_quotes("plain"), "plain");
    assert_eq!(strip_quotes(""), "");
    assert_eq!(strip_quotes("\"\"\""), "");
    assert_eq!(strip_quotes("'single'"), "'single'");
    assert_eq!(strip_quotes("\"zoë\""), "zoë");
}

#[test]
fn decimal_writes_numbers_as_std_does() {
    for n in [0i64, 1, 9, 10, 11, 99, 100, 105, 1000, 4096, -1, -10, -105, i64::MAX, i64::MIN] {
        assert_eq!(decimal(n), n.to_string());
    }
    assert_eq!(decimal(30), "30");
    assert_eq!(decimal(-7), "-7");
    assert_eq!(digits(0), "0");
    assert_eq!(digits(1_000_000), "1000000");
    assert_eq!(digits(u64::MAX), "18446744073709551615");
}

#[test]
fn addresses_are_built_from_endpoint_and_namespace() {
    assert_eq!(projects_address("okd.example"), "https://okd.example/apis/project.openshift.io/v1/projects");
    assert_eq!(
        project_address("okd.example", "demo"),
        "https://okd.example/apis/project.openshift.io/v1/projects/demo"
    );
    assert_eq!(
        builds_address("okd.example", "demo"),
        "https://okd.example/apis/build.openshift.io/v1/namespaces/demo/builds"
    );
    assert_eq!(
        deployments_address("okd.example", "demo"),
        "https://okd.example/apis/apps.openshift.io/v1/namespaces/demo/deploymentconfigs"
    );
    assert_eq!(
        rolebindings_address("okd.example", "demo"),
        "https://okd.example/apis/authorization.openshift.io/v1/namespaces/demo/rolebindings"
    );
    assert_eq!(
        scale_address("okd.example", "demo", "web"),
        "https://okd.example/oapi/v1/namespaces/demo/deploymentconfigs/web/scale"
    );
}

#[test]
fn scale_document_asks_for_zero_replicas() {
    assert_eq!(
        scale_document("web", "demo"),
        "{\"apiVersion\":\"extensions/v1beta1\",\"kind\":\"Scale\",\"metadata\":{\"name\":\"web\",\"namespace\":\"demo\"},\"spec\":{\"replicas\":0}}"
    );
}

#[test]
fn bearer_header_carries_the_token() {
    assert_eq!(bearer_header("s3cr3t"), "Bearer s3cr3t");
    assert_eq!(bearer_header(""), "Bearer ");
}

#[test]
fn only_status_200_is_accepted() {
    assert_eq!(check_status("https://x/y", 200), Ok(()));
    for status in [0u16, 199, 201, 204, 301, 403, 404, 500, u16::MAX] {
        assert_eq!(
            check_status("https://x/y", status),
            Err(ApiError { call: "https://x/y".to_string(), status })
        );
    }
}

#[test]
fn api_error_names_call_and_status() {
    let e = ApiError { call: "https://x/y".to_string(), status: 404 };
    assert_eq!(e.message(), "Error! Could not run API call. Call: https://x/y, Code: 404");
}

#[test]
fn replies_are_told_apart_by_status() {
    assert_eq!(reply_kind(200), Reply::Accepted);
    assert_eq!(reply_kind(403), Reply::Forbidden);
    assert_eq!(reply_kind(404), Reply::Failed);
    assert_eq!(reply_kind(500), Reply::Failed);
    assert_eq!(explain_status(200), None);
    assert_eq!(explain_status(403), Some(BAD_TOKEN));
    assert_eq!(explain_status(404), Some(BAD_NAMESPACE));
    assert_eq!(
        BAD_TOKEN,
        "Error! Could not fetch namespace information. Bad API token?"
    );
}

#[test]
fn namespaces_are_the_names_of_the_listing() {
    let item = |name: &str| ProjectItem {
        metadata: ProjectMetadata {
            name: name.to_string(),
            creation_timestamp: "2019-10-01T12:00:00Z".to_string(),
        },
    };
    let listing = ProjectResponse { items: vec![item("b"), item("a"), item("b")] };
    assert_eq!(get_namespaces(&listing), vec!["b".to_string(), "a".to_string(), "b".to_string()]);
    assert_eq!(get_namespaces(&ProjectResponse { items: vec![] }), Vec::<String>::new());
}

#[test]
fn collections_have_two_names_each() {
    assert_eq!(Collection::from_name("track"), Some(Collection::Track));
    assert_eq!(Collection::from_name("graylist"), Some(Collection::Track));
    assert_eq!(Collection::from_name("ignore"), Some(Collection::Ignore));
    assert_eq!(Collection::from_name("whitelist"), Some(Collection::Ignore));
    assert_eq!(Collection::from_name("Track"), None);
    assert_eq!(Collection::from_name(""), None);
    assert_eq!(Collection::Track.name(), "track");
    assert_eq!(Collection::Ignore.name(), "ignore");
    assert_eq!(Collection::from_name(Collection::Track.name()), Some(Collection::Track));
    assert_eq!(Collection::from_name(Collection::Ignore.name()), Some(Collection::Ignore));
    assert_eq!(Collection::Track.heading(), "Tracked projects:");
    assert_eq!(Collection::Ignore.heading(), "Ignored projects:");
}

fn variable(name: &str, value: Option<&str>) -> Variable {
    Variable { name: name.to_string(), value: value.map(|v| v.to_string()) }
}

#[test]
fn complete_configuration_is_accepted() {
    let all: Vec<Variable> =
        required_variables().iter().map(|name| variable(name, Some("x"))).collect();
    assert_eq!(all.len(), 12);
    assert_eq!(check_env(&all), Ok(()));
    assert_eq!(check_env(&Vec::new()), Ok(()));
}

#[test]
fn first_unset_variable_is_named() {
    let vars = vec![
        variable("OKD_TOKEN", Some("t")),
        variable("DB_ADDR", None),
        variable("DB_PORT", Some("")),
    ];
    assert_eq!(check_env(&vars), Err(ConfigError::Missing { name: "DB_ADDR".to_string() }));
    let vars = vec![
        variable("OKD_TOKEN", Some("t")),
        variable("DB_PORT", Some("")),
        variable("DB_ADDR", None),
    ];
    assert_eq!(check_env(&vars), Err(ConfigError::Empty { name: "DB_PORT".to_string() }));
}

#[test]
fn required_variables_are_the_twelve_of_the_policy() {
    assert_eq!(
        required_variables(),
        vec![
            "ENDPOINT",
            "OKD_TOKEN",
            "DB_ADDR",
            "DB_PORT",
            "SEND_MAIL",
            "MAIL_ROOT",
            "EMAIL_SRV",
            "EMAIL_UNAME",
            "EMAIL_PASSWD",
            "EMAIL_ADDRESS",
            "EMAIL_DOMAIN",
            "BACKUP_PATH"
        ]
    );
}

#[test]
fn endpoint_and_backup_path_must_be_set() {
    for lacking in ["ENDPOINT", "BACKUP_PATH"] {
        let unset: Vec<Variable> = required_variables()
            .iter()
            .map(|name| variable(name, if *name == lacking { None } else { Some("x") }))
            .collect();
        assert_eq!(check_env(&unset), Err(ConfigError::Missing { name: lacking.to_string() }));
        let empty: Vec<Variable> = required_variables()
            .iter()
            .map(|name| variable(name, if *name == lacking { Some("") } else { Some("x") }))
            .collect();
        assert_eq!(check_env(&empty), Err(ConfigError::Empty { name: lacking.to_string() }));
    }
}

#[test]
fn switches_are_on_for_true_only() {
    assert!(switch("true"));
    assert!(!switch("false"));
    assert!(!switch("True"));
    assert!(!switch(""));
    assert!(!switch("yes"));
    let settings = settings_from("okd", "bot@x.org", "x.org", "ops", "true", "nope");
    assert_eq!(settings.endpoint, "okd");
    assert_eq!(settings.post.address, "bot@x.org");
    assert_eq!(settings.post.domain, "x.org");
    assert_eq!(settings.root_address, "ops");
    assert!(settings.post.send_mail);
    assert!(!settings.post.notify_root);
}

#[test]
fn export_runs_twenty_five_commands_in_order() {
    let commands = export_project("demo", "/backup", "okd.example", "tok");
    assert_eq!(commands.len(), 25);
    assert_eq!(commands[0].line, "mkdir /backup");
    assert_eq!(commands[0].directory, "/");
    assert_eq!(commands[1].line, "oc login https://okd.example --token=tok");
    assert_eq!(commands[2].line, "mkdir /backup/demo");
    assert_eq!(commands[3].line, "oc project demo");
    assert_eq!(commands[4].line, "oc get -o yaml --export all > demo/project.yaml");
    assert_eq!(commands[5].line, "oc get -o yaml --export rolebindings > demo/rolebindings.yaml");
    assert_eq!(commands[23].line, "oc get -o yaml --export endpoints > demo/endpoints.yaml");
    assert_eq!(commands[24].line, "zip -r demo.zip demo");
    for command in &commands[1..] {
        assert_eq!(command.directory, "/backup");
    }
    let kinds = kinds();
    assert_eq!(kinds.len(), 19);
    for (i, kind) in kinds.iter().enumerate() {
        assert_eq!(
            commands[5 + i].line,
            format!("oc get -o yaml --export {} > demo/{}.yaml", kind, kind)
        );
    }
}

#[test]
fn record_from_fields_fills_what_is_missing() {
    let record = DBItem::from_fields(
        Some("demo".to_string()),
        Some(vec!["\"alice\"".to_string()]),
        None,
        Some("Tue, 1 Oct 2019 12:00:00 +0000".to_string()),
        None,
    );
    assert_eq!(
        record,
        DBItem {
            name: "demo".to_string(),
            admins: vec!["\"alice\"".to_string()],
            discovery_date: String::new(),
            last_update: "Tue, 1 Oct 2019 12:00:00 +0000".to_string(),
            cause: String::new(),
        }
    );
    let empty = DBItem::from_fields(None, None, None, None, None);
    assert_eq!(empty.name, "");
    assert!(empty.admins.is_empty());
}

#[test]
fn copied_texts_are_the_same_texts() {
    let names = vec!["a".to_string(), "".to_string(), "\"b\"".to_string()];
    assert_eq!(copy_texts(&names), names);
    assert_eq!(copy_texts(&Vec::new()), Vec::<String>::new());
}
