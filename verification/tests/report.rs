use shelflife::clock::Timestamp;
use shelflife::cull::{assess, check_expiry_dates, report_mail, report_table, CullError};
use shelflife::listing::{draw_db, shorten, view_db};
use shelflife::notice::Postbox;
use shelflife::policy::{Action, ReportRow, Settings};
use shelflife::protocol::DBItem;
use shelflife::store::Collection;
use shelflife::table::{draw, show};
use shelflife::tier::Tier;

const WEEK: i64 = 604_800;
/// 1 October 2019, noon.
const NOW: Timestamp = Timestamp { secs: 1_569_931_200, nanos: 0, offset: 0 };

fn settings() -> Settings {
    Settings {
        endpoint: "okd.example".to_string(),
        post: Postbox {
            address: "shelflife@example.org".to_string(),
            domain: "example.org".to_string(),
            send_mail: true,
            notify_root: false,
        },
        root_address: "ops".to_string(),
    }
}

fn weeks_ago(weeks: i64) -> String {
    chrono::DateTime::from_timestamp(NOW.secs - weeks * WEEK, 0).unwrap().to_rfc2822()
}

fn record(name: &str, admins: &[&str], discovered: i64, updated: i64) -> DBItem {
    DBItem {
        name: name.to_string(),
        admins: admins.iter().map(|a| a.to_string()).collect(),
        discovery_date: weeks_ago(discovered),
        last_update: weeks_ago(updated),
        cause: "Build".to_string(),
    }
}

fn kinds(actions: &[Action]) -> Vec<&'static str> {
    actions
        .iter()
        .map(|a| match a {
            Action::Export { .. } => "export",
            Action::DeleteProject { .. } => "delete",
            Action::RemoveRecord { .. } => "forget",
            Action::SpinDown { .. } => "spin-down",
            Action::Scale { .. } => "scale",
            Action::Notify { .. } => "notify",
        })
        .collect()
}

#[test]
fn thirty_weeks_idle_is_archived() {
    let records = vec![record("A", &["alice", "bob"], 30, 30)];
    let plan = check_expiry_dates(&records, Collection::Track, NOW, false, true, &settings()).unwrap();
    assert_eq!(plan.outcomes.len(), 1);
    assert_eq!(
        kinds(&plan.outcomes[0].actions),
        vec!["export", "delete", "forget", "notify", "notify"]
    );
    assert_eq!(plan.outcomes[0].row.as_ref().unwrap().action, Tier::Archive);
    assert_eq!(plan.outcomes[0].row.as_ref().unwrap().age_weeks, 30);
}

#[test]
fn thirteen_weeks_idle_is_nudged() {
    let records = vec![record("B", &["alice", "root", "bob"], 13, 13)];
    let plan = check_expiry_dates(&records, Collection::Track, NOW, false, false, &settings()).unwrap();
    assert_eq!(kinds(&plan.outcomes[0].actions), vec!["notify", "notify"]);
    assert_eq!(plan.outcomes[0].row, None);
    assert_eq!(plan.report, None);
}

#[test]
fn later_of_discovery_and_update_sets_the_age() {
    // Discovered long ago, active recently.
    let plan = check_expiry_dates(&vec![record("a", &["x"], 40, 2)], Collection::Track, NOW, false, true, &settings())
        .unwrap();
    assert!(plan.outcomes[0].actions.is_empty());
    // Active long ago, discovered recently.
    let plan = check_expiry_dates(&vec![record("a", &["x"], 2, 40)], Collection::Track, NOW, false, true, &settings())
        .unwrap();
    assert!(plan.outcomes[0].actions.is_empty());
    // Both long ago: the later one counts.
    let plan = check_expiry_dates(&vec![record("a", &["x"], 40, 17)], Collection::Track, NOW, false, true, &settings())
        .unwrap();
    assert_eq!(plan.outcomes[0].row.as_ref().unwrap().action, Tier::SpinDown);
    assert_eq!(plan.outcomes[0].row.as_ref().unwrap().age_weeks, 17);
}

#[test]
fn tier_boundaries_hold_for_stored_dates() {
    let tier_at = |weeks: i64, extra_secs: i64| {
        let now = Timestamp { secs: NOW.secs + extra_secs, nanos: 0, offset: 0 };
        let plan =
            check_expiry_dates(&vec![record("a", &[], weeks, weeks)], Collection::Track, now, true, true, &settings())
                .unwrap();
        plan.outcomes[0].row.as_ref().map(|r| r.action)
    };
    assert_eq!(tier_at(12, 0), None);
    assert_eq!(tier_at(12, 1), Some(Tier::Nudge));
    assert_eq!(tier_at(16, 0), Some(Tier::Nudge));
    assert_eq!(tier_at(16, 1), Some(Tier::SpinDown));
    assert_eq!(tier_at(24, 0), Some(Tier::SpinDown));
    assert_eq!(tier_at(24, 1), Some(Tier::Archive));
}

#[test]
fn unreadable_discovery_date_falls_back_to_last_update() {
    let mut old = record("a", &["x"], 1, 30);
    old.discovery_date = "MISSING!".to_string();
    let plan = check_expiry_dates(&vec![old], Collection::Track, NOW, false, true, &settings()).unwrap();
    assert_eq!(plan.outcomes[0].row.as_ref().unwrap().action, Tier::Archive);
}

#[test]
fn unreadable_last_update_ends_the_pass() {
    let mut bad = record("broken", &["x"], 1, 30);
    bad.last_update = "not a date".to_string();
    let records = vec![record("fine", &["x"], 30, 30), bad, record("later", &["x"], 30, 30)];
    for dry_run in [false, true] {
        assert_eq!(
            check_expiry_dates(&records, Collection::Track, NOW, dry_run, true, &settings()),
            Err(CullError { index: 1, name: "broken".to_string() })
        );
    }
    assert_eq!(
        view_db(&records, NOW),
        Err(CullError { index: 1, name: "broken".to_string() })
    );
    assert_eq!(draw_db(&records, NOW), Err(CullError { index: 1, name: "broken".to_string() }));
}

#[test]
fn dry_run_pass_takes_no_step_but_reports() {
    let records = vec![
        record("A", &["alice"], 30, 30),
        record("B", &["bob"], 13, 13),
        record("C", &["carol"], 17, 17),
        record("D", &["dave"], 1, 1),
    ];
    let plan = check_expiry_dates(&records, Collection::Track, NOW, true, true, &settings()).unwrap();
    assert_eq!(plan.outcomes.len(), 4);
    assert!(plan.outcomes.iter().all(|o| o.actions.is_empty()));
    let report = plan.report.unwrap();
    assert_eq!(report.to, "ops@example.org");
    assert_eq!(report.name, "ops");
    assert_eq!(report.from, "shelflife@example.org");
    assert_eq!(report.subject, "ShelfLife Report");
    assert_eq!(
        report.body,
        "Hello! ShelfLife is going to take the following actions against these projects soon. If this doesn't look right, hop on a console and fix it! \n \
+-----------+-----------+-----+-----------+\n\
| Namespace | Admins    | Age | Action    |\n\
+-----------+-----------+-----+-----------+\n\
| A         | [\"alice\"] | 30  | Archive   |\n\
+-----------+-----------+-----+-----------+\n\
| B         | [\"bob\"]   | 13  | Nudge     |\n\
+-----------+-----------+-----+-----------+\n\
| C         | [\"carol\"] | 17  | Spin-Down |\n\
+-----------+-----------+-----+-----------+\n"
    );
    let plan =
        check_expiry_dates(&records, Collection::Track, NOW, true, false, &settings()).unwrap();
    assert!(plan.outcomes.iter().all(|o| o.actions.is_empty()));
    assert_eq!(plan.report, None);
    assert_eq!(plan.table, report_table(&vec![]));
}

#[test]
fn plan_carries_the_table_of_its_report() {
    let records = vec![record("A", &["alice"], 30, 30), record("D", &["dave"], 1, 1)];
    let plan = check_expiry_dates(&records, Collection::Track, NOW, false, true, &settings()).unwrap();
    assert_eq!(
        plan.table,
        "+-----------+-----------+-----+---------+\n\
| Namespace | Admins    | Age | Action  |\n\
+-----------+-----------+-----+---------+\n\
| A         | [\"alice\"] | 30  | Archive |\n\
+-----------+-----------+-----+---------+\n"
    );
    assert!(plan.report.unwrap().body.ends_with(&plan.table));
}

#[test]
fn report_after_a_real_pass_says_what_was_done() {
    let rows = vec![ReportRow {
        name: "A".to_string(),
        admins: vec![],
        age_weeks: 25,
        action: Tier::Archive,
    }];
    let report = report_mail(&rows, false, &settings());
    assert_eq!(
        report.body,
        "Hello! ShelfLife has just taken the following actions against these projects. If something doesn't look right, please direct a complaint to /dev/null on any user machine. Thank you for using ShelfLife! Get a job, or get D E L E T E D. \n \
+-----------+--------+-----+---------+\n\
| Namespace | Admins | Age | Action  |\n\
+-----------+--------+-----+---------+\n\
| A         | []     | 25  | Archive |\n\
+-----------+--------+-----+---------+\n"
    );
}

#[test]
fn empty_collection_gives_an_empty_plan() {
    let plan = check_expiry_dates(&vec![], Collection::Track, NOW, false, true, &settings()).unwrap();
    assert!(plan.outcomes.is_empty());
    let report = plan.report.unwrap();
    assert!(report.body.ends_with(
        " \n +-----------+--------+-----+--------+\n| Namespace | Admins | Age | Action |\n+-----------+--------+-----+--------+\n"
    ));
}

#[test]
fn assess_measures_age_once_at_now() {
    let rec = record("A", &["alice"], 30, 30);
    let discovery = Timestamp { secs: NOW.secs - 30 * WEEK, nanos: 0, offset: 0 };
    let outcome =
        assess(&rec, Some(discovery), discovery, NOW, Collection::Track, false, true, &settings());
    assert_eq!(kinds(&outcome.actions), vec!["export", "delete", "forget", "notify"]);
    let outcome =
        assess(&rec, Some(discovery), discovery, NOW, Collection::Track, true, true, &settings());
    assert!(outcome.actions.is_empty());
    assert_eq!(outcome.row.unwrap().age_weeks, 30);
}

#[test]
fn records_dated_ahead_of_now_are_fresh() {
    let ancient = DBItem {
        name: "old".to_string(),
        admins: vec!["alice".to_string()],
        discovery_date: "Thu, 1 Jan 1970 00:00:00 +0000".to_string(),
        last_update: "Thu, 1 Jan 1970 00:00:00 +0000".to_string(),
        cause: "Creation".to_string(),
    };
    let ahead = DBItem {
        name: "new".to_string(),
        admins: vec!["bob".to_string()],
        discovery_date: "Fri, 31 Dec 9999 00:00:00 +0000".to_string(),
        last_update: "Thu, 1 Jan 1970 00:00:00 +0000".to_string(),
        cause: "Creation".to_string(),
    };
    let plan = check_expiry_dates(
        &vec![ancient, ahead],
        Collection::Track,
        NOW,
        false,
        true,
        &settings(),
    )
    .unwrap();
    assert_eq!(kinds(&plan.outcomes[0].actions), vec!["export", "delete", "forget", "notify"]);
    assert!(plan.outcomes[1].actions.is_empty());
    assert_eq!(plan.outcomes[1].row, None);
    assert!(plan.report.is_some());
}

#[test]
fn dates_are_shortened_to_day_month_and_year() {
    assert_eq!(shorten("Tue, 1 Oct 2019 12:00:00 +0000"), "1 Oct 2019 1");
    assert_eq!(shorten("Tue, 15 Oct 2019 12:00:00 +0000"), "15 Oct 2019 ");
    assert_eq!(shorten(""), "unknown");
    assert_eq!(shorten("MISSING!"), "unknown");
    assert_eq!(shorten("0123456789abcdefg"), "56789abcdefg");
    assert_eq!(shorten("0123456789abcdef"), "unknown");
}

#[test]
fn listing_shows_every_record_under_the_headings() {
    let records = vec![record("A", &["alice"], 30, 31), record("B", &[], 2, 1)];
    let cells = view_db(&records, NOW).unwrap();
    assert_eq!(cells.len(), 3);
    assert_eq!(
        cells[0],
        vec!["Namespace", "Admins", "Discovery Date", "Last Update", "Weeks Spent", "Cause"]
    );
    assert_eq!(cells[1][0], "A");
    assert_eq!(cells[1][1], "[\"alice\"]");
    assert_eq!(cells[1][2], shorten(&records[0].discovery_date));
    assert_eq!(cells[1][3], shorten(&records[0].last_update));
    assert_eq!(cells[1][4], "30");
    assert_eq!(cells[1][5], "Build");
    assert_eq!(cells[2][4], "1");
    assert_eq!(view_db(&vec![], NOW).unwrap().len(), 1);
}

#[test]
fn table_is_drawn_with_borders() {
    let rows = vec![
        ReportRow { name: "a".to_string(), admins: vec![], age_weeks: -1, action: Tier::Nudge },
        ReportRow {
            name: "long-name".to_string(),
            admins: vec!["x".to_string(), "y\"z".to_string()],
            age_weeks: 1234,
            action: Tier::SpinDown,
        },
    ];
    assert_eq!(
        report_table(&rows),
        "+-----------+---------------+------+-----------+\n\
| Namespace | Admins        | Age  | Action    |\n\
+-----------+---------------+------+-----------+\n\
| a         | []            | -1   | Nudge     |\n\
+-----------+---------------+------+-----------+\n\
| long-name | [\"x\", \"y\\\"z\"] | 1234 | Spin-Down |\n\
+-----------+---------------+------+-----------+\n"
    );
    let drawn = draw_db(&vec![record("A", &["alice"], 3, 3)], NOW).unwrap();
    assert!(drawn.contains("| Namespace | Admins    |"));
    assert!(drawn.contains("| A         | [\"alice\"] |"));
}

#[test]
fn terminal_escapes_are_not_drawn() {
    assert_eq!(show("plain"), "plain");
    assert_eq!(show(""), "");
    assert_eq!(show("\u{1b}[31mred\u{1b}[0m"), "?[31mred?[0m");
    assert_eq!(show("\u{1b}\u{1b}"), "??");
    // Texts that are narrower than the number of their characters.
    let narrow = "\u{1b}[\u{644}\u{627}\u{644}\u{627}";
    let family = "\u{1b}[\u{1f468}\u{200d}\u{1f469}\u{200d}\u{1f467}\u{200d}\u{1f466}";
    assert_eq!(show(narrow), "?[\u{644}\u{627}\u{644}\u{627}");
    for text in [narrow, family, "\u{1b}", "\u{1b}[", "a\u{1b}[mb"] {
        let drawn = draw(&vec![vec![text.to_string()]]);
        assert!(!drawn.contains('\u{1b}'));
        assert!(drawn.contains(show(text).as_str()));
        assert_eq!(drawn, draw(&vec![vec![show(text)]]));
    }
    assert_eq!(draw(&vec![vec!["a\u{1b}b".to_string()]]), "+-----+\n| a?b |\n+-----+\n");
}

#[test]
fn records_with_terminal_escapes_are_reported_and_listed() {
    let mut odd = record("A", &["al\u{1b}ice"], 30, 30);
    odd.name = "\u{1b}[\u{644}\u{627}\u{644}\u{627}".to_string();
    odd.cause = "\u{1b}[cause".to_string();
    let plan =
        check_expiry_dates(&vec![odd.clone()], Collection::Track, NOW, true, true, &settings())
            .unwrap();
    assert!(plan.table.contains("| ?[\u{644}\u{627}\u{644}\u{627}"));
    assert!(!plan.table.contains('\u{1b}'));
    assert!(plan.report.unwrap().body.ends_with(&plan.table));
    let drawn = draw_db(&vec![odd.clone()], NOW).unwrap();
    assert!(!drawn.contains('\u{1b}'));
    assert!(drawn.contains("?[cause"));
    // The cells themselves are laid out as they are stored.
    assert_eq!(view_db(&vec![odd.clone()], NOW).unwrap()[1][0], odd.name);
}
