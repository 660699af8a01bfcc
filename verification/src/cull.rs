//! One pass over a collection: every record is dated, aged, put in its
//! tier and given its steps, and the pass ends with a report.

use crate::clock::{read_rfc2822, rfc2822_reading, Age, Timestamp};
use crate::notice::{mailbox, Mail, MailView};
use crate::policy::{
    action_views, actions_of, execute, row_of, row_view, ActionView, ExecutionOutcome, ReportRow,
    RowView, Settings, SettingsView,
};
use crate::protocol::{texts, DBItem, RecordView};
use crate::store::Collection;
use crate::table::{draw, grid, plain_cells, table_text};
use crate::text::{copy_texts, debug_list, debug_text, decimal, decimal_of};
use crate::tier::{classify, effective_age, idle_at, tier_of};
use vstd::prelude::*;
use vstd::string::StringExecFns;

verus! {

/// How the report begins when its steps are still to come.
pub const REPORT_AHEAD: &'static str =
    "Hello! ShelfLife is going to take the following actions against these projects soon. If this doesn't look right, hop on a console and fix it!";

/// How the report begins when its steps have been taken.
pub const REPORT_DONE: &'static str =
    "Hello! ShelfLife has just taken the following actions against these projects. If something doesn't look right, please direct a complaint to /dev/null on any user machine. Thank you for using ShelfLife! Get a job, or get D E L E T E D.";

/// Subject of the report.
pub const REPORT_SUBJECT: &'static str = "ShelfLife Report";

/// What stands between the opening of the report and its table.
pub const REPORT_BREAK: &'static str = " \n ";

/// The opening of the report: what will be done in a dry run, what has
/// been done otherwise.
pub open spec fn opening_of(dry_run: bool) -> Seq<char> {
    if dry_run {
        REPORT_AHEAD@
    } else {
        REPORT_DONE@
    }
}

/// The headings of the report's table.
pub open spec fn report_headings() -> Seq<Seq<char>> {
    seq!["Namespace"@, "Admins"@, "Age"@, "Action"@]
}

/// The cells of one line of the report.
pub open spec fn row_cells(row: RowView) -> Seq<Seq<char>> {
    seq![row.name, debug_text(row.admins), decimal_of(row.age_weeks), row.action.label()]
}

/// The cells of the report's table: the headings, then one row for each
/// line.
pub open spec fn report_cells(rows: Seq<RowView>) -> Seq<Seq<Seq<char>>> {
    seq![report_headings()] + rows.map_values(|row: RowView| row_cells(row))
}

/// The report that goes to the operator.
pub open spec fn report_of(rows: Seq<RowView>, dry_run: bool, settings: SettingsView) -> MailView {
    MailView {
        to: mailbox(settings.root_address, settings.post.domain),
        name: settings.root_address,
        from: settings.post.address,
        subject: REPORT_SUBJECT@,
        body: opening_of(dry_run) + REPORT_BREAK@ + table_text(plain_cells(report_cells(rows))),
    }
}

/// The lines of a list.
pub open spec fn row_views(rows: Seq<ReportRow>) -> Seq<RowView> {
    rows.map_values(|row: ReportRow| row@)
}

/// Draws the table of the report: the lines under their headings, each
/// cell as [`plain_cells`] shows it.
pub fn report_table(rows: &Vec<ReportRow>) -> (text: String)
    ensures
        text@ == table_text(plain_cells(report_cells(row_views(rows@)))),
{
    let mut cells: Vec<Vec<String>> = Vec::new();
    let mut headings: Vec<String> = Vec::new();
    headings.push(String::from_str("Namespace"));
    headings.push(String::from_str("Admins"));
    headings.push(String::from_str("Age"));
    headings.push(String::from_str("Action"));
    assert(texts(headings@) =~= report_headings());
    cells.push(headings);
    let ghost wanted = row_views(rows@);
    assert(grid(cells@) =~= report_cells(wanted.take(0)));
    let mut i: usize = 0;
    while i < rows.len()
        invariant
            i <= rows@.len(),
            wanted == row_views(rows@),
            grid(cells@) == report_cells(wanted.take(i as int)),
        decreases rows@.len() - i,
    {
        let row = &rows[i];
        let mut line: Vec<String> = Vec::new();
        line.push(row.name.clone());
        line.push(debug_list(&row.admins));
        line.push(decimal(row.age_weeks));
        line.push(String::from_str(row.action.action_name()));
        assert(texts(line@) =~= row_cells(row@));
        let ghost before = cells@;
        cells.push(line);
        assert(grid(cells@) =~= grid(before).push(row_cells(wanted[i as int])));
        assert(grid(cells@) =~= report_cells(wanted.take(i + 1)));
        i = i + 1;
    }
    assert(wanted.take(i as int) =~= wanted);
    draw(&cells)
}

/// Writes the report for the operator: the opening, then the table of the
/// lines under its headings.
pub fn report_mail(rows: &Vec<ReportRow>, dry_run: bool, settings: &Settings) -> (mail: Mail)
    ensures
        mail@ == report_of(row_views(rows@), dry_run, settings@),
{
    let mut to = settings.root_address.clone();
    to.append("@");
    to.append(settings.post.domain.as_str());
    let mut body = String::from_str(if dry_run {
        REPORT_AHEAD
    } else {
        REPORT_DONE
    });
    body.append(REPORT_BREAK);
    body.append(report_table(rows).as_str());
    Mail {
        to,
        name: settings.root_address.clone(),
        from: settings.post.address.clone(),
        subject: String::from_str(REPORT_SUBJECT),
        body,
    }
}

/// The steps of one record whose dates have been read: its idle time at
/// `now` gives the tier, the tier gives the steps.
pub open spec fn assessed_actions(
    record: RecordView,
    discovery: Option<Timestamp>,
    last_update: Timestamp,
    now: Timestamp,
    collection: Collection,
    dry_run: bool,
    settings: SettingsView,
) -> Seq<ActionView> {
    actions_of(
        record,
        tier_of(idle_at(discovery, last_update, now)),
        collection,
        dry_run,
        settings,
    )
}

/// The line of one record whose dates have been read.
pub open spec fn assessed_row(
    record: RecordView,
    discovery: Option<Timestamp>,
    last_update: Timestamp,
    now: Timestamp,
    report: bool,
) -> Option<RowView> {
    row_of(
        record,
        tier_of(idle_at(discovery, last_update, now)),
        Age { nanos: idle_at(discovery, last_update, now) as i128 },
        report,
    )
}

/// Decides what is done about one record, given the two dates read from
/// it. The idle time is measured once, at `now`, and the tier follows from
/// it alone.
pub fn assess(
    record: &DBItem,
    discovery: Option<Timestamp>,
    last_update: Timestamp,
    now: Timestamp,
    collection: Collection,
    dry_run: bool,
    report: bool,
    settings: &Settings,
) -> (outcome: ExecutionOutcome)
    ensures
        action_views(outcome.actions@) == assessed_actions(
            record@,
            discovery,
            last_update,
            now,
            collection,
            dry_run,
            settings@,
        ),
        row_view(outcome.row) == assessed_row(record@, discovery, last_update, now, report),
        dry_run ==> outcome.actions@.len() == 0,
{
    let idle = effective_age(discovery, last_update, now);
    let tier = classify(idle);
    execute(record, tier, idle, collection, dry_run, report, settings)
}

/// Whether the date of the last update can be read from a record. Without
/// it a record has no age.
pub open spec fn is_dated(record: RecordView) -> bool {
    rfc2822_reading(record.last_update) is Some
}

/// The steps of one record at `now`, its dates read from their text. A
/// discovery date that cannot be read counts as unknown.
pub open spec fn record_actions(
    record: RecordView,
    now: Timestamp,
    collection: Collection,
    dry_run: bool,
    settings: SettingsView,
) -> Seq<ActionView> {
    assessed_actions(
        record,
        rfc2822_reading(record.discovery_date),
        rfc2822_reading(record.last_update).unwrap(),
        now,
        collection,
        dry_run,
        settings,
    )
}

/// The line of one record at `now`, its dates read from their text.
pub open spec fn record_row(record: RecordView, now: Timestamp, report: bool) -> Option<RowView> {
    assessed_row(
        record,
        rfc2822_reading(record.discovery_date),
        rfc2822_reading(record.last_update).unwrap(),
        now,
        report,
    )
}

/// The lines that the records of a collection get in the report, in
/// their order.
pub open spec fn lines_of(records: Seq<DBItem>, now: Timestamp, report: bool) -> Seq<RowView>
    decreases records.len(),
{
    if records.len() == 0 {
        Seq::empty()
    } else {
        let before = lines_of(records.drop_last(), now, report);
        match record_row(records.last()@, now, report) {
            Some(row) => before.push(row),
            None => before,
        }
    }
}

/// Whether a record lacks a readable last update while all before it have
/// one, and an error names it.
pub open spec fn is_first_undated(records: Seq<DBItem>, e: CullError) -> bool {
    &&& e.index < records.len()
    &&& !is_dated(records[e.index as int]@)
    &&& forall|k: int| 0 <= k < e.index ==> is_dated(#[trigger] records[k]@)
    &&& e.name@ == records[e.index as int].name@
}

/// A record without a readable last update, which ends the pass.
#[derive(Debug, Clone, PartialEq, Eq)]
pub struct CullError {
    /// Position of the record in the collection.
    pub index: usize,
    /// Name of the namespace.
    pub name: String,
}

/// What a pass decided: for each record its steps and its line, and the
/// report for the operator where one was asked for.
#[derive(Debug, Clone, PartialEq, Eq)]
pub struct CullPlan {
    /// One outcome for each record, in the order of the collection.
    pub outcomes: Vec<ExecutionOutcome>,
    /// The report, sent once when the steps of all records are through.
    pub report: Option<Mail>,
    /// The table of the report, drawn whether or not the report is sent.
    pub table: String,
}

/// The report of a plan, if it has one.
pub open spec fn mail_view(mail: Option<Mail>) -> Option<MailView> {
    match mail {
        Some(m) => Some(m@),
        None => None,
    }
}

/// Whether a result is what a pass over these records at `now` gives.
///
/// The pass fails at the first record whose last update cannot be read.
/// Otherwise every record has the outcome that [`assess`] gives it, the
/// report lists the lines of all records in their order, and the table
/// is drawn of the same lines.
pub open spec fn is_pass(
    result: Result<CullPlan, CullError>,
    records: Seq<DBItem>,
    collection: Collection,
    now: Timestamp,
    dry_run: bool,
    report: bool,
    settings: SettingsView,
) -> bool {
    match result {
        Ok(plan) => {
            &&& forall|k: int| 0 <= k < records.len() ==> is_dated(#[trigger] records[k]@)
            &&& plan.outcomes@.len() == records.len()
            &&& forall|k: int|
                0 <= k < records.len() ==> action_views((#[trigger] plan.outcomes@[k]).actions@)
                    == record_actions(records[k]@, now, collection, dry_run, settings)
            &&& forall|k: int|
                0 <= k < records.len() ==> row_view((#[trigger] plan.outcomes@[k]).row)
                    == record_row(records[k]@, now, report)
            &&& mail_view(plan.report) == if report {
                Some(report_of(lines_of(records, now, report), dry_run, settings))
            } else {
                None
            }
            &&& plan.table@ == table_text(
                plain_cells(report_cells(lines_of(records, now, report))),
            )
        },
        Err(e) => is_first_undated(records, e),
    }
}

/// Goes through a collection at `now` and decides what is done about each
/// record.
///
/// The pass fails at the first record whose last update cannot be read,
/// and then hands out no step at all. In a dry run no record gets a step;
/// the report, which changes nothing on the platform or in the store, is
/// still written.
pub fn check_expiry_dates(
    records: &Vec<DBItem>,
    collection: Collection,
    now: Timestamp,
    dry_run: bool,
    report: bool,
    settings: &Settings,
) -> (result: Result<CullPlan, CullError>)
    ensures
        is_pass(result, records@, collection, now, dry_run, report, settings@),
        result is Ok <==> forall|k: int|
            0 <= k < records@.len() ==> is_dated(#[trigger] records@[k]@),
        result matches Ok(plan) ==> (dry_run ==> forall|k: int|
            0 <= k < records@.len() ==> (#[trigger] plan.outcomes@[k]).actions@.len() == 0),
{
    let mut outcomes: Vec<ExecutionOutcome> = Vec::new();
    let mut rows: Vec<ReportRow> = Vec::new();
    let mut i: usize = 0;
    assert(records@.take(0) =~= Seq::<DBItem>::empty());
    assert(row_views(rows@) =~= lines_of(records@.take(0), now, report));
    while i < records.len()
        invariant
            i <= records@.len(),
            outcomes@.len() == i,
            forall|k: int| 0 <= k < i ==> is_dated(#[trigger] records@[k]@),
            forall|k: int|
                0 <= k < i ==> action_views((#[trigger] outcomes@[k]).actions@) == record_actions(
                    records@[k]@,
                    now,
                    collection,
                    dry_run,
                    settings@,
                ),
            forall|k: int|
                0 <= k < i ==> row_view((#[trigger] outcomes@[k]).row) == record_row(
                    records@[k]@,
                    now,
                    report,
                ),
            dry_run ==> forall|k: int| 0 <= k < i ==> (#[trigger] outcomes@[k]).actions@.len() == 0,
            row_views(rows@) == lines_of(records@.take(i as int), now, report),
        decreases records@.len() - i,
    {
        let record = &records[i];
        let last_update = match read_rfc2822(record.last_update.as_str()) {
            Ok(t) => t,
            Err(_) => {
                assert(!is_dated(records@[i as int]@));
                return Err(CullError { index: i, name: record.name.clone() });
            },
        };
        let discovery = match read_rfc2822(record.discovery_date.as_str()) {
            Ok(t) => Some(t),
            Err(_) => None,
        };
        let outcome = assess(
            record,
            discovery,
            last_update,
            now,
            collection,
            dry_run,
            report,
            settings,
        );
        proof {
            assert(records@.take(i + 1).drop_last() =~= records@.take(i as int));
            assert(records@.take(i + 1).last() == *record);
        }
        match &outcome.row {
            Some(row) => {
                let ghost before = rows@;
                let line = ReportRow {
                    name: row.name.clone(),
                    admins: copy_texts(&row.admins),
                    age_weeks: row.age_weeks,
                    action: row.action,
                };
                assert(line@ == row@);
                rows.push(line);
                assert(row_views(rows@) =~= row_views(before).push(row@));
            },
            None => {},
        }
        outcomes.push(outcome);
        i = i + 1;
    }
    assert(records@.take(i as int) =~= records@);
    let report_out = if report {
        Some(report_mail(&rows, dry_run, settings))
    } else {
        None
    };
    Ok(CullPlan { outcomes, report: report_out, table: report_table(&rows) })
}

} // verus!
