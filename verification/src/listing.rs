//! The table that shows what a collection holds.

use crate::clock::{read_rfc2822, rfc2822_reading, Age, Timestamp};
use crate::cull::{is_dated, is_first_undated, CullError};
use crate::protocol::{texts, DBItem, RecordView};
use crate::table::{draw, grid, plain_cells, table_text};
use crate::text::{debug_list, debug_text, decimal, decimal_of};
use crate::tier::{effective_age, idle_at};
use vstd::prelude::*;
use vstd::string::StringExecFns;

verus! {

/// What is shown in place of a date that is not there or too short.
pub const UNKNOWN: &'static str = "unknown";

/// The part of a date that is shown: its characters from the sixth to the
/// seventeenth, which in an RFC 2822 text hold the day, the month and the
/// year. A text with fewer characters shows as `unknown`.
pub open spec fn short_date(date: Seq<char>) -> Seq<char> {
    if date.len() >= 17 {
        date.subrange(5, 17)
    } else {
        UNKNOWN@
    }
}

/// The headings of the table.
pub open spec fn listing_headings() -> Seq<Seq<char>> {
    seq![
        "Namespace"@,
        "Admins"@,
        "Discovery Date"@,
        "Last Update"@,
        "Weeks Spent"@,
        "Cause"@,
    ]
}

/// The weeks that a record has been idle at `now`, its dates read from
/// their text.
pub open spec fn weeks_idle(record: RecordView, now: Timestamp) -> int {
    Age {
        nanos: idle_at(
            rfc2822_reading(record.discovery_date),
            rfc2822_reading(record.last_update).unwrap(),
            now,
        ) as i128,
    }.spec_weeks()
}

/// The cells of one record's row.
pub open spec fn listing_row(record: RecordView, now: Timestamp) -> Seq<Seq<char>> {
    seq![
        record.name,
        debug_text(record.admins),
        short_date(record.discovery_date),
        short_date(record.last_update),
        decimal_of(weeks_idle(record, now)),
        record.cause,
    ]
}

/// Cuts a date down to the part that is shown.
pub fn shorten(date: &str) -> (short: String)
    ensures
        short@ == short_date(date@),
{
    if date.unicode_len() >= 17 {
        String::from_str(date.substring_char(5, 17))
    } else {
        String::from_str(UNKNOWN)
    }
}

/// The cells of the table of a collection at `now`: the headings, then
/// one row for each record.
pub open spec fn listing_cells(records: Seq<DBItem>, now: Timestamp) -> Seq<Seq<Seq<char>>> {
    seq![listing_headings()] + records.map_values(|record: DBItem| listing_row(record@, now))
}

/// Lays out a collection as the cells of a table: the headings, then one
/// row for each record, with the weeks it has been idle at `now`. Fails at
/// the first record whose last update cannot be read.
pub fn view_db(
    records: &Vec<DBItem>,
    now: Timestamp,
) -> (result: Result<Vec<Vec<String>>, CullError>)
    ensures
        result is Ok <==> forall|k: int|
            0 <= k < records@.len() ==> is_dated(#[trigger] records@[k]@),
        result matches Ok(cells) ==> grid(cells@) == listing_cells(records@, now),
        result matches Err(e) ==> is_first_undated(records@, e),
{
    let mut cells: Vec<Vec<String>> = Vec::new();
    let mut headings: Vec<String> = Vec::new();
    headings.push(String::from_str("Namespace"));
    headings.push(String::from_str("Admins"));
    headings.push(String::from_str("Discovery Date"));
    headings.push(String::from_str("Last Update"));
    headings.push(String::from_str("Weeks Spent"));
    headings.push(String::from_str("Cause"));
    assert(texts(headings@) =~= listing_headings());
    cells.push(headings);
    assert(grid(cells@) =~= listing_cells(records@.take(0), now));
    let mut i: usize = 0;
    while i < records.len()
        invariant
            i <= records@.len(),
            forall|k: int| 0 <= k < i ==> is_dated(#[trigger] records@[k]@),
            grid(cells@) == listing_cells(records@.take(i as int), now),
        decreases records@.len() - i,
    {
        let record = &records[i];
        let last_update = match read_rfc2822(record.last_update.as_str()) {
            Ok(t) => t,
            Err(_) => {
                assert(!is_dated(records@[i as int]@));
                return Err(CullError { index: i, name: record.name.clone() });
            },
        };
        let discovery = match read_rfc2822(record.discovery_date.as_str()) {
            Ok(t) => Some(t),
            Err(_) => None,
        };
        let idle = effective_age(discovery, last_update, now);
        let mut row: Vec<String> = Vec::new();
        row.push(record.name.clone());
        row.push(debug_list(&record.admins));
        row.push(shorten(record.discovery_date.as_str()));
        row.push(shorten(record.last_update.as_str()));
        row.push(decimal(idle.weeks()));
        row.push(record.cause.clone());
        assert(texts(row@) =~= listing_row(records@[i as int]@, now));
        let ghost before = cells@;
        cells.push(row);
        assert(grid(cells@) =~= grid(before).push(listing_row(records@[i as int]@, now)));
        assert(grid(cells@) =~= listing_cells(records@.take(i + 1), now));
        i = i + 1;
    }
    assert(records@.take(i as int) =~= records@);
    Ok(cells)
}

/// Draws a collection as a table, with the weeks that each record has
/// been idle at `now`: the drawing of the cells that [`view_db`] lays out,
/// each as [`plain_cells`] shows it.
pub fn draw_db(records: &Vec<DBItem>, now: Timestamp) -> (result: Result<String, CullError>)
    ensures
        result is Ok <==> forall|k: int|
            0 <= k < records@.len() ==> is_dated(#[trigger] records@[k]@),
        result matches Ok(text) ==> text@ == table_text(
            plain_cells(listing_cells(records@, now)),
        ),
        result matches Err(e) ==> is_first_undated(records@, e),
{
    match view_db(records, now) {
        Ok(cells) => Ok(draw(&cells)),
        Err(e) => Err(e),
    }
}

} // verus!
