//! The ledger: which file an entry goes to and the line that is appended.

use vstd::prelude::*;
use vstd::string::*;
use crate::clock::{
    can_stamp, in_promised_years, is_calendar_day, is_time_of_day, local_offset, resolve, resolved, rfc3339,
    stamp_text, wall_clock, Date, Moment, TimeOfDay,
};
use crate::decimal::{amount_text, decimal};
use crate::failure::Failure;
use crate::item::{item_text, InventoryItem};
use crate::settings::Stored;

verus! {

/// One addition to a ledger: the file of the boat and the text to append.
#[derive(Debug, PartialEq, Eq)]
pub struct Entry {
    /// The ledger file, relative to the working directory.
    pub path: String,
    /// The line to append, without its line end.
    pub line: String,
}

/// The directory, relative to the working directory, that holds the ledgers.
pub open spec fn data_dir_text() -> Seq<char> {
    "data"@
}

/// The file in which the settings are kept.
pub open spec fn settings_path_text() -> Seq<char> {
    "settings.ron"@
}

/// A boat's ledger: the file named after the boat, in the data directory.
pub open spec fn ledger_path_text(boat: Seq<char>) -> Seq<char> {
    data_dir_text() + "/"@ + boat + ".csv"@
}

/// One ledger line: timestamp, item and amount, separated by commas, with
/// nothing quoted or escaped. The line end is not part of it.
pub open spec fn record_text(stamp: Seq<char>, item: InventoryItem, amount: int) -> Seq<char> {
    stamp + ","@ + item_text(item) + ","@ + decimal(amount)
}

/// What adding an entry comes to, given the text of its timestamp where one
/// could be made: settings that cannot be read fail first, then a missing
/// boat, then a missing timestamp.
pub open spec fn entry_for(
    stored: Stored,
    item: InventoryItem,
    amount: int,
    stamp: Option<Seq<char>>,
) -> Result<(Seq<char>, Seq<char>), Failure> {
    if stored is Unreadable {
        Err(Failure::UnreadableSettings)
    } else {
        match (stored.boat(), stamp) {
            (None, _) => Err(Failure::NoBoat),
            (Some(_), None) => Err(Failure::NoTimestamp),
            (Some(boat), Some(text)) => Ok((ledger_path_text(boat), record_text(text, item, amount))),
        }
    }
}

/// Whether an outcome is the one that `expected` describes.
pub open spec fn is_outcome(
    out: Result<Entry, Failure>,
    expected: Result<(Seq<char>, Seq<char>), Failure>,
) -> bool {
    match expected {
        Ok((path, line)) => out matches Ok(entry) && entry.path@ == path && entry.line@ == line,
        Err(failure) => out matches Err(f) && f == failure,
    }
}

/// The directory that holds the ledgers.
pub fn data_dir() -> (out: &'static str)
    ensures
        out@ == data_dir_text(),
{
    "data"
}

/// The file in which the settings are kept.
pub fn settings_path() -> (out: &'static str)
    ensures
        out@ == settings_path_text(),
{
    "settings.ron"
}

/// The ledger file of a boat.
pub fn ledger_path(boat: &str) -> (out: String)
    ensures
        out@ == ledger_path_text(boat@),
{
    let mut out = String::from_str(data_dir());
    out.append("/");
    out.append(boat);
    out.append(".csv");
    out
}

/// Composes one ledger line from a timestamp already rendered.
pub fn record_line(stamp: &str, item: InventoryItem, amount: i8) -> (out: String)
    ensures
        out@ == record_text(stamp@, item, amount as int),
{
    let mut out = String::from_str(stamp);
    out.append(",");
    out.append(item.name());
    out.append(",");
    let count = amount_text(amount);
    out.append(count.as_str());
    out
}

/// The boat that the stored settings name.
fn stored_boat(stored: &Stored) -> (out: Result<&String, Failure>)
    ensures
        match out {
            Ok(boat) => !(stored is Unreadable) && stored.boat() == Some(boat@),
            Err(failure) => if stored is Unreadable {
                failure == Failure::UnreadableSettings
            } else {
                failure == Failure::NoBoat && stored.boat() is None
            },
        },
{
    match stored {
        Stored::Unreadable => Err(Failure::UnreadableSettings),
        Stored::Missing => Err(Failure::NoBoat),
        Stored::Found(settings) => match &settings.boat {
            Some(boat) => Ok(boat),
            None => Err(Failure::NoBoat),
        },
    }
}

/// Decides an addition once the timestamp's text is known, or known to be
/// missing: the entry, or the failure to report.
pub fn compose(stored: &Stored, item: InventoryItem, amount: i8, stamp: Option<&str>) -> (out: Result<
    Entry,
    Failure,
>)
    ensures
        is_outcome(
            out,
            entry_for(
                *stored,
                item,
                amount as int,
                match stamp {
                    Some(text) => Some(text@),
                    None => None,
                },
            ),
        ),
{
    let boat = match stored_boat(stored) {
        Ok(boat) => boat,
        Err(failure) => {
            return Err(failure);
        },
    };
    match stamp {
        Some(text) => Ok(Entry { path: ledger_path(boat.as_str()), line: record_line(text, item, amount) }),
        None => Err(Failure::NoTimestamp),
    }
}

/// Decides an addition at a given moment and offset from UTC, in seconds
/// east. Where an entry comes back, its line starts with the timestamp of
/// exactly that moment at that offset. With a boat configured, one comes
/// back only if the numbers name a day, a time and an offset, and always
/// if they do within the promised years.
pub fn add_at(stored: &Stored, item: InventoryItem, amount: i8, moment: Moment, offset_seconds: i32) -> (out:
    Result<Entry, Failure>)
    ensures
        is_outcome(out, entry_for(*stored, item, amount as int, Some(stamp_text(moment, offset_seconds as int))))
            || is_outcome(out, entry_for(*stored, item, amount as int, None)),
        stored is Unreadable ==> (out matches Err(f) && f == Failure::UnreadableSettings),
        !(stored is Unreadable) && stored.boat() is None ==> (out matches Err(f) && f == Failure::NoBoat),
        out matches Ok(entry) ==> (stored.boat() matches Some(boat) && entry.path@ == ledger_path_text(boat)
            && entry.line@ == record_text(stamp_text(moment, offset_seconds as int), item, amount as int)
            && can_stamp(moment, offset_seconds as int)),
        stored.boat() is Some && can_stamp(moment, offset_seconds as int) && in_promised_years(moment.date)
            ==> out is Ok,
        stored.boat() is Some && !can_stamp(moment, offset_seconds as int) ==> (out matches Err(f) && f
            == Failure::NoTimestamp),
{
    match rfc3339(&moment, offset_seconds) {
        Some(text) => compose(stored, item, amount, Some(text.as_str())),
        None => compose(stored, item, amount, None),
    }
}

/// Decides an addition now, in the machine's time zone. A date or a time
/// that is not given is taken from one reading of the wall clock; where both
/// are given the clock is not read. Without a configured boat the addition
/// fails whatever the clock says.
pub fn add(stored: &Stored, item: InventoryItem, amount: i8, time: Option<TimeOfDay>, date: Option<Date>) -> (out:
    Result<Entry, Failure>)
    ensures
        is_outcome(out, entry_for(*stored, item, amount as int, None)) || exists|now: Moment, offset: int|
            is_outcome(
                out,
                entry_for(*stored, item, amount as int, Some(#[trigger] stamp_text(resolved(date, time, now), offset))),
            ),
        stored is Unreadable ==> (out matches Err(f) && f == Failure::UnreadableSettings),
        !(stored is Unreadable) && stored.boat() is None ==> (out matches Err(f) && f == Failure::NoBoat),
        out matches Ok(entry) ==> (stored.boat() matches Some(boat) && entry.path@ == ledger_path_text(boat)),
        date matches Some(d) && !is_calendar_day(d) ==> out is Err,
        time matches Some(t) && !is_time_of_day(t) ==> out is Err,
{
    let moment = match (date, time) {
        (Some(d), Some(t)) => Moment { date: d, time: t },
        _ => resolve(date, time, wall_clock()),
    };
    // Reading the clock again at `moment` would resolve to `moment` itself.
    assert(moment == resolved(date, time, moment));
    match local_offset(&moment) {
        Some(offset) => {
            let ghost stamp = stamp_text(resolved(date, time, moment), offset as int);
            add_at(stored, item, amount, moment, offset)
        },
        None => compose(stored, item, amount, None),
    }
}

/// Without settings nothing is added, whatever the item, the amount and
/// the time: the outcome is the failure that asks for a boat.
pub proof fn missing_settings_add_nothing(item: InventoryItem, amount: int, stamp: Option<Seq<char>>)
    ensures
        entry_for(Stored::Missing, item, amount, stamp) == Err::<(Seq<char>, Seq<char>), Failure>(Failure::NoBoat),
{
}

/// An entry comes about exactly where the stored settings name a boat and
/// the timestamp could be made, and it goes to that boat's ledger.
pub proof fn entry_needs_boat_and_stamp(stored: Stored, item: InventoryItem, amount: int, stamp: Option<Seq<char>>)
    ensures
        entry_for(stored, item, amount, stamp) is Ok <==> stored.boat() is Some && stamp is Some,
        entry_for(stored, item, amount, stamp) matches Ok((path, _)) ==> (path == ledger_path_text(
            stored.boat().unwrap(),
        )),
{
}

/// Entries made under the same stored settings go to the same ledger,
/// whatever they record: consecutive additions for a boat meet in one file.
pub proof fn entries_of_one_boat_share_ledger(
    stored: Stored,
    first: (InventoryItem, int, Option<Seq<char>>),
    second: (InventoryItem, int, Option<Seq<char>>),
)
    ensures
        match (entry_for(stored, first.0, first.1, first.2), entry_for(stored, second.0, second.1, second.2)) {
            (Ok((path, _)), Ok((other, _))) => path == other,
            _ => true,
        },
{
}

/// The same boat always has the same ledger, and two boats share a ledger
/// only if they have the same name.
pub proof fn ledger_path_tells_boats_apart(first: Seq<char>, second: Seq<char>)
    ensures
        ledger_path_text(first) == ledger_path_text(second) <==> first == second,
{
    if ledger_path_text(first) == ledger_path_text(second) {
        reveal_strlit("data");
        reveal_strlit("/");
        reveal_strlit(".csv");
        let a = ledger_path_text(first);
        let b = ledger_path_text(second);
        assert(a.len() == first.len() + 9);
        assert(b.len() == second.len() + 9);
        assert forall|i: int| 0 <= i < first.len() implies first[i] == second[i] by {
            assert(a[i + 5] == first[i]);
            assert(b[i + 5] == second[i]);
        }
        assert(first =~= second);
    }
}

} // verus!
