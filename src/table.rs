use vstd::prelude::*;

use chrono::Datelike;

use crate::clock::Stamp;
use crate::todos::{Todo, TodoList};

verus! {

/// The character for a decimal digit.
pub open spec fn digit_char(d: nat) -> char {
    seq!['0', '1', '2', '3', '4', '5', '6', '7', '8', '9'][(d % 10) as int]
}

/// The decimal digits of `n`, most significant first.
pub open spec fn decimal(n: nat) -> Seq<char>
    decreases n,
{
    if n < 10 {
        seq![digit_char(n)]
    } else {
        decimal(n / 10) + seq![digit_char(n % 10)]
    }
}

/// `n` in decimal, with a minus sign in front when it is negative.
pub open spec fn signed_decimal(n: int) -> Seq<char> {
    if n < 0 {
        seq!['-'] + decimal((-n) as nat)
    } else {
        decimal(n as nat)
    }
}

fn digit_text(d: u64) -> (r: String)
    requires
        d < 10,
    ensures
        r@ == seq![digit_char(d as nat)],
{
    proof {
        reveal_strlit("0");
        reveal_strlit("1");
        reveal_strlit("2");
        reveal_strlit("3");
        reveal_strlit("4");
        reveal_strlit("5");
        reveal_strlit("6");
        reveal_strlit("7");
        reveal_strlit("8");
        reveal_strlit("9");
    }
    let r = match d {
        0 => "0".to_owned(),
        1 => "1".to_owned(),
        2 => "2".to_owned(),
        3 => "3".to_owned(),
        4 => "4".to_owned(),
        5 => "5".to_owned(),
        6 => "6".to_owned(),
        7 => "7".to_owned(),
        8 => "8".to_owned(),
        _ => "9".to_owned(),
    };
    assert(r@ =~= seq![digit_char(d as nat)]);
    r
}

/// `n` written in decimal.
pub fn decimal_text(n: u64) -> (r: String)
    ensures
        r@ == decimal(n as nat),
    decreases n,
{
    let last = digit_text(n % 10);
    if n < 10 {
        last
    } else {
        let mut r = decimal_text(n / 10);
        r.append(last.as_str());
        r
    }
}

/// `n` written in decimal, with a minus sign when it is negative.
pub fn signed_decimal_text(n: i32) -> (r: String)
    ensures
        r@ == signed_decimal(n as int),
{
    if n < 0 {
        let mut r = "-".to_owned();
        proof {
            reveal_strlit("-");
        }
        let digits = decimal_text((-(n as i64)) as u64);
        r.append(digits.as_str());
        assert(r@ =~= seq!['-'] + decimal((-n) as nat));
        r
    } else {
        decimal_text(n as u64)
    }
}

/// The calendar date (day, month, year) of the instant `secs` (with
/// `nanos`) seen at the UTC offset `offset`; `None` where chrono cannot
/// represent the instant or the offset.
pub uninterp spec fn civil_date_of(secs: i64, nanos: u32, offset: i32) -> Option<(u32, u32, i32)>;

/// Relies on chrono's `FixedOffset::east_opt`, `DateTime::from_timestamp`,
/// `with_timezone` and the `Datelike` getters to find the calendar date of
/// a stamp at its own offset; the result depends on the stamp alone.
#[verifier::external_body]
fn civil_date(at: Stamp) -> (r: Option<(u32, u32, i32)>)
    ensures
        r == civil_date_of(at.secs, at.nanos, at.offset_secs),
{
    let offset = chrono::FixedOffset::east_opt(at.offset_secs)?;
    let d = chrono::DateTime::from_timestamp(at.secs, at.nanos)?.with_timezone(&offset);
    Some((d.day(), d.month(), d.year()))
}

/// A date shown as day/month/year.
pub open spec fn date_text_of(day: u32, month: u32, year: i32) -> Seq<char> {
    decimal(day as nat) + seq!['/'] + decimal(month as nat) + seq!['/'] + signed_decimal(year as int)
}

/// Writes a date as day/month/year.
pub fn date_text(day: u32, month: u32, year: i32) -> (r: String)
    ensures
        r@ == date_text_of(day, month, year),
{
    proof {
        reveal_strlit("/");
    }
    let mut r = decimal_text(day as u64);
    r.append("/");
    r.append(decimal_text(month as u64).as_str());
    r.append("/");
    r.append(signed_decimal_text(year).as_str());
    assert(r@ =~= date_text_of(day, month, year));
    r
}

/// The text shown for a value that may be absent.
pub open spec fn or_missing(t: Option<Seq<char>>) -> Seq<char> {
    match t {
        Some(s) => s,
        None => "N/A"@,
    }
}

/// The text shown for a date that may be absent.
pub open spec fn date_cell(at: Option<Stamp>) -> Seq<char> {
    match at {
        Some(s) => match civil_date_of(s.secs, s.nanos, s.offset_secs) {
            Some((d, m, y)) => date_text_of(d, m, y),
            None => "N/A"@,
        },
        None => "N/A"@,
    }
}

/// One line of the table that shows a list: its cells, left to right.
#[derive(Debug)]
pub struct Row {
    pub id: String,
    pub name: String,
    pub description: String,
    pub date_added: String,
    pub completed: String,
    pub date_completed: String,
}

impl Row {
    /// Whether this row shows `todo`, found at position `i`.
    pub open spec fn shows(self, todo: Todo, i: nat) -> bool {
        &&& self.id@ == decimal(i)
        &&& self.name@ == todo.name@
        &&& self.description@ == or_missing(
            match todo.description {
                Some(d) => Some(d@),
                None => None,
            },
        )
        &&& self.date_added@ == date_cell(Some(todo.date_added))
        &&& self.completed@ == (if todo.completed { "Yes"@ } else { "No"@ })
        &&& self.date_completed@ == date_cell(todo.date_completed)
    }
}

fn missing() -> (r: String)
    ensures
        r@ == "N/A"@,
{
    "N/A".to_owned()
}

fn date_or_missing(at: Option<Stamp>) -> (r: String)
    ensures
        r@ == date_cell(at),
{
    match at {
        Some(s) => match civil_date(s) {
            Some((d, m, y)) => date_text(d, m, y),
            None => missing(),
        },
        None => missing(),
    }
}

impl Todo {
    /// The row that shows this todo at position `i`.
    pub fn row(&self, i: usize) -> (r: Row)
        ensures
            r.shows(*self, i as nat),
    {
        let description = match &self.description {
            Some(d) => d.clone(),
            None => missing(),
        };
        let completed = if self.completed {
            "Yes".to_owned()
        } else {
            "No".to_owned()
        };
        Row {
            id: decimal_text(i as u64),
            name: self.name.clone(),
            description,
            date_added: date_or_missing(Some(self.date_added)),
            completed,
            date_completed: date_or_missing(self.date_completed),
        }
    }
}

impl TodoList {
    /// The header of the table that shows a list.
    pub fn titles() -> (r: Vec<String>)
        ensures
            r@.map_values(|t: String| t@) == seq!["id"@, "Name"@, "Description"@, "Date added"@,
                "Completed"@, "Date Completed"@],
    {
        let r = vec![
            "id".to_owned(),
            "Name".to_owned(),
            "Description".to_owned(),
            "Date added".to_owned(),
            "Completed".to_owned(),
            "Date Completed".to_owned(),
        ];
        assert(r@.map_values(|t: String| t@) =~= seq!["id"@, "Name"@, "Description"@, "Date added"@,
            "Completed"@, "Date Completed"@]);
        r
    }

    /// One row for each todo, in the order of the list.
    pub fn rows(&self) -> (r: Vec<Row>)
        ensures
            r@.len() == self.list@.len(),
            forall|i: int| 0 <= i < r@.len() ==> (#[trigger] r@[i]).shows(self.list@[i], i as nat),
    {
        let mut rows: Vec<Row> = Vec::new();
        let mut i: usize = 0;
        while i < self.list.len()
            invariant
                i <= self.list@.len(),
                rows@.len() == i,
                forall|j: int| 0 <= j < i ==> (#[trigger] rows@[j]).shows(self.list@[j], j as nat),
            decreases self.list@.len() - i,
        {
            rows.push(self.list[i].row(i));
            i = i + 1;
        }
        rows
    }
}

} // verus!
