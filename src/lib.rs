use vstd::prelude::*;

pub mod course;
pub mod dashboard;
pub mod text;

use crate::text::{int_str, int_text};

verus! {

/// The term of the academic year that courses are looked up for.
#[derive(Clone, Copy, Debug, PartialEq, Eq, Structural)]
pub enum Season {
    Fall,
    Spring,
    Summer,
}

/// The two-digit term id of a season, as a number.
pub open spec fn season_id(s: Season) -> int {
    match s {
        Season::Fall => 8,
        Season::Spring => 2,
        Season::Summer => 5,
    }
}

/// The calendar year of the term of `s`, seen in `month` of `year`: a spring term
/// announced after April belongs to the next year.
pub open spec fn term_year(s: Season, year: int, month: int) -> int {
    if s == Season::Spring && month > 4 {
        year + 1
    } else {
        year
    }
}

/// The term code: the term's year followed by the zero-padded term id.
pub open spec fn term_code(s: Season, year: int, month: int) -> Seq<char> {
    int_str(term_year(s, year, month)) + seq!['0'] + int_str(season_id(s))
}

/// The latest year that the calendar library represents.
pub const MAX_YEAR: i32 = 262142;

/// Relies on `chrono::Utc::now` with `Datelike::year` and `Datelike::month`: the
/// current date in UTC; months count from 1 to 12 and years stay within the
/// range of `chrono::NaiveDate`.
#[verifier::external_body]
fn today() -> (r: (i32, u32))
    ensures
        1 <= r.1 <= 12,
        r.0 <= MAX_YEAR,
{
    let now = chrono::Utc::now();
    (chrono::Datelike::year(&now), chrono::Datelike::month(&now))
}

impl Season {
    pub fn get_id(&self) -> (r: i32)
        ensures
            r == season_id(*self),
    {
        match self {
            Season::Fall => 8,
            Season::Spring => 2,
            Season::Summer => 5,
        }
    }

    /// The year of this season's term, seen in `month` of `year`.
    pub fn year_for(&self, year: i32, month: u32) -> (r: i32)
        requires
            year < i32::MAX,
        ensures
            r == term_year(*self, year as int, month as int),
    {
        if *self == Season::Spring && month > 4 {
            year + 1
        } else {
            year
        }
    }

    /// The term code of this season, seen in `month` of `year`.
    pub fn term_for(&self, year: i32, month: u32) -> (r: String)
        requires
            year < i32::MAX,
        ensures
            r@ == term_code(*self, year as int, month as int),
    {
        let y = self.year_for(year, month);
        let id = self.get_id();
        let mut code = int_text(y as i64);
        code.append("0");
        let digits = int_text(id as i64);
        code.append(digits.as_str());
        proof {
            reveal_strlit("0");
            assert(code@ =~= term_code(*self, year as int, month as int));
        }
        code
    }

    /// The year of this season's term as of today.
    pub fn get_year(&self) -> (r: i32)
        ensures
            exists|year: int, month: int|
                1 <= month <= 12 && year <= MAX_YEAR && r == term_year(*self, year, month),
    {
        let (year, month) = today();
        self.year_for(year, month)
    }

    /// The term code of this season as of today.
    pub fn get_term(&self) -> (r: String)
        ensures
            exists|year: int, month: int|
                1 <= month <= 12 && year <= MAX_YEAR && r@ == term_code(*self, year, month),
            *self == Season::Fall ==> exists|year: int|
                year <= MAX_YEAR && r@ == int_str(year) + seq!['0', '8'],
            *self == Season::Summer ==> exists|year: int|
                year <= MAX_YEAR && r@ == int_str(year) + seq!['0', '5'],
    {
        let (year, month) = today();
        proof {
            lemma_fixed_term_ids(year as int, month as int);
        }
        self.term_for(year, month)
    }

    /// The season's name.
    pub fn name(&self) -> (r: &'static str)
        ensures
            r@ == season_name(*self),
    {
        match self {
            Season::Fall => "Fall",
            Season::Spring => "Spring",
            Season::Summer => "Summer",
        }
    }
}

/// The name of a season.
pub open spec fn season_name(s: Season) -> Seq<char> {
    match s {
        Season::Fall => "Fall"@,
        Season::Spring => "Spring"@,
        Season::Summer => "Summer"@,
    }
}

/// In spring, the term's year is the current year through April and the next year
/// from May on; fall and summer terms always fall in the current year.
pub proof fn lemma_term_year(year: int, month: int)
    ensures
        month <= 4 ==> term_year(Season::Spring, year, month) == year,
        month > 4 ==> term_year(Season::Spring, year, month) == year + 1,
        term_year(Season::Fall, year, month) == year,
        term_year(Season::Summer, year, month) == year,
{
}

/// Whatever the month, a fall term code ends in `08` and a summer term code in `05`,
/// after the current year.
pub proof fn lemma_fixed_term_ids(year: int, month: int)
    ensures
        term_code(Season::Fall, year, month) == int_str(year) + seq!['0', '8'],
        term_code(Season::Summer, year, month) == int_str(year) + seq!['0', '5'],
        term_code(Season::Spring, year, month) == int_str(term_year(Season::Spring, year, month))
            + seq!['0', '2'],
{
    reveal_with_fuel(crate::text::nat_str, 1);
    assert(int_str(8) =~= seq!['8']);
    assert(int_str(5) =~= seq!['5']);
    assert(int_str(2) =~= seq!['2']);
    assert(term_code(Season::Fall, year, month) =~= int_str(year) + seq!['0', '8']);
    assert(term_code(Season::Summer, year, month) =~= int_str(year) + seq!['0', '5']);
    assert(term_code(Season::Spring, year, month) =~= int_str(term_year(Season::Spring, year, month)) + seq!['0', '2']);
}

} // verus!
