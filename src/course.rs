use vstd::prelude::*;

use crate::text::{int_str, int_text};
use crate::{term_code, Season, MAX_YEAR};

verus! {

/// Seats of one list of a section, as the registration page reports them. The
/// three numbers are kept as read: `remaining` need not equal `capacity - actual`.
#[derive(Clone, Copy, Debug, Default, PartialEq, Eq, Structural)]
pub struct Enrollment {
    pub capacity: u32,
    pub actual: u32,
    pub remaining: u32,
}

impl Enrollment {
    pub fn new(capacity: u32, actual: u32, remaining: u32) -> (r: Enrollment)
        ensures
            r == (Enrollment { capacity, actual, remaining }),
    {
        Enrollment { capacity, actual, remaining }
    }

    pub fn capacity(&self) -> (r: u32)
        ensures
            r == self.capacity,
    {
        self.capacity
    }

    pub fn actual(&self) -> (r: u32)
        ensures
            r == self.actual,
    {
        self.actual
    }

    pub fn remaining(&self) -> (r: u32)
        ensures
            r == self.remaining,
    {
        self.remaining
    }
}

/// The part of the page that an extraction step was working on when it failed.
#[derive(Clone, Copy, Debug, PartialEq, Eq, Structural)]
pub enum ParseStage {
    CourseName,
    EnrollmentBlock,
    ClassRow,
    WaitlistRow,
}

/// What went wrong in an extraction step.
#[derive(Clone, Debug, PartialEq, Eq)]
pub enum ParseFault {
    /// No element of the page matches the query.
    MissingElement,
    /// The enrollment block has too few rows.
    MissingRow,
    /// A row whose columns are all numbers has this many of them, not three.
    ColumnCount(usize),
    /// The column at this index holds this text, which is no number.
    NotNumeric(usize, String),
}

#[derive(Clone, Debug, PartialEq, Eq)]
pub struct ParseError {
    pub stage: ParseStage,
    pub fault: ParseFault,
}

/// Why no record could be built for a course identifier, with that identifier.
#[derive(Clone, Debug, PartialEq, Eq)]
pub enum CourseError {
    /// The identifier is not six characters long; nothing was fetched.
    Validation(String),
    /// Fetching the page failed, for the reason given.
    Network(String, String),
    /// The page was fetched but could not be read.
    Parse(String, ParseError),
}

/// Whether `c` is an ASCII decimal digit.
pub open spec fn is_digit(c: char) -> bool {
    '0' <= c <= '9'
}

/// The value of a string of decimal digits.
pub open spec fn digits_value(s: Seq<char>) -> nat
    decreases s.len(),
{
    if s.len() == 0 {
        0
    } else {
        digits_value(s.drop_last()) * 10 + ((s.last() as u32) - ('0' as u32)) as nat
    }
}

/// The number that a text denotes as a `u32`: an optional `+` followed by one or
/// more decimal digits, whose value fits in 32 bits.
pub open spec fn u32_of_text(s: Seq<char>) -> Option<u32> {
    let d = if s.len() > 0 && s[0] == '+' {
        s.drop_first()
    } else {
        s
    };
    if d.len() > 0 && (forall|i: int| 0 <= i < d.len() ==> is_digit(#[trigger] d[i]))
        && digits_value(d) <= u32::MAX {
        Some(digits_value(d) as u32)
    } else {
        None
    }
}

/// Relies on `str::parse::<u32>`: it accepts exactly an optional `+` and one or more
/// ASCII digits whose value fits in a `u32`.
#[verifier::external_body]
fn parse_u32(s: &str) -> (r: Option<u32>)
    ensures
        r == u32_of_text(s@),
{
    s.parse::<u32>().ok()
}

/// The text with leading and trailing Unicode whitespace removed.
pub uninterp spec fn trim_of(s: Seq<char>) -> Seq<char>;

/// Relies on `str::trim`: the result depends on the text alone.
#[verifier::external_body]
fn trimmed(s: &str) -> (r: String)
    ensures
        r@ == trim_of(s@),
{
    s.trim().to_string()
}

/// Whether the first `n` texts of a row all read as numbers.
pub open spec fn numeric_upto(t: Seq<Seq<char>>, n: int) -> bool {
    forall|j: int| 0 <= j < n ==> (#[trigger] u32_of_text(t[j])) is Some
}

/// Whether a row of texts reads as an enrollment: three columns, all numbers.
pub open spec fn row_reads(t: Seq<Seq<char>>) -> bool {
    t.len() == 3 && numeric_upto(t, 3)
}

/// The enrollment that a row of three numeric texts gives, in the order capacity,
/// actual, remaining.
pub open spec fn enrollment_of(t: Seq<Seq<char>>) -> Enrollment {
    Enrollment {
        capacity: u32_of_text(t[0])->Some_0,
        actual: u32_of_text(t[1])->Some_0,
        remaining: u32_of_text(t[2])->Some_0,
    }
}

/// `r` is what reading the row of texts `t` as an enrollment gives: the first
/// column that is no number is reported with its text; else a count other than
/// three is reported; else the three numbers are the enrollment.
pub open spec fn row_outcome(t: Seq<Seq<char>>, r: Result<Enrollment, ParseFault>) -> bool {
    match r {
        Ok(e) => row_reads(t) && e == enrollment_of(t),
        Err(ParseFault::NotNumeric(i, v)) => i < t.len() && numeric_upto(t, i as int)
            && u32_of_text(t[i as int]) is None && v@ == t[i as int],
        Err(ParseFault::ColumnCount(n)) => numeric_upto(t, t.len() as int) && n == t.len()
            && n != 3,
        Err(_) => false,
    }
}

/// The texts of a row of cells, each trimmed.
pub open spec fn trim_all(row: Seq<Seq<char>>) -> Seq<Seq<char>> {
    row.map_values(|s: Seq<char>| trim_of(s))
}

/// Reads a row of already trimmed cell texts as an enrollment.
pub fn parse_enrollment_fields(fields: &Vec<String>) -> (r: Result<Enrollment, ParseFault>)
    ensures
        row_outcome(fields.deep_view(), r),
{
    let ghost t = fields.deep_view();
    let mut values: Vec<u32> = Vec::new();
    let mut i: usize = 0;
    while i < fields.len()
        invariant
            t == fields.deep_view(),
            i <= fields.len(),
            values@.len() == i,
            numeric_upto(t, i as int),
            forall|j: int| 0 <= j < i ==> Some(values@[j]) == #[trigger] u32_of_text(t[j]),
        decreases fields.len() - i,
    {
        match parse_u32(fields[i].as_str()) {
            Some(v) => {
                values.push(v);
            },
            None => {
                return Err(ParseFault::NotNumeric(i, fields[i].clone()));
            },
        }
        i = i + 1;
    }
    if values.len() != 3 {
        return Err(ParseFault::ColumnCount(values.len()));
    }
    assert(u32_of_text(t[0]) == Some(values@[0]));
    assert(u32_of_text(t[1]) == Some(values@[1]));
    assert(u32_of_text(t[2]) == Some(values@[2]));
    Ok(Enrollment { capacity: values[0], actual: values[1], remaining: values[2] })
}

/// The texts of a row, each trimmed.
fn trim_cells(data: &Vec<String>) -> (r: Vec<String>)
    ensures
        r.deep_view() == trim_all(data.deep_view()),
{
    let mut fields: Vec<String> = Vec::new();
    let mut i: usize = 0;
    while i < data.len()
        invariant
            i <= data.len(),
            fields@.len() == i,
            forall|j: int| 0 <= j < i ==> (#[trigger] fields@[j])@ == trim_of(data@[j]@),
        decreases data.len() - i,
    {
        fields.push(trimmed(data[i].as_str()));
        i = i + 1;
    }
    assert(fields.deep_view() =~= trim_all(data.deep_view()));
    fields
}

/// Reads a row of cell texts as an enrollment, trimming each text first.
pub fn parse_enrollment_data(data: Vec<String>) -> (r: Result<Enrollment, ParseFault>)
    ensures
        row_outcome(trim_all(data.deep_view()), r),
{
    let fields = trim_cells(&data);
    parse_enrollment_fields(&fields)
}

/// `r` is what reading the rows of the enrollment block `rows` gives, each row
/// given as the trimmed texts of its cells: a header row is skipped, then come the
/// class row and the waitlist row.
pub open spec fn trimmed_rows_outcome(
    rows: Seq<Seq<Seq<char>>>,
    r: Result<(Enrollment, Enrollment), ParseError>,
) -> bool {
    match r {
        Ok((class, waitlist)) => rows.len() >= 3 && row_outcome(rows[1], Ok(class))
            && row_outcome(rows[2], Ok(waitlist)),
        Err(e) => {
            ||| rows.len() < 2 && e == (ParseError {
                stage: ParseStage::ClassRow,
                fault: ParseFault::MissingRow,
            })
            ||| rows.len() == 2 && e == (ParseError {
                stage: ParseStage::WaitlistRow,
                fault: ParseFault::MissingRow,
            })
            ||| rows.len() >= 3 && e.stage == ParseStage::ClassRow && row_outcome(
                rows[1],
                Err(e.fault),
            )
            ||| rows.len() >= 3 && e.stage == ParseStage::WaitlistRow && row_reads(rows[1])
                && row_outcome(rows[2], Err(e.fault))
        },
    }
}

/// Every row's cell texts, each trimmed.
pub open spec fn trim_rows(rows: Seq<Seq<Seq<char>>>) -> Seq<Seq<Seq<char>>> {
    rows.map_values(|row: Seq<Seq<char>>| trim_all(row))
}

/// `r` is what reading the rows of the enrollment block `rows` (cell texts as found)
/// gives: the same as for the rows with every cell trimmed.
pub open spec fn rows_outcome(
    rows: Seq<Seq<Seq<char>>>,
    r: Result<(Enrollment, Enrollment), ParseError>,
) -> bool {
    trimmed_rows_outcome(trim_rows(rows), r)
}

/// Reads the class and waitlist enrollments from the rows of the enrollment block,
/// each row given as the already trimmed texts of its cells.
pub fn parse_trimmed_rows(rows: &Vec<Vec<String>>) -> (r: Result<
    (Enrollment, Enrollment),
    ParseError,
>)
    ensures
        trimmed_rows_outcome(rows.deep_view(), r),
{
    if rows.len() < 2 {
        return Err(ParseError { stage: ParseStage::ClassRow, fault: ParseFault::MissingRow });
    }
    if rows.len() < 3 {
        return Err(ParseError { stage: ParseStage::WaitlistRow, fault: ParseFault::MissingRow });
    }
    assert(rows.deep_view()[1] == rows@[1].deep_view());
    assert(rows.deep_view()[2] == rows@[2].deep_view());
    let class = match parse_enrollment_fields(&rows[1]) {
        Ok(e) => e,
        Err(fault) => {
            return Err(ParseError { stage: ParseStage::ClassRow, fault });
        },
    };
    let waitlist = match parse_enrollment_fields(&rows[2]) {
        Ok(e) => e,
        Err(fault) => {
            return Err(ParseError { stage: ParseStage::WaitlistRow, fault });
        },
    };
    Ok((class, waitlist))
}

/// Reads the class and waitlist enrollments from the rows of the enrollment block,
/// each row given as the texts of its cells, which are trimmed first.
pub fn parse_enrollment_rows(rows: &Vec<Vec<String>>) -> (r: Result<
    (Enrollment, Enrollment),
    ParseError,
>)
    ensures
        rows_outcome(rows.deep_view(), r),
{
    let mut trimmed_rows: Vec<Vec<String>> = Vec::new();
    let mut i: usize = 0;
    while i < rows.len()
        invariant
            i <= rows.len(),
            trimmed_rows@.len() == i,
            forall|j: int|
                0 <= j < i ==> (#[trigger] trimmed_rows@[j]).deep_view() == trim_all(
                    rows@[j].deep_view(),
                ),
        decreases rows.len() - i,
    {
        trimmed_rows.push(trim_cells(&rows[i]));
        i = i + 1;
    }
    assert(trimmed_rows.deep_view() =~= trim_rows(rows.deep_view()));
    parse_trimmed_rows(&trimmed_rows)
}

/// `r` is what reading a page gives whose course-name header has the text `name`
/// and whose enrollment block has the rows `rows` (`None` where the page has no
/// such element).
pub open spec fn page_outcome(
    name: Option<Seq<char>>,
    rows: Option<Seq<Seq<Seq<char>>>>,
    r: Result<(Seq<char>, Enrollment, Enrollment), ParseError>,
) -> bool {
    match name {
        None => r == Err::<(Seq<char>, Enrollment, Enrollment), ParseError>(
            ParseError { stage: ParseStage::CourseName, fault: ParseFault::MissingElement },
        ),
        Some(n) => match rows {
            None => r == Err::<(Seq<char>, Enrollment, Enrollment), ParseError>(
                ParseError { stage: ParseStage::EnrollmentBlock, fault: ParseFault::MissingElement },
            ),
            Some(rs) => match r {
                Ok((got, class, waitlist)) => got == n && rows_outcome(rs, Ok((class, waitlist))),
                Err(e) => rows_outcome(rs, Err(e)),
            },
        },
    }
}

/// The result of reading a page, with the name as text.
pub open spec fn page_view(r: Result<(String, Enrollment, Enrollment), ParseError>) -> Result<
    (Seq<char>, Enrollment, Enrollment),
    ParseError,
> {
    match r {
        Ok((name, class, waitlist)) => Ok((name@, class, waitlist)),
        Err(e) => Err(e),
    }
}

/// The text of an optional string.
pub open spec fn opt_text(s: Option<String>) -> Option<Seq<char>> {
    match s {
        Some(t) => Some(t@),
        None => None,
    }
}

/// The cell texts of optional rows.
pub open spec fn opt_rows(rows: Option<Vec<Vec<String>>>) -> Option<Seq<Seq<Seq<char>>>> {
    match rows {
        Some(rs) => Some(rs.deep_view()),
        None => None,
    }
}

/// Reads a course page from what its queries found: the text of the course-name
/// header, and the cell texts of each row of the enrollment block.
pub fn parse_page(name: Option<String>, rows: Option<Vec<Vec<String>>>) -> (r: Result<
    (String, Enrollment, Enrollment),
    ParseError,
>)
    ensures
        page_outcome(opt_text(name), opt_rows(rows), page_view(r)),
{
    let name = match name {
        Some(n) => n,
        None => {
            return Err(
                ParseError { stage: ParseStage::CourseName, fault: ParseFault::MissingElement },
            );
        },
    };
    let rows = match rows {
        Some(rs) => rs,
        None => {
            return Err(
                ParseError { stage: ParseStage::EnrollmentBlock, fault: ParseFault::MissingElement },
            );
        },
    };
    match parse_enrollment_rows(&rows) {
        Ok((class, waitlist)) => Ok((name, class, waitlist)),
        Err(e) => Err(e),
    }
}


/// Query for the header cell that carries the course label.
pub const COURSE_NAME_SELECTOR: &'static str = "th.ddlabel";

/// Query for the data cell that carries the enrollment block.
pub const ENROLLMENT_SELECTOR: &'static str = "td.dddefault";

/// Query for the rows of the enrollment block.
pub const ROW_SELECTOR: &'static str = "tbody > tr";

/// Query for the cells of a row.
pub const CELL_SELECTOR: &'static str = "td";

/// Whether `q` is one of the queries that reading a course page uses.
pub open spec fn is_page_query(q: Seq<char>) -> bool {
    ||| q == COURSE_NAME_SELECTOR@
    ||| q == ENROLLMENT_SELECTOR@
    ||| q == ROW_SELECTOR@
    ||| q == CELL_SELECTOR@
}

#[verifier::external_type_specification]
#[verifier::external_body]
pub struct ExHtml(scraper::Html);

#[verifier::external_type_specification]
#[verifier::external_body]
pub struct ExSelector(scraper::Selector);

#[verifier::external_type_specification]
#[verifier::external_body]
pub struct ExElementRef<'a>(scraper::ElementRef<'a>);

/// A step from an element to one of its matches: the query, and the index of the
/// match among all matches in document order.
pub type Step = (Seq<char>, nat);

/// Whether any element of the document parsed from `page` matches `query`.
pub uninterp spec fn page_has_match(page: Seq<char>, query: Seq<char>) -> bool;

/// The number of descendants that `query` matches below the element reached by
/// `path` in the document parsed from `page`. The path's first step is taken from
/// the whole document, the others from the element reached so far.
pub uninterp spec fn match_count(page: Seq<char>, path: Seq<Step>, query: Seq<char>) -> nat;

/// The descendant text, joined, of the element reached by `path` in the document
/// parsed from `page`.
pub uninterp spec fn text_at(page: Seq<char>, path: Seq<Step>) -> Seq<char>;

/// A parsed page, with the text it was parsed from.
pub struct Page {
    doc: scraper::Html,
    text: Ghost<Seq<char>>,
}

impl Page {
    pub closed spec fn text(&self) -> Seq<char> {
        self.text@
    }
}

/// A compiled query, with its text.
pub struct Query {
    sel: scraper::Selector,
    text: Ghost<Seq<char>>,
}

impl Query {
    pub closed spec fn text(&self) -> Seq<char> {
        self.text@
    }
}

/// An element of a parsed page, with the page's text and the path that reaches it.
pub struct Elem<'a> {
    el: scraper::ElementRef<'a>,
    page: Ghost<Seq<char>>,
    path: Ghost<Seq<Step>>,
}

impl<'a> Elem<'a> {
    pub closed spec fn page(&self) -> Seq<char> {
        self.page@
    }

    pub closed spec fn path(&self) -> Seq<Step> {
        self.path@
    }
}

/// Relies on `scraper::Html::parse_document`, which builds a document tree from any
/// text, as a browser would; the tree depends on the text alone.
#[verifier::external_body]
fn parse_html(body: &str) -> (r: Page)
    ensures
        r.text() == body@,
{
    Page { doc: scraper::Html::parse_document(body), text: Ghost(body@) }
}

/// Relies on `scraper::Selector::parse`, which compiles each of the page queries,
/// all of them plain CSS selectors.
#[verifier::external_body]
fn css(query: &str) -> (r: Query)
    requires
        is_page_query(query@),
    ensures
        r.text() == query@,
{
    Query { sel: scraper::Selector::parse(query).unwrap(), text: Ghost(query@) }
}

/// Relies on `scraper::Html::select`: the first element that the query matches, in
/// the order in which the document's nodes are stored.
#[verifier::external_body]
fn select_first<'a>(doc: &'a Page, q: &Query) -> (r: Option<Elem<'a>>)
    ensures
        r is Some == page_has_match(doc.text(), q.text()),
        r matches Some(e) ==> e.page() == doc.text() && e.path() == seq![(q.text(), 0nat)],
{
    doc.doc.select(&q.sel).next().map(
        |el| Elem { el, page: Ghost(doc.text@), path: Ghost(seq![(q.text@, 0nat)]) },
    )
}

/// Relies on `scraper::ElementRef::select`: the descendants of the element that the
/// query matches, in document order.
#[verifier::external_body]
fn select_within<'a>(e: &Elem<'a>, q: &Query) -> (r: Vec<Elem<'a>>)
    ensures
        r@.len() == match_count(e.page(), e.path(), q.text()),
        forall|i: int|
            0 <= i < r@.len() ==> (#[trigger] r@[i]).page() == e.page() && r@[i].path()
                == e.path().push((q.text(), i as nat)),
{
    e.el.select(&q.sel).enumerate().map(
        |(i, el)| Elem { el, page: Ghost(e.page@), path: Ghost(e.path@.push((q.text@, i as nat))) },
    ).collect()
}

/// Relies on `scraper::ElementRef::text`: the element's descendant text, joined.
#[verifier::external_body]
fn element_text(e: &Elem) -> (r: String)
    ensures
        r@ == text_at(e.page(), e.path()),
{
    e.el.text().collect()
}

/// The texts of the cells below the element at `path`.
pub open spec fn cells_at(page: Seq<char>, path: Seq<Step>) -> Seq<Seq<char>> {
    Seq::new(
        match_count(page, path, CELL_SELECTOR@),
        |j: int| text_at(page, path.push((CELL_SELECTOR@, j as nat))),
    )
}

/// The course name on a page: the text of the first course-name header.
pub open spec fn course_name_of(page: Seq<char>) -> Option<Seq<char>> {
    if page_has_match(page, COURSE_NAME_SELECTOR@) {
        Some(text_at(page, seq![(COURSE_NAME_SELECTOR@, 0nat)]))
    } else {
        None
    }
}

/// The rows of the enrollment block on a page, each as the texts of its cells.
pub open spec fn enrollment_rows_of(page: Seq<char>) -> Option<Seq<Seq<Seq<char>>>> {
    if page_has_match(page, ENROLLMENT_SELECTOR@) {
        let block = seq![(ENROLLMENT_SELECTOR@, 0nat)];
        Some(
            Seq::new(
                match_count(page, block, ROW_SELECTOR@),
                |i: int| cells_at(page, block.push((ROW_SELECTOR@, i as nat))),
            ),
        )
    } else {
        None
    }
}

/// The texts of the cells of a row.
fn get_row_content(row: &Elem, cell: &Query) -> (r: Vec<String>)
    requires
        cell.text() == CELL_SELECTOR@,
    ensures
        r.deep_view() == cells_at(row.page(), row.path()),
{
    let cells = select_within(row, cell);
    let mut texts: Vec<String> = Vec::new();
    let mut i: usize = 0;
    while i < cells.len()
        invariant
            i <= cells.len(),
            cells@.len() == match_count(row.page(), row.path(), CELL_SELECTOR@),
            forall|k: int|
                0 <= k < cells@.len() ==> (#[trigger] cells@[k]).page() == row.page()
                    && cells@[k].path() == row.path().push((CELL_SELECTOR@, k as nat)),
            texts@.len() == i,
            forall|k: int|
                0 <= k < i ==> (#[trigger] texts@[k])@ == text_at(
                    row.page(),
                    row.path().push((CELL_SELECTOR@, k as nat)),
                ),
        decreases cells.len() - i,
    {
        texts.push(element_text(&cells[i]));
        i = i + 1;
    }
    assert(texts.deep_view() =~= cells_at(row.page(), row.path()));
    texts
}

/// The cell texts of each row of the enrollment block, or `None` where the page has
/// no enrollment block.
fn enrollment_rows(doc: &Page) -> (r: Option<Vec<Vec<String>>>)
    ensures
        opt_rows(r) == enrollment_rows_of(doc.text()),
{
    let block_query = css(ENROLLMENT_SELECTOR);
    let block = match select_first(doc, &block_query) {
        Some(b) => b,
        None => {
            return None;
        },
    };
    let row_query = css(ROW_SELECTOR);
    let cell_query = css(CELL_SELECTOR);
    let row_elements = select_within(&block, &row_query);
    let ghost page = doc.text();
    let ghost bpath = seq![(ENROLLMENT_SELECTOR@, 0nat)];
    let mut rows: Vec<Vec<String>> = Vec::new();
    let mut i: usize = 0;
    while i < row_elements.len()
        invariant
            i <= row_elements.len(),
            page == doc.text(),
            block.page() == page,
            block.path() == bpath,
            cell_query.text() == CELL_SELECTOR@,
            row_elements@.len() == match_count(page, bpath, ROW_SELECTOR@),
            forall|k: int|
                0 <= k < row_elements@.len() ==> (#[trigger] row_elements@[k]).page() == page
                    && row_elements@[k].path() == bpath.push((ROW_SELECTOR@, k as nat)),
            rows@.len() == i,
            forall|k: int|
                0 <= k < i ==> (#[trigger] rows@[k]).deep_view() == cells_at(
                    page,
                    bpath.push((ROW_SELECTOR@, k as nat)),
                ),
        decreases row_elements.len() - i,
    {
        rows.push(get_row_content(&row_elements[i], &cell_query));
        i = i + 1;
    }
    assert(rows.deep_view() =~= enrollment_rows_of(page)->Some_0);
    Some(rows)
}

/// Reads a course page: the course's display name, then its class and waitlist
/// enrollments. Every page gives a value; where the page lacks what is needed, the
/// error names the stage.
pub fn parse_document(body: &str) -> (r: Result<(String, Enrollment, Enrollment), ParseError>)
    ensures
        page_outcome(course_name_of(body@), enrollment_rows_of(body@), page_view(r)),
{
    let doc = parse_html(body);
    let name_query = css(COURSE_NAME_SELECTOR);
    let name = match select_first(&doc, &name_query) {
        Some(e) => Some(element_text(&e)),
        None => None,
    };
    let rows = if name.is_some() {
        enrollment_rows(&doc)
    } else {
        None
    };
    parse_page(name, rows)
}

/// Length of a course identifier, e.g. `239485`.
pub const CRN_LENGTH: usize = 6;

/// Whether `crn` has the length of a course identifier.
pub fn is_valid_crn(crn: &str) -> (r: bool)
    ensures
        r == (crn@.len() == CRN_LENGTH),
{
    crn.unicode_len() == CRN_LENGTH
}

/// Whether `term` is the code of a term of `season` at some date.
pub open spec fn is_term_code(season: Season, term: Seq<char>) -> bool {
    exists|year: int, month: int|
        1 <= month <= 12 && year <= MAX_YEAR && term == term_code(season, year, month)
}

/// One section's seat counts, read once from the registration page.
#[derive(Clone, Debug)]
pub struct Course {
    crn: String,
    season: Season,
    name: String,
    class_enrollment: Enrollment,
    waitlist_enrollment: Enrollment,
}

/// What a course record holds.
pub struct CourseView {
    pub crn: Seq<char>,
    pub season: Season,
    pub name: Seq<char>,
    pub class_enrollment: Enrollment,
    pub waitlist_enrollment: Enrollment,
}

impl View for Course {
    type V = CourseView;

    closed spec fn view(&self) -> CourseView {
        CourseView {
            crn: self.crn@,
            season: self.season,
            name: self.name@,
            class_enrollment: self.class_enrollment,
            waitlist_enrollment: self.waitlist_enrollment,
        }
    }
}

/// The cells of a course's table row: name, identifier, then class capacity, actual
/// and remaining seats.
pub open spec fn row_cells(c: CourseView) -> Seq<Seq<char>> {
    seq![
        c.name,
        c.crn,
        int_str(c.class_enrollment.capacity as int),
        int_str(c.class_enrollment.actual as int),
        int_str(c.class_enrollment.remaining as int),
    ]
}

impl Course {
    /// A record from values already read; the identifier must have the right length.
    pub fn from_parts(
        crn: String,
        season: Season,
        name: String,
        class_enrollment: Enrollment,
        waitlist_enrollment: Enrollment,
    ) -> (r: Result<Course, CourseError>)
        ensures
            crn@.len() != CRN_LENGTH <==> r == Err::<Course, CourseError>(
                CourseError::Validation(crn),
            ),
            crn@.len() == CRN_LENGTH ==> r is Ok,
            r matches Ok(c) ==> c@ == (CourseView {
                crn: crn@,
                season,
                name: name@,
                class_enrollment,
                waitlist_enrollment,
            }),
    {
        if !is_valid_crn(crn.as_str()) {
            return Err(CourseError::Validation(crn));
        }
        Ok(Course { crn, season, name, class_enrollment, waitlist_enrollment })
    }

    /// Builds the record of section `crn` in `season`. The identifier is checked
    /// before anything is fetched; then `fetch` is handed the term code and the
    /// identifier and returns the page, or why it could not.
    pub fn new<F: FnOnce(String, String) -> Result<String, String>>(
        crn: String,
        season: Season,
        fetch: F,
    ) -> (r: Result<Course, CourseError>)
        requires
            crn@.len() == CRN_LENGTH ==> forall|term: String, id: String|
                fetch.requires((term, id)),
        ensures
            crn@.len() != CRN_LENGTH <==> r == Err::<Course, CourseError>(
                CourseError::Validation(crn),
            ),
            r matches Err(CourseError::Validation(id)) ==> id == crn && crn@.len() != CRN_LENGTH,
            r matches Ok(c) ==> c@.crn == crn@ && c@.season == season && exists|
                term: String,
                body: String,
            |
                is_term_code(season, term@) && fetch.ensures((term, crn), Ok::<String, String>(body))
                    && page_outcome(
                    course_name_of(body@),
                    enrollment_rows_of(body@),
                    Ok((c@.name, c@.class_enrollment, c@.waitlist_enrollment)),
                ),
            r matches Err(CourseError::Network(id, reason)) ==> id == crn && exists|term: String|
                is_term_code(season, term@) && fetch.ensures(
                    (term, crn),
                    Err::<String, String>(reason),
                ),
            r matches Err(CourseError::Parse(id, e)) ==> id == crn && exists|
                term: String,
                body: String,
            |
                is_term_code(season, term@) && fetch.ensures((term, crn), Ok::<String, String>(body))
                    && page_outcome(course_name_of(body@), enrollment_rows_of(body@), Err(e)),
    {
        if !is_valid_crn(crn.as_str()) {
            return Err(CourseError::Validation(crn));
        }
        let term = season.get_term();
        let body = match fetch(term, crn.clone()) {
            Ok(body) => body,
            Err(reason) => {
                return Err(CourseError::Network(crn, reason));
            },
        };
        match parse_document(body.as_str()) {
            Ok((name, class_enrollment, waitlist_enrollment)) => Ok(
                Course { crn, season, name, class_enrollment, waitlist_enrollment },
            ),
            Err(e) => Err(CourseError::Parse(crn, e)),
        }
    }

    pub fn crn(&self) -> (r: &String)
        ensures
            r@ == self@.crn,
    {
        &self.crn
    }

    pub fn season(&self) -> (r: &Season)
        ensures
            *r == self@.season,
    {
        &self.season
    }

    pub fn name(&self) -> (r: &String)
        ensures
            r@ == self@.name,
    {
        &self.name
    }

    pub fn class_enrollment(&self) -> (r: &Enrollment)
        ensures
            *r == self@.class_enrollment,
    {
        &self.class_enrollment
    }

    pub fn waitlist_enrollment(&self) -> (r: &Enrollment)
        ensures
            *r == self@.waitlist_enrollment,
    {
        &self.waitlist_enrollment
    }

    /// The texts of this course's table row.
    pub fn ref_array(&self) -> (r: [String; 5])
        ensures
            r@.map_values(|s: String| s@) == row_cells(self@),
    {
        let r = [
            self.name.clone(),
            self.crn.clone(),
            int_text(self.class_enrollment.capacity as i64),
            int_text(self.class_enrollment.actual as i64),
            int_text(self.class_enrollment.remaining as i64),
        ];
        assert(r@.map_values(|s: String| s@) =~= row_cells(self@));
        r
    }
}

} // verus!
