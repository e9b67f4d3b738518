use vstd::prelude::*;

use crate::course::{Course, CourseView, CRN_LENGTH};
use crate::text::{int_str, int_text};

verus! {

/// Height of one course row in the table, in lines.
pub const ITEM_HEIGHT: usize = 4;

/// Help text shown under the table.
pub const FOOTER_TEXT: &'static str = "(q) quit | (k) move up | (j) move down";

/// The titles of the table's columns.
pub fn header_cells() -> (r: [&'static str; 5])
    ensures
        r@.map_values(|s: &str| s@) == seq![
            "Name"@,
            "CRN"@,
            "Capacity"@,
            "Actual"@,
            "Remaining"@,
        ],
{
    let r = ["Name", "CRN", "Capacity", "Actual", "Remaining"];
    proof {
        reveal_strlit("Name");
        reveal_strlit("CRN");
        reveal_strlit("Capacity");
        reveal_strlit("Actual");
        reveal_strlit("Remaining");
        assert(r@.map_values(|s: &str| s@) =~= seq![
            "Name"@,
            "CRN"@,
            "Capacity"@,
            "Actual"@,
            "Remaining"@,
        ]);
    }
    r
}

/// How a course's row is coloured.
#[derive(Clone, Copy, Debug, PartialEq, Eq, Structural)]
pub enum RowColor {
    /// The class has no seat left.
    Alert,
    Normal,
}

/// The colour of a course's row: the alert colour exactly when no class seat remains.
pub fn determine_color(data: &Course) -> (r: RowColor)
    ensures
        r == RowColor::Alert <==> data@.class_enrollment.remaining == 0,
{
    if data.class_enrollment().remaining() == 0 {
        RowColor::Alert
    } else {
        RowColor::Normal
    }
}

/// A key press, as far as the dashboard tells keys apart.
#[derive(Clone, Copy, Debug, PartialEq, Eq, Structural)]
pub enum Key {
    Next,
    Previous,
    Quit,
    Other,
}

/// The dashboard's meaning of a typed character: `j` moves down, `k` moves up, `q`
/// quits.
pub fn key_for_char(c: char) -> (r: Key)
    ensures
        r == (if c == 'j' {
            Key::Next
        } else if c == 'k' {
            Key::Previous
        } else if c == 'q' {
            Key::Quit
        } else {
            Key::Other
        }),
{
    if c == 'j' {
        Key::Next
    } else if c == 'k' {
        Key::Previous
    } else if c == 'q' {
        Key::Quit
    } else {
        Key::Other
    }
}

/// The number of terminal columns that a text takes.
pub uninterp spec fn text_width(s: Seq<char>) -> nat;

/// Relies on `unicode_width::UnicodeWidthStr::width`: the displayed width of the
/// text, which depends on its characters alone.
#[verifier::external_body]
fn display_width(s: &str) -> (r: usize)
    ensures
        r == text_width(s@),
{
    unicode_width::UnicodeWidthStr::width(s)
}

/// The largest of a sequence of numbers, or zero for none.
pub open spec fn seq_max(s: Seq<nat>) -> nat
    decreases s.len(),
{
    if s.len() == 0 {
        0
    } else {
        let m = seq_max(s.drop_last());
        if s.last() > m {
            s.last()
        } else {
            m
        }
    }
}

/// A width as a terminal dimension, saturated at `u16::MAX`.
pub open spec fn clamp16(n: nat) -> u16 {
    if n > u16::MAX {
        u16::MAX
    } else {
        n as u16
    }
}

/// The width of each column over all courses: the widest name, the identifier
/// length, and the widest text of each class seat count.
pub open spec fn column_widths(cs: Seq<CourseView>) -> (u16, u16, u16, u16, u16) {
    (
        clamp16(seq_max(cs.map_values(|c: CourseView| text_width(c.name)))),
        CRN_LENGTH as u16,
        clamp16(
            seq_max(cs.map_values(|c: CourseView| int_str(c.class_enrollment.capacity as int).len())),
        ),
        clamp16(
            seq_max(cs.map_values(|c: CourseView| int_str(c.class_enrollment.actual as int).len())),
        ),
        clamp16(
            seq_max(
                cs.map_values(|c: CourseView| int_str(c.class_enrollment.remaining as int).len()),
            ),
        ),
    )
}

/// The courses' views.
pub open spec fn views(cs: Seq<Course>) -> Seq<CourseView> {
    cs.map_values(|c: Course| c@)
}

fn clamp_u16(n: usize) -> (r: u16)
    ensures
        r == clamp16(n as nat),
{
    if n > u16::MAX as usize {
        u16::MAX
    } else {
        n as u16
    }
}

fn max_of(ws: &Vec<usize>) -> (r: usize)
    ensures
        r == seq_max(ws@.map_values(|w: usize| w as nat)),
{
    let ghost s = ws@.map_values(|w: usize| w as nat);
    let mut m: usize = 0;
    let mut i: usize = 0;
    while i < ws.len()
        invariant
            i <= ws.len(),
            s == ws@.map_values(|w: usize| w as nat),
            m == seq_max(s.take(i as int)),
        decreases ws.len() - i,
    {
        assert(s.take(i as int + 1).drop_last() =~= s.take(i as int));
        if ws[i] > m {
            m = ws[i];
        }
        i = i + 1;
    }
    assert(s.take(ws.len() as int) =~= s);
    m
}

/// The width of each table column for these courses.
pub fn constraint_len_calculator(courses: &Vec<Course>) -> (r: (u16, u16, u16, u16, u16))
    ensures
        r == column_widths(views(courses@)),
{
    let ghost cs = views(courses@);
    let mut names: Vec<usize> = Vec::new();
    let mut capacities: Vec<usize> = Vec::new();
    let mut actuals: Vec<usize> = Vec::new();
    let mut remainings: Vec<usize> = Vec::new();
    let mut i: usize = 0;
    while i < courses.len()
        invariant
            i <= courses.len(),
            cs == views(courses@),
            names@.len() == i,
            capacities@.len() == i,
            actuals@.len() == i,
            remainings@.len() == i,
            forall|j: int| 0 <= j < i ==> names@[j] == text_width(#[trigger] cs[j].name),
            forall|j: int|
                0 <= j < i ==> capacities@[j] == int_str(
                    (#[trigger] cs[j]).class_enrollment.capacity as int,
                ).len(),
            forall|j: int|
                0 <= j < i ==> actuals@[j] == int_str(
                    (#[trigger] cs[j]).class_enrollment.actual as int,
                ).len(),
            forall|j: int|
                0 <= j < i ==> remainings@[j] == int_str(
                    (#[trigger] cs[j]).class_enrollment.remaining as int,
                ).len(),
        decreases courses.len() - i,
    {
        let c = &courses[i];
        names.push(display_width(c.name().as_str()));
        let e = c.class_enrollment();
        capacities.push(int_text(e.capacity() as i64).unicode_len());
        actuals.push(int_text(e.actual() as i64).unicode_len());
        remainings.push(int_text(e.remaining() as i64).unicode_len());
        i = i + 1;
    }
    assert(names@.map_values(|w: usize| w as nat) =~= cs.map_values(
        |c: CourseView| text_width(c.name),
    ));
    assert(capacities@.map_values(|w: usize| w as nat) =~= cs.map_values(
        |c: CourseView| int_str(c.class_enrollment.capacity as int).len(),
    ));
    assert(actuals@.map_values(|w: usize| w as nat) =~= cs.map_values(
        |c: CourseView| int_str(c.class_enrollment.actual as int).len(),
    ));
    assert(remainings@.map_values(|w: usize| w as nat) =~= cs.map_values(
        |c: CourseView| int_str(c.class_enrollment.remaining as int).len(),
    ));
    (
        clamp_u16(max_of(&names)),
        CRN_LENGTH as u16,
        clamp_u16(max_of(&capacities)),
        clamp_u16(max_of(&actuals)),
        clamp_u16(max_of(&remainings)),
    )
}


/// The selection after moving down among `n` rows: the next row, or the first
/// after the last.
pub open spec fn selected_after_next(selected: Option<usize>, n: nat) -> Option<usize> {
    match selected {
        None => None,
        Some(i) => Some(((i as int + 1) % (n as int)) as usize),
    }
}

/// The selection after moving up among `n` rows: the row before, or the last
/// before the first.
pub open spec fn selected_after_previous(selected: Option<usize>, n: nat) -> Option<usize> {
    match selected {
        None => None,
        Some(i) => Some(((i as int + n as int - 1) % (n as int)) as usize),
    }
}

/// Among `n >= 1` rows, moving down from the last row selects the first, and moving
/// up from the first row selects the last.
pub proof fn lemma_selection_wraps(n: nat)
    requires
        1 <= n <= usize::MAX,
    ensures
        selected_after_next(Some((n - 1) as usize), n) == Some(0usize),
        selected_after_previous(Some(0usize), n) == Some((n - 1) as usize),
{
    vstd::arithmetic::div_mod::lemma_mod_self_0(n as int);
    vstd::arithmetic::div_mod::lemma_small_mod((n - 1) as nat, n);
}

/// The dashboard: the courses, fixed for the session, and the view over them.
#[derive(Debug)]
pub struct App {
    courses: Vec<Course>,
    selected: Option<usize>,
    scroll_position: usize,
    longest_item_lens: (u16, u16, u16, u16, u16),
    exit: bool,
}

/// What the dashboard holds.
pub struct AppView {
    pub records: Seq<CourseView>,
    /// The selected row; `None` exactly when there are no records.
    pub selected: Option<usize>,
    /// The scroll indicator's position, in lines.
    pub scroll_position: usize,
    pub widths: (u16, u16, u16, u16, u16),
    pub exiting: bool,
}

impl View for App {
    type V = AppView;

    closed spec fn view(&self) -> AppView {
        AppView {
            records: views(self.courses@),
            selected: self.selected,
            scroll_position: self.scroll_position,
            widths: self.longest_item_lens,
            exiting: self.exit,
        }
    }
}

impl App {
    /// The selection is a row of the table whenever there is one, the scroll
    /// position follows it, and the widths are those of the records.
    pub open spec fn wf(&self) -> bool {
        let v = self@;
        &&& v.records.len() * ITEM_HEIGHT <= usize::MAX
        &&& match v.selected {
            None => v.records.len() == 0 && v.scroll_position == 0,
            Some(i) => i < v.records.len() && v.scroll_position == i * ITEM_HEIGHT,
        }
        &&& v.widths == column_widths(v.records)
    }

    /// A running dashboard over `courses`, with the first row selected.
    pub fn new(courses: Vec<Course>) -> (r: App)
        requires
            courses@.len() * ITEM_HEIGHT <= usize::MAX,
        ensures
            r.wf(),
            r@.records == views(courses@),
            r@.selected == (if courses@.len() == 0 {
                None
            } else {
                Some(0usize)
            }),
            !r@.exiting,
    {
        let longest_item_lens = constraint_len_calculator(&courses);
        let selected = if courses.len() == 0 {
            None
        } else {
            Some(0)
        };
        App { courses, selected, scroll_position: 0, longest_item_lens, exit: false }
    }

    /// Moves the selection one row down, from the last row to the first.
    pub fn next(&mut self)
        requires
            old(self).wf(),
        ensures
            final(self).wf(),
            final(self)@.records == old(self)@.records,
            final(self)@.exiting == old(self)@.exiting,
            final(self)@.selected == selected_after_next(old(self)@.selected, old(self)@.records.len()),
            old(self)@.records.len() == 0 ==> final(self)@ == old(self)@,
    {
        match self.selected {
            Some(i) => {
                let n = if i >= self.courses.len() - 1 {
                    0
                } else {
                    i + 1
                };
                assert(n == (i + 1) % (self.courses@.len() as int)) by {
                    if i + 1 < self.courses@.len() {
                        vstd::arithmetic::div_mod::lemma_small_mod(
                            (i + 1) as nat,
                            self.courses@.len(),
                        );
                    } else {
                        vstd::arithmetic::div_mod::lemma_mod_self_0(self.courses@.len() as int);
                    }
                }
                proof {
                    assert(n < self.courses@.len());
                    assert(n * ITEM_HEIGHT <= self.courses@.len() * ITEM_HEIGHT) by (nonlinear_arith)
                        requires
                            n < self.courses@.len(),
                    ;
                }
                self.selected = Some(n);
                self.scroll_position = n * ITEM_HEIGHT;
            },
            None => {},
        }
    }

    /// Moves the selection one row up, from the first row to the last.
    pub fn previous(&mut self)
        requires
            old(self).wf(),
        ensures
            final(self).wf(),
            final(self)@.records == old(self)@.records,
            final(self)@.exiting == old(self)@.exiting,
            final(self)@.selected == selected_after_previous(old(self)@.selected, old(self)@.records.len()),
            old(self)@.records.len() == 0 ==> final(self)@ == old(self)@,
    {
        match self.selected {
            Some(i) => {
                let n = if i == 0 {
                    self.courses.len() - 1
                } else {
                    i - 1
                };
                assert(n == (i + self.courses@.len() - 1) % (self.courses@.len() as int)) by {
                    if i == 0 {
                        vstd::arithmetic::div_mod::lemma_small_mod(
                            (self.courses@.len() - 1) as nat,
                            self.courses@.len(),
                        );
                    } else {
                        vstd::arithmetic::div_mod::lemma_mod_adds(
                            (i - 1) as int,
                            self.courses@.len() as int,
                            self.courses@.len() as int,
                        );
                        vstd::arithmetic::div_mod::lemma_mod_self_0(self.courses@.len() as int);
                        vstd::arithmetic::div_mod::lemma_small_mod(
                            (i - 1) as nat,
                            self.courses@.len(),
                        );
                    }
                }
                proof {
                    assert(n * ITEM_HEIGHT <= self.courses@.len() * ITEM_HEIGHT) by (nonlinear_arith)
                        requires
                            n < self.courses@.len(),
                    ;
                }
                self.selected = Some(n);
                self.scroll_position = n * ITEM_HEIGHT;
            },
            None => {},
        }
    }

    /// Stops the dashboard.
    pub fn exit(&mut self)
        ensures
            final(self)@ == (AppView { exiting: true, ..old(self)@ }),
    {
        self.exit = true;
    }

    /// One step of the dashboard on a key press.
    pub fn handle_key_event(&mut self, key: Key)
        requires
            old(self).wf(),
        ensures
            final(self).wf(),
            final(self)@.records == old(self)@.records,
            key == Key::Quit ==> final(self)@ == (AppView { exiting: true, ..old(self)@ }),
            key == Key::Next ==> final(self)@.selected == selected_after_next(old(self)@.selected, old(self)@.records.len()) && final(self)@.exiting == old(self)@.exiting,
            key == Key::Previous ==> final(self)@.selected == selected_after_previous(old(self)@.selected, old(self)@.records.len()) && final(self)@.exiting == old(self)@.exiting,
            key == Key::Other ==> final(self)@ == old(self)@,
    {
        match key {
            Key::Quit => self.exit(),
            Key::Next => self.next(),
            Key::Previous => self.previous(),
            Key::Other => {},
        }
    }

    pub fn is_exiting(&self) -> (r: bool)
        ensures
            r == self@.exiting,
    {
        self.exit
    }

    pub fn courses(&self) -> (r: &Vec<Course>)
        ensures
            views(r@) == self@.records,
    {
        &self.courses
    }

    pub fn selected(&self) -> (r: Option<usize>)
        ensures
            r == self@.selected,
    {
        self.selected
    }

    pub fn scroll_position(&self) -> (r: usize)
        ensures
            r == self@.scroll_position,
    {
        self.scroll_position
    }

    /// The length of the scrolled content, in lines: the offset of the last row.
    pub fn content_length(&self) -> (r: usize)
        requires
            self.wf(),
        ensures
            r == (if self@.records.len() == 0 {
                0
            } else {
                (self@.records.len() - 1) * ITEM_HEIGHT
            }),
    {
        if self.courses.len() == 0 {
            0
        } else {
            (self.courses.len() - 1) * ITEM_HEIGHT
        }
    }

    pub fn longest_item_lens(&self) -> (r: (u16, u16, u16, u16, u16))
        ensures
            r == self@.widths,
            self.wf() ==> r == column_widths(self@.records),
    {
        self.longest_item_lens
    }
}

} // verus!
