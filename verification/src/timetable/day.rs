//! One day of the timetable: its date and the lessons of each of its cells.

use vstd::prelude::*;
use crate::calendar::{date_of, parse_date, Date};
use crate::dom::{matches_css, select, texts_of_all, texts_of_each};
use crate::text::{trim, trimmed};
use crate::timetable::lesson::{
    cell_entries, lessons_of, read_cell, Lesson, LessonEntry, LessonEntryView, LessonError,
    LessonErrorView, LessonView,
};
use crate::timetable::util::{lemma_try_map_fails, lemma_try_map_step, outcome, try_map};
use crate::timetable::{Type, TypeView};

verus! {

/// One day of the timetable.
#[derive(Debug, PartialEq, Eq)]
pub struct Day {
    /// The day's date; the permanent timetable prints none.
    pub date: Option<Date>,
    /// The lessons of each cell of the day, one cell for each hour.
    pub lessons: Vec<Vec<Lesson>>,
}

/// The mathematical value of a [`Day`].
pub struct DayView {
    pub date: Option<Date>,
    pub lessons: Seq<Seq<LessonView>>,
}

impl View for Day {
    type V = DayView;

    open spec fn view(&self) -> DayView {
        DayView { date: self.date, lessons: self.lessons.deep_view() }
    }
}

impl DeepView for Day {
    type V = DayView;

    open spec fn deep_view(&self) -> DayView {
        self@
    }
}

/// Why a day row does not decode.
#[derive(Debug)]
pub enum DayError {
    /// The row does not hold exactly one name element.
    NoName,
    /// The name element does not hold exactly one text.
    NoNameText,
    /// The row does not hold exactly one date element, or that element holds
    /// more than one text.
    NoDate,
    /// The printed date is no day and month, or no day of the calendar.
    ParseDate(String),
    /// The row holds no lessons.
    NoLessons,
    /// A lesson of the row does not decode.
    Lesson(LessonError),
}

/// The mathematical value of a [`DayError`].
pub enum DayErrorView {
    NoName,
    NoNameText,
    NoDate,
    ParseDate(Seq<char>),
    NoLessons,
    Lesson(LessonErrorView),
}

impl View for DayError {
    type V = DayErrorView;

    open spec fn view(&self) -> DayErrorView {
        match self {
            DayError::NoName => DayErrorView::NoName,
            DayError::NoNameText => DayErrorView::NoNameText,
            DayError::NoDate => DayErrorView::NoDate,
            DayError::ParseDate(text) => DayErrorView::ParseDate(text@),
            DayError::NoLessons => DayErrorView::NoLessons,
            DayError::Lesson(e) => DayErrorView::Lesson(e@),
        }
    }
}

impl DayError {
    /// The error in words.
    pub open spec fn wording(&self) -> Seq<char> {
        match self {
            DayError::NoName => "no name"@,
            DayError::NoNameText => "no name text"@,
            DayError::NoDate => "no date"@,
            DayError::ParseDate(text) => "failed to parse date: "@ + text@,
            DayError::NoLessons => "no lessons"@,
            DayError::Lesson(e) => "failed to parse lesson: "@ + e.wording(),
        }
    }

    /// The error in words.
    pub fn message(&self) -> (r: String)
        ensures
            r@ == self.wording(),
    {
        match self {
            DayError::NoName => String::from_str("no name"),
            DayError::NoNameText => String::from_str("no name text"),
            DayError::NoDate => String::from_str("no date"),
            DayError::ParseDate(text) => String::from_str("failed to parse date: ").concat(
                text.as_str(),
            ),
            DayError::NoLessons => String::from_str("no lessons"),
            DayError::Lesson(e) => String::from_str("failed to parse lesson: ").concat(
                e.message().as_str(),
            ),
        }
    }
}

/// The selector of the element that holds a day's date.
pub const DATE_SELECTOR: &'static str = "span.bk-day-date";

/// The selector of the cells of a day.
pub const CELL_SELECTOR: &'static str = "div.bk-timetable-cell";

/// What the decoder reads of one day row.
#[derive(Debug, PartialEq, Eq)]
pub struct DayRow {
    /// The text nodes of each element that [`DATE_SELECTOR`] selects.
    pub dates: Vec<Vec<String>>,
    /// The lesson entries of each cell that [`CELL_SELECTOR`] selects.
    pub cells: Vec<Vec<LessonEntry>>,
}

/// The mathematical value of a [`DayRow`].
pub struct DayRowView {
    pub dates: Seq<Seq<Seq<char>>>,
    pub cells: Seq<Seq<LessonEntryView>>,
}

impl View for DayRow {
    type V = DayRowView;

    open spec fn view(&self) -> DayRowView {
        DayRowView { dates: self.dates.deep_view(), cells: self.cells.deep_view() }
    }
}

impl DeepView for DayRow {
    type V = DayRowView;

    open spec fn deep_view(&self) -> DayRowView {
        self@
    }
}

/// The lesson entries of each of the cells `cells`.
pub open spec fn entries_of_each(cells: Seq<scraper::ElementRef>) -> Seq<Seq<LessonEntryView>> {
    Seq::new(cells.len(), |i: int| cell_entries(cells[i]))
}

/// What the decoder reads of the day row `day`.
pub open spec fn row_of(day: scraper::ElementRef) -> DayRowView {
    DayRowView {
        dates: texts_of_each(matches_css(day, DATE_SELECTOR@)),
        cells: entries_of_each(matches_css(day, CELL_SELECTOR@)),
    }
}

impl DayRow {
    /// Reads a day row off its element.
    pub fn read(day: scraper::ElementRef) -> (row: DayRow)
        ensures
            row@ == row_of(day),
    {
        let dates = texts_of_all(&select(day, DATE_SELECTOR));
        let found = select(day, CELL_SELECTOR);
        let mut cells: Vec<Vec<LessonEntry>> = Vec::new();
        let mut i: usize = 0;
        while i < found.len()
            invariant
                i <= found.len(),
                cells.len() == i,
                forall|j: int| 0 <= j < i ==> (#[trigger] cells[j]).deep_view() == cell_entries(found[j]),
            decreases found.len() - i,
        {
            cells.push(read_cell(found[i]));
            i += 1;
        }
        assert(cells.deep_view() =~= entries_of_each(found@));
        DayRow { dates, cells }
    }
}

/// The date that a day row prints, trimmed: none where the one date element
/// is empty.
pub open spec fn printed_date(dates: Seq<Seq<Seq<char>>>) -> Result<Option<Seq<char>>, DayErrorView> {
    if dates.len() != 1 || dates[0].len() > 1 {
        Err(DayErrorView::NoDate)
    } else if dates[0].len() == 0 {
        Ok(None)
    } else {
        Ok(Some(trimmed(dates[0][0])))
    }
}

/// The date of a day row, seen from `today`.
pub open spec fn day_date(dates: Seq<Seq<Seq<char>>>, today: Date) -> Result<Option<Date>, DayErrorView> {
    match printed_date(dates) {
        Err(e) => Err(e),
        Ok(None) => Ok(None),
        Ok(Some(text)) => match date_of(text, today) {
            None => Err(DayErrorView::ParseDate(text)),
            Some(date) => Ok(Some(date)),
        },
    }
}

/// The lessons of one cell of a day.
pub open spec fn cell_lessons(cell: Seq<LessonEntryView>, timetable_type: TypeView) -> Result<
    Seq<LessonView>,
    DayErrorView,
> {
    match lessons_of(cell, timetable_type) {
        Ok(lessons) => Ok(lessons),
        Err(e) => Err(DayErrorView::Lesson(e)),
    }
}

/// The decoding of the cell at an index of a day.
pub open spec fn cell_decoder(timetable_type: TypeView) -> spec_fn(int, Seq<LessonEntryView>) -> Result<
    Seq<LessonView>,
    DayErrorView,
> {
    |i: int, cell: Seq<LessonEntryView>| cell_lessons(cell, timetable_type)
}

/// The day that a day row decodes to, seen from `today`: its date first, then
/// its cells in order; the first that fails decides.
pub open spec fn day_of(row: DayRowView, timetable_type: TypeView, today: Date) -> Result<
    DayView,
    DayErrorView,
> {
    match day_date(row.dates, today) {
        Err(e) => Err(e),
        Ok(date) => match try_map(row.cells, cell_decoder(timetable_type)) {
            Err(e) => Err(e),
            Ok(lessons) => Ok(DayView { date, lessons }),
        },
    }
}

/// Decodes the date of a day row.
fn read_date(dates: &Vec<Vec<String>>, today: Date) -> (r: Result<Option<Date>, DayError>)
    requires
        today.wf(),
    ensures
        outcome(r) == day_date(dates.deep_view(), today),
{
    if dates.len() != 1 || dates[0].len() > 1 {
        return Err(DayError::NoDate);
    }
    if dates[0].len() == 0 {
        return Ok(None);
    }
    let text = trim(dates[0][0].as_str());
    match parse_date(text, today) {
        Some(date) => Ok(Some(date)),
        None => Err(DayError::ParseDate(text.to_owned())),
    }
}

impl Day {
    /// Decodes a day row, with `today` as the day from which a printed date
    /// is seen.
    pub fn from_row(row: &DayRow, timetable_type: &Type, today: Date) -> (r: Result<Day, DayError>)
        requires
            today.wf(),
        ensures
            outcome(r) == day_of(row@, timetable_type@, today),
    {
        let date = read_date(&row.dates, today)?;
        let ghost decode = cell_decoder(timetable_type@);
        let mut lessons: Vec<Vec<Lesson>> = Vec::new();
        let mut i: usize = 0;
        assert(row.cells.deep_view().take(0) =~= Seq::empty());
        assert(lessons.deep_view() =~= Seq::empty());
        while i < row.cells.len()
            invariant
                i <= row.cells.len(),
                decode == cell_decoder(timetable_type@),
                day_date(row.dates.deep_view(), today) == Ok::<Option<Date>, DayErrorView>(date),
                try_map(row.cells.deep_view().take(i as int), decode) == Ok::<
                    Seq<Seq<LessonView>>,
                    DayErrorView,
                >(lessons.deep_view()),
            decreases row.cells.len() - i,
        {
            let ghost before = lessons.deep_view();
            proof {
                lemma_try_map_step(row.cells.deep_view(), decode, i as int);
            }
            match Lesson::from_entries(&row.cells[i], timetable_type) {
                Ok(cell) => {
                    lessons.push(cell);
                    assert(lessons.deep_view() =~= before.push(cell.deep_view()));
                },
                Err(e) => {
                    proof {
                        lemma_try_map_fails(row.cells.deep_view(), decode, i + 1);
                    }
                    return Err(DayError::Lesson(e));
                },
            }
            i += 1;
        }
        assert(row.cells.deep_view().take(i as int) =~= row.cells.deep_view());
        Ok(Day { date, lessons })
    }

    /// Decodes the day row `day`, with `today` as the day from which a
    /// printed date is seen.
    pub fn parse_on(day: scraper::ElementRef, timetable_type: &Type, today: Date) -> (r: Result<
        Day,
        DayError,
    >)
        requires
            today.wf(),
        ensures
            outcome(r) == day_of(row_of(day), timetable_type@, today),
    {
        Day::from_row(&DayRow::read(day), timetable_type, today)
    }

    /// Decodes the day row `day`, with a printed date seen from the day that
    /// the machine's clock shows.
    pub fn parse(day: scraper::ElementRef, timetable_type: &Type) -> (r: Result<Day, DayError>)
        ensures
            exists|today: Date|
                today.wf() && outcome(r) == #[trigger] day_of(row_of(day), timetable_type@, today),
    {
        let today = Date::today();
        let r = Day::parse_on(day, timetable_type, today);
        assert(outcome(r) == day_of(row_of(day), timetable_type@, today));
        r
    }
}

} // verus!
