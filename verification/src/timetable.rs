//! The timetable model and its decoding from a page.

use vstd::prelude::*;
use crate::calendar::Date;
use crate::dom::{document_matches_css, parse_document, parsed_document, select_document};
use self::day::{day_of, row_of, Day, DayError, DayErrorView, DayRow, DayRowView, DayView};
use self::hour::{block_of, hour_of, printed_number, Hour, HourBlock, HourBlockView, HourError, HourErrorView};
use self::util::{lemma_try_map_fails, lemma_try_map_ok, lemma_try_map_step, outcome, try_map};

pub mod day;
pub mod hour;
pub mod lesson;
pub mod util;

verus! {

/// Which of the portal's three timetables to get.
#[derive(Debug, PartialEq, Eq, Hash, Clone, Copy, Structural)]
pub enum Which {
    /// The permanent timetable.
    Permanent,
    /// The timetable of the current week.
    Actual,
    /// The timetable of the next week.
    Next,
}

impl Which {
    /// The name of the timetable in the portal's paths.
    pub open spec fn name(self) -> Seq<char> {
        match self {
            Which::Permanent => "permanent"@,
            Which::Actual => "actual"@,
            Which::Next => "next"@,
        }
    }

    /// The name of the timetable in the portal's paths.
    pub fn as_str(&self) -> (r: &'static str)
        ensures
            r@ == self.name(),
    {
        match self {
            Which::Permanent => "permanent",
            Which::Actual => "actual",
            Which::Next => "next",
        }
    }
}

/// The kind of subject that a timetable belongs to.
#[derive(Debug, PartialEq, Eq, Hash, Clone, Copy, Structural)]
pub enum RawType {
    Teacher,
    Class,
    Room,
}

impl RawType {
    /// The name of the kind in the portal's paths.
    pub open spec fn name(self) -> Seq<char> {
        match self {
            RawType::Teacher => "teacher"@,
            RawType::Class => "class"@,
            RawType::Room => "room"@,
        }
    }

    /// The name of the kind in the portal's paths.
    pub fn as_str(&self) -> (r: &'static str)
        ensures
            r@ == self.name(),
    {
        match self {
            RawType::Teacher => "teacher",
            RawType::Class => "class",
            RawType::Room => "room",
        }
    }
}

/// The subject of a timetable: its kind and the portal's identifier of it.
#[derive(Debug, PartialEq, Eq, Hash)]
pub enum Type {
    Teacher(String),
    Class(String),
    Room(String),
}

/// The mathematical value of a [`Type`].
pub enum TypeView {
    Teacher(Seq<char>),
    Class(Seq<char>),
    Room(Seq<char>),
}

impl TypeView {
    /// The kind of the subject.
    pub open spec fn kind(self) -> RawType {
        match self {
            TypeView::Teacher(_) => RawType::Teacher,
            TypeView::Class(_) => RawType::Class,
            TypeView::Room(_) => RawType::Room,
        }
    }

    /// The portal's identifier of the subject.
    pub open spec fn id(self) -> Seq<char> {
        match self {
            TypeView::Teacher(id) => id,
            TypeView::Class(id) => id,
            TypeView::Room(id) => id,
        }
    }

    /// The subject as the portal's paths write it: kind, a slash, identifier.
    pub open spec fn path(self) -> Seq<char> {
        self.kind().name() + "/"@ + self.id()
    }
}

impl View for Type {
    type V = TypeView;

    open spec fn view(&self) -> TypeView {
        match self {
            Type::Teacher(id) => TypeView::Teacher(id@),
            Type::Class(id) => TypeView::Class(id@),
            Type::Room(id) => TypeView::Room(id@),
        }
    }
}

impl Clone for Type {
    fn clone(&self) -> (r: Type)
        ensures
            r@ == self@,
    {
        match self {
            Type::Teacher(id) => Type::Teacher(id.clone()),
            Type::Class(id) => Type::Class(id.clone()),
            Type::Room(id) => Type::Room(id.clone()),
        }
    }
}

impl DeepView for Type {
    type V = TypeView;

    open spec fn deep_view(&self) -> TypeView {
        self@
    }
}

impl Type {
    /// The kind of the subject.
    pub fn kind(&self) -> (r: RawType)
        ensures
            r == self@.kind(),
    {
        match self {
            Type::Teacher(_) => RawType::Teacher,
            Type::Class(_) => RawType::Class,
            Type::Room(_) => RawType::Room,
        }
    }

    /// The portal's identifier of the subject.
    pub fn id(&self) -> (r: &str)
        ensures
            r@ == self@.id(),
    {
        match self {
            Type::Teacher(id) => id.as_str(),
            Type::Class(id) => id.as_str(),
            Type::Room(id) => id.as_str(),
        }
    }

    /// The subject as the portal's paths write it: kind, a slash, identifier.
    pub fn to_path(&self) -> (r: String)
        ensures
            r@ == self@.path(),
    {
        let mut path = String::from_str(self.kind().as_str());
        path.append("/");
        path.append(self.id());
        path
    }
}

/// A timetable: the hours of its header and its days.
#[derive(Debug, PartialEq, Eq)]
pub struct Timetable {
    pub hours: Vec<Hour>,
    pub days: Vec<Day>,
}

/// The mathematical value of a [`Timetable`].
pub struct TimetableView {
    pub hours: Seq<Hour>,
    pub days: Seq<DayView>,
}

impl TimetableView {
    /// Every day has one cell for each hour.
    pub open spec fn wf(self) -> bool {
        forall|d: int| 0 <= d < self.days.len() ==> (#[trigger] self.days[d]).lessons.len() == self.hours.len()
    }
}

impl View for Timetable {
    type V = TimetableView;

    open spec fn view(&self) -> TimetableView {
        TimetableView { hours: self.hours@, days: self.days.deep_view() }
    }
}

impl DeepView for Timetable {
    type V = TimetableView;

    open spec fn deep_view(&self) -> TimetableView {
        self@
    }
}

/// Why a page does not decode to a timetable.
#[derive(Debug)]
pub enum TimetableError {
    /// An hour of the header does not decode.
    Hour(HourError),
    /// A day does not decode.
    Day(DayError),
    /// A day does not have one cell for each hour.
    MismatchedCells,
}

/// The mathematical value of a [`TimetableError`].
pub enum TimetableErrorView {
    Hour(HourErrorView),
    Day(DayErrorView),
    MismatchedCells,
}

impl View for TimetableError {
    type V = TimetableErrorView;

    open spec fn view(&self) -> TimetableErrorView {
        match self {
            TimetableError::Hour(e) => TimetableErrorView::Hour(e@),
            TimetableError::Day(e) => TimetableErrorView::Day(e@),
            TimetableError::MismatchedCells => TimetableErrorView::MismatchedCells,
        }
    }
}

impl TimetableError {
    /// The error in words.
    pub open spec fn wording(&self) -> Seq<char> {
        match self {
            TimetableError::Hour(e) => "failed to parse hour: "@ + e.wording(),
            TimetableError::Day(e) => "failed to parse day: "@ + e.wording(),
            TimetableError::MismatchedCells => "mismatched number of cells"@,
        }
    }

    /// The error in words.
    pub fn message(&self) -> (r: String)
        ensures
            r@ == self.wording(),
    {
        match self {
            TimetableError::Hour(e) => String::from_str("failed to parse hour: ").concat(
                e.message().as_str(),
            ),
            TimetableError::Day(e) => String::from_str("failed to parse day: ").concat(
                e.message().as_str(),
            ),
            TimetableError::MismatchedCells => String::from_str("mismatched number of cells"),
        }
    }
}

/// The selector of the hour blocks of a page.
pub const HOUR_SELECTOR: &'static str = "div.bk-hour-wrapper";

/// The selector of the day rows of a page.
pub const DAY_SELECTOR: &'static str = "div.bk-timetable-row";

/// What the decoder reads of a timetable page.
#[derive(Debug, PartialEq, Eq)]
pub struct Page {
    /// The hour blocks, in document order.
    pub hours: Vec<HourBlock>,
    /// The day rows, in document order.
    pub days: Vec<DayRow>,
}

/// The mathematical value of a [`Page`].
pub struct PageView {
    pub hours: Seq<HourBlockView>,
    pub days: Seq<DayRowView>,
}

impl View for Page {
    type V = PageView;

    open spec fn view(&self) -> PageView {
        PageView { hours: self.hours.deep_view(), days: self.days.deep_view() }
    }
}

/// What the decoder reads of each of the hour blocks `hours`.
pub open spec fn blocks_of_each(hours: Seq<scraper::ElementRef>) -> Seq<HourBlockView> {
    Seq::new(hours.len(), |i: int| block_of(hours[i]))
}

/// What the decoder reads of each of the day rows `days`.
pub open spec fn rows_of_each(days: Seq<scraper::ElementRef>) -> Seq<DayRowView> {
    Seq::new(days.len(), |i: int| row_of(days[i]))
}

/// What the decoder reads of the document `document`.
pub open spec fn page_of(document: &scraper::Html) -> PageView {
    PageView {
        hours: blocks_of_each(document_matches_css(document, HOUR_SELECTOR@)),
        days: rows_of_each(document_matches_css(document, DAY_SELECTOR@)),
    }
}

impl Page {
    /// Reads a timetable page off its document.
    pub fn read(document: &scraper::Html) -> (page: Page)
        ensures
            page@ == page_of(document),
    {
        let found = select_document(document, HOUR_SELECTOR);
        let mut hours: Vec<HourBlock> = Vec::new();
        let mut i: usize = 0;
        while i < found.len()
            invariant
                i <= found.len(),
                hours.len() == i,
                forall|j: int| 0 <= j < i ==> (#[trigger] hours[j])@ == block_of(found[j]),
            decreases found.len() - i,
        {
            hours.push(HourBlock::read(found[i]));
            i += 1;
        }
        assert(hours.deep_view() =~= blocks_of_each(found@));
        let rows = select_document(document, DAY_SELECTOR);
        let mut days: Vec<DayRow> = Vec::new();
        let mut k: usize = 0;
        while k < rows.len()
            invariant
                k <= rows.len(),
                days.len() == k,
                forall|j: int| 0 <= j < k ==> (#[trigger] days[j])@ == row_of(rows[j]),
            decreases rows.len() - k,
        {
            days.push(DayRow::read(rows[k]));
            k += 1;
        }
        assert(days.deep_view() =~= rows_of_each(rows@));
        Page { hours, days }
    }
}

/// The decoding of the hour block at an index of the header.
pub open spec fn hour_decoder() -> spec_fn(int, HourBlockView) -> Result<Hour, HourErrorView> {
    |i: int, block: HourBlockView| hour_of(block, i)
}

/// The hours that the hour blocks of a page decode to, in the order of the
/// blocks; the first block that fails decides.
pub open spec fn hours_of(blocks: Seq<HourBlockView>) -> Result<Seq<Hour>, HourErrorView> {
    try_map(blocks, hour_decoder())
}

/// The decoding of the day row at an index of the page.
pub open spec fn day_decoder(timetable_type: TypeView, today: Date) -> spec_fn(int, DayRowView) -> Result<
    DayView,
    DayErrorView,
> {
    |i: int, row: DayRowView| day_of(row, timetable_type, today)
}

/// The days that the day rows of a page decode to, in the order of the rows;
/// the first row that fails decides.
pub open spec fn days_of(rows: Seq<DayRowView>, timetable_type: TypeView, today: Date) -> Result<
    Seq<DayView>,
    DayErrorView,
> {
    try_map(rows, day_decoder(timetable_type, today))
}

/// The timetable that a page decodes to, seen from `today`: its hours, then
/// its days, and then every day must have one cell for each hour.
pub open spec fn timetable_of(page: PageView, timetable_type: TypeView, today: Date) -> Result<
    TimetableView,
    TimetableErrorView,
> {
    match hours_of(page.hours) {
        Err(e) => Err(TimetableErrorView::Hour(e)),
        Ok(hours) => match days_of(page.days, timetable_type, today) {
            Err(e) => Err(TimetableErrorView::Day(e)),
            Ok(days) => {
                let timetable = TimetableView { hours, days };
                if timetable.wf() {
                    Ok(timetable)
                } else {
                    Err(TimetableErrorView::MismatchedCells)
                }
            },
        },
    }
}

/// Decodes the hour blocks of a page, in order.
pub fn decode_hours(blocks: &Vec<HourBlock>) -> (r: Result<Vec<Hour>, HourError>)
    ensures
        outcome(r) == hours_of(blocks.deep_view()),
{
    let ghost decode = hour_decoder();
    let mut hours: Vec<Hour> = Vec::new();
    let mut i: usize = 0;
    assert(blocks.deep_view().take(0) =~= Seq::empty());
    assert(hours.deep_view() =~= Seq::empty());
    while i < blocks.len()
        invariant
            i <= blocks.len(),
            decode == hour_decoder(),
            try_map(blocks.deep_view().take(i as int), decode) == Ok::<Seq<Hour>, HourErrorView>(
                hours.deep_view(),
            ),
        decreases blocks.len() - i,
    {
        let ghost before = hours.deep_view();
        proof {
            lemma_try_map_step(blocks.deep_view(), decode, i as int);
        }
        match Hour::from_block(&blocks[i], i) {
            Ok(hour) => {
                hours.push(hour);
                assert(hours.deep_view() =~= before.push(hour));
            },
            Err(e) => {
                proof {
                    lemma_try_map_fails(blocks.deep_view(), decode, i + 1);
                }
                return Err(e);
            },
        }
        i += 1;
    }
    assert(blocks.deep_view().take(i as int) =~= blocks.deep_view());
    Ok(hours)
}

/// Decodes the day rows of a page, in order, with `today` as the day from
/// which a printed date is seen.
pub fn decode_days(rows: &Vec<DayRow>, timetable_type: &Type, today: Date) -> (r: Result<
    Vec<Day>,
    DayError,
>)
    requires
        today.wf(),
    ensures
        outcome(r) == days_of(rows.deep_view(), timetable_type@, today),
{
    let ghost decode = day_decoder(timetable_type@, today);
    let mut days: Vec<Day> = Vec::new();
    let mut i: usize = 0;
    assert(rows.deep_view().take(0) =~= Seq::empty());
    assert(days.deep_view() =~= Seq::empty());
    while i < rows.len()
        invariant
            i <= rows.len(),
            today.wf(),
            decode == day_decoder(timetable_type@, today),
            try_map(rows.deep_view().take(i as int), decode) == Ok::<Seq<DayView>, DayErrorView>(
                days.deep_view(),
            ),
        decreases rows.len() - i,
    {
        let ghost before = days.deep_view();
        proof {
            lemma_try_map_step(rows.deep_view(), decode, i as int);
        }
        match Day::from_row(&rows[i], timetable_type, today) {
            Ok(day) => {
                days.push(day);
                assert(days.deep_view() =~= before.push(day@));
            },
            Err(e) => {
                proof {
                    lemma_try_map_fails(rows.deep_view(), decode, i + 1);
                }
                return Err(e);
            },
        }
        i += 1;
    }
    assert(rows.deep_view().take(i as int) =~= rows.deep_view());
    Ok(days)
}

impl Timetable {
    /// Whether every day has one cell for each hour.
    pub fn is_wf(&self) -> (r: bool)
        ensures
            r == self@.wf(),
    {
        let mut d: usize = 0;
        while d < self.days.len()
            invariant
                d <= self.days.len(),
                forall|j: int| 0 <= j < d ==> (#[trigger] self@.days[j]).lessons.len() == self.hours.len(),
            decreases self.days.len() - d,
        {
            if self.days[d].lessons.len() != self.hours.len() {
                assert(self@.days[d as int].lessons.len() != self@.hours.len());
                return false;
            }
            assert(self@.days[d as int].lessons.len() == self.hours.len());
            d += 1;
        }
        true
    }

    /// Decodes what was read of a timetable page, with `today` as the day
    /// from which a printed date is seen.
    pub fn from_page(page: &Page, timetable_type: &Type, today: Date) -> (r: Result<
        Timetable,
        TimetableError,
    >)
        requires
            today.wf(),
        ensures
            outcome(r) == timetable_of(page@, timetable_type@, today),
            r matches Ok(timetable) ==> timetable@.wf(),
    {
        let hours = match decode_hours(&page.hours) {
            Ok(hours) => hours,
            Err(e) => { return Err(TimetableError::Hour(e)); },
        };
        let days = match decode_days(&page.days, timetable_type, today) {
            Ok(days) => days,
            Err(e) => { return Err(TimetableError::Day(e)); },
        };
        let timetable = Timetable { hours, days };
        assert(timetable@.hours =~= hours.deep_view());
        if timetable.is_wf() {
            Ok(timetable)
        } else {
            Err(TimetableError::MismatchedCells)
        }
    }

    /// Decodes the timetable page `html`, with `today` as the day from which
    /// a printed date is seen.
    pub fn parse_on(html: &str, table_type: &Type, today: Date) -> (r: Result<Timetable, TimetableError>)
        requires
            today.wf(),
        ensures
            outcome(r) == timetable_of(page_of(&parsed_document(html@)), table_type@, today),
            r matches Ok(timetable) ==> timetable@.wf(),
    {
        let document = parse_document(html);
        let page = Page::read(&document);
        Timetable::from_page(&page, table_type, today)
    }

    /// Decodes the timetable page `html`, with a printed date seen from the
    /// day that the machine's clock shows.
    pub fn parse(html: &str, table_type: &Type) -> (r: Result<Timetable, TimetableError>)
        ensures
            exists|today: Date|
                today.wf() && outcome(r) == #[trigger] timetable_of(
                    page_of(&parsed_document(html@)),
                    table_type@,
                    today,
                ),
            r matches Ok(timetable) ==> timetable@.wf(),
    {
        let today = Date::today();
        let r = Timetable::parse_on(html, table_type, today);
        assert(outcome(r) == timetable_of(page_of(&parsed_document(html@)), table_type@, today));
        r
    }
}

/// Hour blocks that decode give one hour for each block, in the order of the
/// blocks, and each block prints its position in the header, counted from 1:
/// a header in which a number is skipped or repeated does not decode.
pub proof fn lemma_hours_in_order(blocks: Seq<HourBlockView>)
    ensures
        match hours_of(blocks) {
            Ok(hours) => {
                &&& hours.len() == blocks.len()
                &&& forall|i: int| 0 <= i < blocks.len() ==> hour_of(#[trigger] blocks[i], i) == Ok::<Hour, HourErrorView>(hours[i])
                &&& forall|i: int| 0 <= i < blocks.len() ==> printed_number((#[trigger] blocks[i]).nums[0][0]) == Some(i + 1)
            },
            Err(e) => exists|i: int| 0 <= i < blocks.len() && hour_of(#[trigger] blocks[i], i) == Err::<Hour, HourErrorView>(e),
        },
{
    lemma_try_map_ok(blocks, hour_decoder());
    match hours_of(blocks) {
        Ok(hours) => {
            assert forall|i: int| 0 <= i < blocks.len() implies hour_of(#[trigger] blocks[i], i) == Ok::<Hour, HourErrorView>(hours[i]) by {
                assert(hour_decoder()(i, blocks[i]) == Ok::<Hour, HourErrorView>(hours[i]));
            }
        },
        Err(e) => {
            let i = choose|i: int|
                {
                    &&& 0 <= i < blocks.len()
                    &&& hour_decoder()(i, #[trigger] blocks[i]) == Err::<Hour, HourErrorView>(e)
                    &&& forall|j: int| 0 <= j < i ==> hour_decoder()(j, #[trigger] blocks[j]) is Ok
                };
            assert(hour_of(blocks[i], i) == Err::<Hour, HourErrorView>(e));
        },
    }
}

/// A header in which the block at position `at` prints another number than
/// `at + 1` does not decode.
pub proof fn lemma_misnumbered_hour_fails(blocks: Seq<HourBlockView>, at: int)
    requires
        0 <= at < blocks.len(),
        blocks[at].nums.len() == 1,
        blocks[at].nums[0].len() == 1,
        printed_number(blocks[at].nums[0][0]) != Some(at + 1),
    ensures
        hours_of(blocks) is Err,
{
    lemma_hours_in_order(blocks);
}

/// In a timetable that a page decodes to, every day has as many lesson slots
/// as the page has hour blocks, which is the number of the decoded hours.
pub proof fn lemma_slots_match_hours(page: PageView, timetable_type: TypeView, today: Date)
    ensures
        match timetable_of(page, timetable_type, today) {
            Ok(timetable) => {
                &&& timetable.hours.len() == page.hours.len()
                &&& timetable.days.len() == page.days.len()
                &&& forall|d: int| 0 <= d < timetable.days.len() ==> (#[trigger] timetable.days[d]).lessons.len() == timetable.hours.len()
            },
            Err(_) => true,
        },
{
    lemma_try_map_ok(page.hours, hour_decoder());
    lemma_try_map_ok(page.days, day_decoder(timetable_type, today));
}

/// A page whose hours and days decode, but with a day that has another
/// number of cells than there are hours, does not decode to a timetable.
pub proof fn lemma_mismatched_cells_fail(page: PageView, timetable_type: TypeView, today: Date, d: int)
    requires
        hours_of(page.hours) is Ok,
        days_of(page.days, timetable_type, today) is Ok,
        0 <= d < page.days.len(),
        page.days[d].cells.len() != page.hours.len(),
    ensures
        timetable_of(page, timetable_type, today) == Err::<TimetableView, TimetableErrorView>(
            TimetableErrorView::MismatchedCells,
        ),
{
    lemma_try_map_ok(page.hours, hour_decoder());
    lemma_try_map_ok(page.days, day_decoder(timetable_type, today));
    let days = days_of(page.days, timetable_type, today)->Ok_0;
    assert(day_decoder(timetable_type, today)(d, page.days[d]) == Ok::<DayView, DayErrorView>(days[d]));
    lemma_try_map_ok(page.days[d].cells, self::day::cell_decoder(timetable_type));
    assert(days[d].lessons.len() == page.days[d].cells.len());
}

} // verus!
