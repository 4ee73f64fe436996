//! One hour of the timetable's header: when it starts and how long it lasts.

use vstd::prelude::*;
use crate::calendar::{
    minutes_between, parse_time, parsed_time, time_error_message, time_error_words, Time, TIME_FORMAT,
};
use crate::dom::{matches_css, select, texts_of_all, texts_of_each};
use crate::text::{decimal, int_error_message, int_error_words, parse_usize};
use crate::timetable::util::{outcome, single};

verus! {

/// One hour of the timetable's header.
#[derive(Debug, PartialEq, Eq, Hash, Clone, Copy, Structural)]
pub struct Hour {
    /// When the hour starts.
    pub start: Time,
    /// How many minutes it lasts.
    pub duration: i64,
}

impl View for Hour {
    type V = Hour;

    open spec fn view(&self) -> Hour {
        *self
    }
}

impl DeepView for Hour {
    type V = Hour;

    open spec fn deep_view(&self) -> Hour {
        *self
    }
}

/// Why an hour block does not decode.
#[derive(Debug)]
pub enum HourError {
    /// The block does not hold exactly one number element.
    NoNum,
    /// The number element does not hold exactly one text.
    NoNumText,
    /// The number's text is no number.
    ParseNum(core::num::ParseIntError),
    /// The number is not the block's position in the header.
    MismatchedNum,
    /// The block holds no time element.
    NoFrom,
    /// The element of the start does not hold exactly one text.
    NoFromText,
    /// The text of the start is no time.
    ParseFrom(chrono::ParseError),
    /// The block holds no second time element.
    NoDash,
    /// The block does not hold exactly three time elements.
    NoTo,
    /// The element of the end does not hold exactly one text.
    NoToText,
    /// The text of the end is no time.
    ParseTo(chrono::ParseError),
}

/// The mathematical value of an [`HourError`].
pub enum HourErrorView {
    NoNum,
    NoNumText,
    ParseNum,
    MismatchedNum,
    NoFrom,
    NoFromText,
    ParseFrom,
    NoDash,
    NoTo,
    NoToText,
    ParseTo,
}

impl View for HourError {
    type V = HourErrorView;

    open spec fn view(&self) -> HourErrorView {
        match self {
            HourError::NoNum => HourErrorView::NoNum,
            HourError::NoNumText => HourErrorView::NoNumText,
            HourError::ParseNum(_) => HourErrorView::ParseNum,
            HourError::MismatchedNum => HourErrorView::MismatchedNum,
            HourError::NoFrom => HourErrorView::NoFrom,
            HourError::NoFromText => HourErrorView::NoFromText,
            HourError::ParseFrom(_) => HourErrorView::ParseFrom,
            HourError::NoDash => HourErrorView::NoDash,
            HourError::NoTo => HourErrorView::NoTo,
            HourError::NoToText => HourErrorView::NoToText,
            HourError::ParseTo(_) => HourErrorView::ParseTo,
        }
    }
}

impl HourError {
    /// The error in words; where a text did not parse, with the words of the
    /// parser that refused it.
    pub open spec fn wording(&self) -> Seq<char> {
        match self {
            HourError::NoNum => "no number"@,
            HourError::NoNumText => "no number text"@,
            HourError::ParseNum(e) => "failed to parse number: "@ + int_error_words(*e),
            HourError::MismatchedNum => "mismatched number"@,
            HourError::NoFrom => "no from"@,
            HourError::NoFromText => "no from text"@,
            HourError::ParseFrom(e) => "failed to parse from: "@ + time_error_words(*e),
            HourError::NoDash => "no dash"@,
            HourError::NoTo => "no to"@,
            HourError::NoToText => "no to text"@,
            HourError::ParseTo(e) => "failed to parse to: "@ + time_error_words(*e),
        }
    }

    /// The error in words.
    pub fn message(&self) -> (r: String)
        ensures
            r@ == self.wording(),
    {
        match self {
            HourError::NoNum => String::from_str("no number"),
            HourError::NoNumText => String::from_str("no number text"),
            HourError::ParseNum(e) => String::from_str("failed to parse number: ").concat(
                int_error_message(e).as_str(),
            ),
            HourError::MismatchedNum => String::from_str("mismatched number"),
            HourError::NoFrom => String::from_str("no from"),
            HourError::NoFromText => String::from_str("no from text"),
            HourError::ParseFrom(e) => String::from_str("failed to parse from: ").concat(
                time_error_message(e).as_str(),
            ),
            HourError::NoDash => String::from_str("no dash"),
            HourError::NoTo => String::from_str("no to"),
            HourError::NoToText => String::from_str("no to text"),
            HourError::ParseTo(e) => String::from_str("failed to parse to: ").concat(
                time_error_message(e).as_str(),
            ),
        }
    }
}

/// The selector of the element that holds an hour's number.
pub const NUM_SELECTOR: &'static str = "div.num";

/// The selector of the elements that hold an hour's start, a dash and its end.
pub const TIMES_SELECTOR: &'static str = "div.hour > span";

/// What the decoder reads of one hour block.
#[derive(Debug, PartialEq, Eq)]
pub struct HourBlock {
    /// The text nodes of each element that [`NUM_SELECTOR`] selects.
    pub nums: Vec<Vec<String>>,
    /// The text nodes of each element that [`TIMES_SELECTOR`] selects.
    pub times: Vec<Vec<String>>,
}

/// The mathematical value of an [`HourBlock`].
pub struct HourBlockView {
    pub nums: Seq<Seq<Seq<char>>>,
    pub times: Seq<Seq<Seq<char>>>,
}

impl View for HourBlock {
    type V = HourBlockView;

    open spec fn view(&self) -> HourBlockView {
        HourBlockView { nums: self.nums.deep_view(), times: self.times.deep_view() }
    }
}

impl DeepView for HourBlock {
    type V = HourBlockView;

    open spec fn deep_view(&self) -> HourBlockView {
        self@
    }
}

/// What the decoder reads of the hour block `hour`.
pub open spec fn block_of(hour: scraper::ElementRef) -> HourBlockView {
    HourBlockView {
        nums: texts_of_each(matches_css(hour, NUM_SELECTOR@)),
        times: texts_of_each(matches_css(hour, TIMES_SELECTOR@)),
    }
}

impl HourBlock {
    /// Reads an hour block off its element.
    pub fn read(hour: scraper::ElementRef) -> (block: HourBlock)
        ensures
            block@ == block_of(hour),
    {
        let nums = texts_of_all(&select(hour, NUM_SELECTOR));
        let times = texts_of_all(&select(hour, TIMES_SELECTOR));
        HourBlock { nums, times }
    }
}

/// The number that an hour block prints, where its text writes one that a
/// position can be.
pub open spec fn printed_number(text: Seq<char>) -> Option<int> {
    match decimal(text) {
        Some(n) if n <= usize::MAX => Some(n as int),
        _ => None,
    }
}

/// The hour that the block at position `index` of the header decodes to. The
/// block must print the number `index + 1`, and hold a start, a dash and an
/// end.
pub open spec fn hour_of(block: HourBlockView, index: int) -> Result<Hour, HourErrorView> {
    if block.nums.len() != 1 {
        Err(HourErrorView::NoNum)
    } else if block.nums[0].len() != 1 {
        Err(HourErrorView::NoNumText)
    } else if printed_number(block.nums[0][0]) is None {
        Err(HourErrorView::ParseNum)
    } else if printed_number(block.nums[0][0])->0 != index + 1 {
        Err(HourErrorView::MismatchedNum)
    } else if block.times.len() == 0 {
        Err(HourErrorView::NoFrom)
    } else if block.times.len() == 1 {
        Err(HourErrorView::NoDash)
    } else if block.times.len() != 3 {
        Err(HourErrorView::NoTo)
    } else if block.times[0].len() != 1 {
        Err(HourErrorView::NoFromText)
    } else if parsed_time(block.times[0][0], TIME_FORMAT@) is None {
        Err(HourErrorView::ParseFrom)
    } else if block.times[2].len() != 1 {
        Err(HourErrorView::NoToText)
    } else if parsed_time(block.times[2][0], TIME_FORMAT@) is None {
        Err(HourErrorView::ParseTo)
    } else {
        let from = parsed_time(block.times[0][0], TIME_FORMAT@)->0;
        let to = parsed_time(block.times[2][0], TIME_FORMAT@)->0;
        Ok(Hour { start: from, duration: minutes_between(from, to) as i64 })
    }
}

impl Hour {
    /// The hour that starts at `from` and ends at `to`.
    pub fn between(from: Time, to: Time) -> (hour: Hour)
        requires
            from.wf(),
            to.wf(),
        ensures
            hour == (Hour { start: from, duration: minutes_between(from, to) as i64 }),
            hour.duration == minutes_between(from, to),
    {
        Hour { start: from, duration: from.minutes_until(to) }
    }

    /// Decodes the hour block at position `i` of the header.
    pub fn from_block(block: &HourBlock, i: usize) -> (r: Result<Hour, HourError>)
        ensures
            outcome(r) == hour_of(block@, i as int),
    {
        let num = match single(&block.nums) {
            Some(num) => num,
            None => { return Err(HourError::NoNum); },
        };
        let num = match single(num) {
            Some(num) => num,
            None => { return Err(HourError::NoNumText); },
        };
        let num = match parse_usize(num.as_str()) {
            Ok(num) => num,
            Err(e) => { return Err(HourError::ParseNum(e)); },
        };
        if i == usize::MAX || num != i + 1 {
            return Err(HourError::MismatchedNum);
        }
        if block.times.len() == 0 {
            return Err(HourError::NoFrom);
        }
        if block.times.len() == 1 {
            return Err(HourError::NoDash);
        }
        if block.times.len() != 3 {
            return Err(HourError::NoTo);
        }
        let from = match single(&block.times[0]) {
            Some(from) => from,
            None => { return Err(HourError::NoFromText); },
        };
        let from = match parse_time(from.as_str(), TIME_FORMAT) {
            Ok(from) => from,
            Err(e) => { return Err(HourError::ParseFrom(e)); },
        };
        let to = match single(&block.times[2]) {
            Some(to) => to,
            None => { return Err(HourError::NoToText); },
        };
        let to = match parse_time(to.as_str(), TIME_FORMAT) {
            Ok(to) => to,
            Err(e) => { return Err(HourError::ParseTo(e)); },
        };
        Ok(Hour::between(from, to))
    }

    /// Decodes the hour block `hour`, the one at position `i` of the header.
    pub fn parse(hour: scraper::ElementRef, i: usize) -> (r: Result<Hour, HourError>)
        ensures
            outcome(r) == hour_of(block_of(hour), i as int),
    {
        Hour::from_block(&HourBlock::read(hour), i)
    }
}

} // verus!
