//! One lesson entry of a timetable cell: its payload, its markers and the
//! lesson they decode to.

use vstd::prelude::*;
use crate::dom::{
    attribute_of, element_attribute, element_has_class, has_class, matches_css, select, texts_of_all,
    texts_of_each,
};
use crate::json::{
    find_member, json_error_message, json_error_words, json_object, member, parse_object, JsonField,
    JsonFieldView,
};
use crate::text::{trim, trimmed};
use crate::timetable::util::{
    empty_string_as_none, lemma_try_map_fails, lemma_try_map_step, outcome, try_map,
};
use crate::timetable::{Type, TypeView};
use self::parser::{subject, subject_of, teacher_from, teacher_of};

pub mod parser;

verus! {

/// One lesson of a timetable.
#[derive(Debug, PartialEq, Eq)]
pub enum Lesson {
    Regular {
        class: String,
        subject: String,
        abbr: String,
        teacher: String,
        teacher_abbr: Option<String>,
        room: Option<String>,
        group: Option<String>,
        topic: Option<String>,
    },
    Substitution {
        class: String,
        subject: String,
        abbr: String,
        teacher: String,
        teacher_abbr: Option<String>,
        room: Option<String>,
        group: Option<String>,
        topic: Option<String>,
    },
    Canceled,
    Absent { info: String, abbr: String },
}

/// The mathematical value of a [`Lesson`].
pub enum LessonView {
    Regular {
        class: Seq<char>,
        subject: Seq<char>,
        abbr: Seq<char>,
        teacher: Seq<char>,
        teacher_abbr: Option<Seq<char>>,
        room: Option<Seq<char>>,
        group: Option<Seq<char>>,
        topic: Option<Seq<char>>,
    },
    Substitution {
        class: Seq<char>,
        subject: Seq<char>,
        abbr: Seq<char>,
        teacher: Seq<char>,
        teacher_abbr: Option<Seq<char>>,
        room: Option<Seq<char>>,
        group: Option<Seq<char>>,
        topic: Option<Seq<char>>,
    },
    Canceled,
    Absent { info: Seq<char>, abbr: Seq<char> },
}

impl View for Lesson {
    type V = LessonView;

    open spec fn view(&self) -> LessonView {
        match self {
            Lesson::Regular { class, subject, abbr, teacher, teacher_abbr, room, group, topic } => {
                LessonView::Regular {
                    class: class@,
                    subject: subject@,
                    abbr: abbr@,
                    teacher: teacher@,
                    teacher_abbr: teacher_abbr.deep_view(),
                    room: room.deep_view(),
                    group: group.deep_view(),
                    topic: topic.deep_view(),
                }
            },
            Lesson::Substitution {
                class,
                subject,
                abbr,
                teacher,
                teacher_abbr,
                room,
                group,
                topic,
            } => {
                LessonView::Substitution {
                    class: class@,
                    subject: subject@,
                    abbr: abbr@,
                    teacher: teacher@,
                    teacher_abbr: teacher_abbr.deep_view(),
                    room: room.deep_view(),
                    group: group.deep_view(),
                    topic: topic.deep_view(),
                }
            },
            Lesson::Canceled => LessonView::Canceled,
            Lesson::Absent { info, abbr } => LessonView::Absent { info: info@, abbr: abbr@ },
        }
    }
}

impl DeepView for Lesson {
    type V = LessonView;

    open spec fn deep_view(&self) -> LessonView {
        self@
    }
}

/// What the `data-detail` attribute of a lesson entry holds, with every empty
/// text taken as no value.
#[derive(Debug, PartialEq, Eq)]
pub enum LessonData {
    Regular {
        subject_text: Option<String>,
        teacher: Option<String>,
        room: Option<String>,
        group: Option<String>,
        theme: Option<String>,
        notice: Option<String>,
        changeinfo: Option<String>,
        homeworks: Option<String>,
        absencetext: Option<String>,
        has_absent: bool,
        absent_info_text: Option<String>,
    },
    Canceled { subjecttext: Option<String> },
    Absent { info_absent_name: Option<String>, absent_info: Option<String> },
}

/// The mathematical value of a [`LessonData`].
pub enum LessonDataView {
    Regular {
        subject_text: Option<Seq<char>>,
        teacher: Option<Seq<char>>,
        room: Option<Seq<char>>,
        group: Option<Seq<char>>,
        theme: Option<Seq<char>>,
        notice: Option<Seq<char>>,
        changeinfo: Option<Seq<char>>,
        homeworks: Option<Seq<char>>,
        absencetext: Option<Seq<char>>,
        has_absent: bool,
        absent_info_text: Option<Seq<char>>,
    },
    Canceled { subjecttext: Option<Seq<char>> },
    Absent { info_absent_name: Option<Seq<char>>, absent_info: Option<Seq<char>> },
}

impl View for LessonData {
    type V = LessonDataView;

    open spec fn view(&self) -> LessonDataView {
        match self {
            LessonData::Regular {
                subject_text,
                teacher,
                room,
                group,
                theme,
                notice,
                changeinfo,
                homeworks,
                absencetext,
                has_absent,
                absent_info_text,
            } => LessonDataView::Regular {
                subject_text: subject_text.deep_view(),
                teacher: teacher.deep_view(),
                room: room.deep_view(),
                group: group.deep_view(),
                theme: theme.deep_view(),
                notice: notice.deep_view(),
                changeinfo: changeinfo.deep_view(),
                homeworks: homeworks.deep_view(),
                absencetext: absencetext.deep_view(),
                has_absent: *has_absent,
                absent_info_text: absent_info_text.deep_view(),
            },
            LessonData::Canceled { subjecttext } => LessonDataView::Canceled {
                subjecttext: subjecttext.deep_view(),
            },
            LessonData::Absent { info_absent_name, absent_info } => LessonDataView::Absent {
                info_absent_name: info_absent_name.deep_view(),
                absent_info: absent_info.deep_view(),
            },
        }
    }
}

/// Why a payload is not a lesson payload.
#[derive(Debug)]
pub enum JsonError {
    /// The text is not one JSON object.
    Syntax(serde_json::Error),
    /// The object lacks a member.
    MissingField(&'static str),
    /// A member holds a value of another kind than its field takes.
    InvalidField(&'static str),
    /// The member `type` names no kind of payload.
    UnknownType(String),
}

/// The mathematical value of a [`JsonError`].
pub enum JsonErrorView {
    Syntax,
    MissingField(Seq<char>),
    InvalidField(Seq<char>),
    UnknownType(Seq<char>),
}

impl View for JsonError {
    type V = JsonErrorView;

    open spec fn view(&self) -> JsonErrorView {
        match self {
            JsonError::Syntax(_) => JsonErrorView::Syntax,
            JsonError::MissingField(name) => JsonErrorView::MissingField(name@),
            JsonError::InvalidField(name) => JsonErrorView::InvalidField(name@),
            JsonError::UnknownType(kind) => JsonErrorView::UnknownType(kind@),
        }
    }
}

/// Why a lesson entry does not decode.
#[derive(Debug)]
pub enum LessonError {
    /// The entry has no `data-detail` attribute.
    NoData,
    /// The payload is malformed.
    Json(JsonError),
    /// A value that the lesson needs is absent.
    MissingProperty(&'static str),
    /// The payload's subject text does not hold a subject.
    BadSubjectText(String),
    /// The payload's kind and the entry's markers disagree.
    DataTypeMismatch,
}

/// The mathematical value of a [`LessonError`].
pub enum LessonErrorView {
    NoData,
    Json(JsonErrorView),
    MissingProperty(Seq<char>),
    BadSubjectText(Seq<char>),
    DataTypeMismatch,
}

impl View for LessonError {
    type V = LessonErrorView;

    open spec fn view(&self) -> LessonErrorView {
        match self {
            LessonError::NoData => LessonErrorView::NoData,
            LessonError::Json(e) => LessonErrorView::Json(e@),
            LessonError::MissingProperty(name) => LessonErrorView::MissingProperty(name@),
            LessonError::BadSubjectText(text) => LessonErrorView::BadSubjectText(text@),
            LessonError::DataTypeMismatch => LessonErrorView::DataTypeMismatch,
        }
    }
}

impl JsonError {
    /// The error in words; where the text is no JSON object, with the words
    /// of the parser that refused it.
    pub open spec fn wording(&self) -> Seq<char> {
        match self {
            JsonError::Syntax(e) => "failed to parse json: "@ + json_error_words(*e),
            JsonError::MissingField(name) => "failed to parse json: missing field "@ + name@,
            JsonError::InvalidField(name) => "failed to parse json: invalid type of field "@
                + name@,
            JsonError::UnknownType(kind) => "failed to parse json: unknown variant "@ + kind@,
        }
    }

    /// The error in words.
    pub fn message(&self) -> (r: String)
        ensures
            r@ == self.wording(),
    {
        match self {
            JsonError::Syntax(e) => String::from_str("failed to parse json: ").concat(
                json_error_message(e).as_str(),
            ),
            JsonError::MissingField(name) => String::from_str(
                "failed to parse json: missing field ",
            ).concat(name),
            JsonError::InvalidField(name) => String::from_str(
                "failed to parse json: invalid type of field ",
            ).concat(name),
            JsonError::UnknownType(kind) => String::from_str(
                "failed to parse json: unknown variant ",
            ).concat(kind.as_str()),
        }
    }
}

impl LessonError {
    /// The error in words.
    pub open spec fn wording(&self) -> Seq<char> {
        match self {
            LessonError::NoData => "missing data-detail attribute"@,
            LessonError::Json(e) => e.wording(),
            LessonError::MissingProperty(name) => "missing property: "@ + name@,
            LessonError::BadSubjectText(text) => "bad subjecttext: "@ + text@,
            LessonError::DataTypeMismatch => "data type mismatch"@,
        }
    }

    /// The error in words.
    pub fn message(&self) -> (r: String)
        ensures
            r@ == self.wording(),
    {
        match self {
            LessonError::NoData => String::from_str("missing data-detail attribute"),
            LessonError::Json(e) => e.message(),
            LessonError::MissingProperty(name) => String::from_str("missing property: ").concat(name),
            LessonError::BadSubjectText(text) => String::from_str("bad subjecttext: ").concat(
                text.as_str(),
            ),
            LessonError::DataTypeMismatch => String::from_str("data type mismatch"),
        }
    }
}

/// The selector of the container of a cell's lesson entries.
pub const DAY_ITEM_SELECTOR: &'static str = "div.day-item";

/// The selector of a lesson entry.
pub const LESSON_SELECTOR: &'static str = "div.day-item-hover";

/// The selector of the element that holds a lesson's short code.
pub const ABBR_SELECTOR: &'static str = "div.middle";

/// The selector of the element that holds a teacher's short code.
pub const TEACHER_ABBR_SELECTOR: &'static str = "div.bottom";

/// What the decoder reads of one lesson entry.
#[derive(Debug, PartialEq, Eq)]
pub struct LessonEntry {
    /// The value of the attribute `data-detail`.
    pub detail: Option<String>,
    /// Whether the entry is marked as changed (class `pink`).
    pub pink: bool,
    /// Whether the entry is marked as an absence (class `green`).
    pub green: bool,
    /// The text nodes of each element that [`ABBR_SELECTOR`] selects.
    pub abbr: Vec<Vec<String>>,
    /// The text nodes of each element that [`TEACHER_ABBR_SELECTOR`] selects.
    pub teacher_abbr: Vec<Vec<String>>,
}

/// The mathematical value of a [`LessonEntry`].
pub struct LessonEntryView {
    pub detail: Option<Seq<char>>,
    pub pink: bool,
    pub green: bool,
    pub abbr: Seq<Seq<Seq<char>>>,
    pub teacher_abbr: Seq<Seq<Seq<char>>>,
}

impl View for LessonEntry {
    type V = LessonEntryView;

    open spec fn view(&self) -> LessonEntryView {
        LessonEntryView {
            detail: self.detail.deep_view(),
            pink: self.pink,
            green: self.green,
            abbr: self.abbr.deep_view(),
            teacher_abbr: self.teacher_abbr.deep_view(),
        }
    }
}

impl DeepView for LessonEntry {
    type V = LessonEntryView;

    open spec fn deep_view(&self) -> LessonEntryView {
        self@
    }
}

/// What the decoder reads of the lesson entry `lesson`.
pub open spec fn entry_of(lesson: scraper::ElementRef) -> LessonEntryView {
    LessonEntryView {
        detail: element_attribute(lesson, "data-detail"@),
        pink: element_has_class(lesson, "pink"@),
        green: element_has_class(lesson, "green"@),
        abbr: texts_of_each(matches_css(lesson, ABBR_SELECTOR@)),
        teacher_abbr: texts_of_each(matches_css(lesson, TEACHER_ABBR_SELECTOR@)),
    }
}

impl LessonEntry {
    /// Reads a lesson entry off its element.
    pub fn read(lesson: scraper::ElementRef) -> (entry: LessonEntry)
        ensures
            entry@ == entry_of(lesson),
    {
        let detail = attribute_of(lesson, "data-detail");
        let pink = has_class(lesson, "pink");
        let green = has_class(lesson, "green");
        let abbr = texts_of_all(&select(lesson, ABBR_SELECTOR));
        let teacher_abbr = texts_of_all(&select(lesson, TEACHER_ABBR_SELECTOR));
        LessonEntry { detail, pink, green, abbr, teacher_abbr }
    }
}

/// The text of a payload member that holds a text or `null`.
pub open spec fn text_field(members: Seq<(Seq<char>, JsonFieldView)>, key: Seq<char>) -> Result<
    Option<Seq<char>>,
    JsonErrorView,
> {
    match member(members, key) {
        None => Err(JsonErrorView::MissingField(key)),
        Some(JsonFieldView::Null) => Ok(None),
        Some(JsonFieldView::Text(text)) => Ok(
            if text.len() == 0 {
                None
            } else {
                Some(text)
            },
        ),
        Some(_) => Err(JsonErrorView::InvalidField(key)),
    }
}

/// The value of a payload member that holds a truth value.
pub open spec fn bool_field(members: Seq<(Seq<char>, JsonFieldView)>, key: Seq<char>) -> Result<
    bool,
    JsonErrorView,
> {
    match member(members, key) {
        None => Err(JsonErrorView::MissingField(key)),
        Some(JsonFieldView::Bool(b)) => Ok(b),
        Some(_) => Err(JsonErrorView::InvalidField(key)),
    }
}

/// The payload of kind `atom` that `members` hold. Its fields are asked for
/// in the order of the payload's definition, and the first that fails decides.
pub open spec fn regular_payload(members: Seq<(Seq<char>, JsonFieldView)>) -> Result<
    LessonDataView,
    JsonErrorView,
> {
    let subject_text = text_field(members, "subjecttext"@);
    let teacher = text_field(members, "teacher"@);
    let room = text_field(members, "room"@);
    let group = text_field(members, "group"@);
    let theme = text_field(members, "theme"@);
    let notice = text_field(members, "notice"@);
    let changeinfo = text_field(members, "changeinfo"@);
    let homeworks = text_field(members, "homeworks"@);
    let absencetext = text_field(members, "absencetext"@);
    let has_absent = bool_field(members, "hasAbsent"@);
    let absent_info_text = text_field(members, "absentInfoText"@);
    if subject_text is Err {
        Err(subject_text->Err_0)
    } else if teacher is Err {
        Err(teacher->Err_0)
    } else if room is Err {
        Err(room->Err_0)
    } else if group is Err {
        Err(group->Err_0)
    } else if theme is Err {
        Err(theme->Err_0)
    } else if notice is Err {
        Err(notice->Err_0)
    } else if changeinfo is Err {
        Err(changeinfo->Err_0)
    } else if homeworks is Err {
        Err(homeworks->Err_0)
    } else if absencetext is Err {
        Err(absencetext->Err_0)
    } else if has_absent is Err {
        Err(has_absent->Err_0)
    } else if absent_info_text is Err {
        Err(absent_info_text->Err_0)
    } else {
        Ok(
            LessonDataView::Regular {
                subject_text: subject_text->Ok_0,
                teacher: teacher->Ok_0,
                room: room->Ok_0,
                group: group->Ok_0,
                theme: theme->Ok_0,
                notice: notice->Ok_0,
                changeinfo: changeinfo->Ok_0,
                homeworks: homeworks->Ok_0,
                absencetext: absencetext->Ok_0,
                has_absent: has_absent->Ok_0,
                absent_info_text: absent_info_text->Ok_0,
            },
        )
    }
}

/// The payload of kind `removed` that `members` hold.
pub open spec fn canceled_payload(members: Seq<(Seq<char>, JsonFieldView)>) -> Result<
    LessonDataView,
    JsonErrorView,
> {
    match text_field(members, "subjecttext"@) {
        Err(e) => Err(e),
        Ok(subjecttext) => Ok(LessonDataView::Canceled { subjecttext }),
    }
}

/// The payload of kind `absent` that `members` hold.
pub open spec fn absent_payload(members: Seq<(Seq<char>, JsonFieldView)>) -> Result<
    LessonDataView,
    JsonErrorView,
> {
    match text_field(members, "InfoAbsentName"@) {
        Err(e) => Err(e),
        Ok(info_absent_name) => match text_field(members, "absentinfo"@) {
            Err(e) => Err(e),
            Ok(absent_info) => Ok(LessonDataView::Absent { info_absent_name, absent_info }),
        },
    }
}

/// The payload that the members of a JSON object hold: the member `type`
/// tells the kind, and the kind tells which members are asked for.
pub open spec fn payload_of(members: Seq<(Seq<char>, JsonFieldView)>) -> Result<
    LessonDataView,
    JsonErrorView,
> {
    match member(members, "type"@) {
        None => Err(JsonErrorView::MissingField("type"@)),
        Some(JsonFieldView::Text(kind)) => {
            if kind == "atom"@ {
                regular_payload(members)
            } else if kind == "removed"@ {
                canceled_payload(members)
            } else if kind == "absent"@ {
                absent_payload(members)
            } else {
                Err(JsonErrorView::UnknownType(kind))
            }
        },
        Some(_) => Err(JsonErrorView::InvalidField("type"@)),
    }
}

/// Reads a member that holds a text or `null`.
fn read_text(members: &Vec<(String, JsonField)>, key: &'static str) -> (r: Result<
    Option<String>,
    JsonError,
>)
    ensures
        outcome(r) == text_field(members.deep_view(), key@),
{
    match find_member(members, key) {
        None => Err(JsonError::MissingField(key)),
        Some(JsonField::Null) => Ok(None),
        Some(JsonField::Text(text)) => Ok(
            empty_string_as_none(Some(text.clone())),
        ),
        Some(_) => Err(JsonError::InvalidField(key)),
    }
}

/// Reads a member that holds a truth value.
fn read_bool(members: &Vec<(String, JsonField)>, key: &'static str) -> (r: Result<bool, JsonError>)
    ensures
        match r {
            Ok(b) => bool_field(members.deep_view(), key@) == Ok::<bool, JsonErrorView>(b),
            Err(e) => bool_field(members.deep_view(), key@) == Err::<bool, JsonErrorView>(e@),
        },
{
    match find_member(members, key) {
        None => Err(JsonError::MissingField(key)),
        Some(JsonField::Bool(b)) => Ok(*b),
        Some(_) => Err(JsonError::InvalidField(key)),
    }
}

impl LessonData {
    /// Decodes the payload that the members of a JSON object hold.
    pub fn decode(members: &Vec<(String, JsonField)>) -> (r: Result<LessonData, JsonError>)
        ensures
            match r {
                Ok(data) => payload_of(members.deep_view()) == Ok::<LessonDataView, JsonErrorView>(
                    data@,
                ),
                Err(e) => payload_of(members.deep_view()) == Err::<LessonDataView, JsonErrorView>(
                    e@,
                ),
            },
    {
        let kind = match find_member(members, "type") {
            None => { return Err(JsonError::MissingField("type")); },
            Some(JsonField::Text(kind)) => kind,
            Some(_) => { return Err(JsonError::InvalidField("type")); },
        };
        if crate::text::same_text(kind.as_str(), "atom") {
            let subject_text = read_text(members, "subjecttext")?;
            let teacher = read_text(members, "teacher")?;
            let room = read_text(members, "room")?;
            let group = read_text(members, "group")?;
            let theme = read_text(members, "theme")?;
            let notice = read_text(members, "notice")?;
            let changeinfo = read_text(members, "changeinfo")?;
            let homeworks = read_text(members, "homeworks")?;
            let absencetext = read_text(members, "absencetext")?;
            let has_absent = read_bool(members, "hasAbsent")?;
            let absent_info_text = read_text(members, "absentInfoText")?;
            Ok(
                LessonData::Regular {
                    subject_text,
                    teacher,
                    room,
                    group,
                    theme,
                    notice,
                    changeinfo,
                    homeworks,
                    absencetext,
                    has_absent,
                    absent_info_text,
                },
            )
        } else if crate::text::same_text(kind.as_str(), "removed") {
            let subjecttext = read_text(members, "subjecttext")?;
            Ok(LessonData::Canceled { subjecttext })
        } else if crate::text::same_text(kind.as_str(), "absent") {
            let info_absent_name = read_text(members, "InfoAbsentName")?;
            let absent_info = read_text(members, "absentinfo")?;
            Ok(LessonData::Absent { info_absent_name, absent_info })
        } else {
            Err(JsonError::UnknownType(kind.clone()))
        }
    }
}

/// The trimmed text of the only text node of the only element selected for
/// the property `prop`; where either is not the only one, the property is
/// missing.
pub open spec fn prop_of(selected: Seq<Seq<Seq<char>>>, prop: Seq<char>) -> Result<
    Seq<char>,
    LessonErrorView,
> {
    if selected.len() == 1 && selected[0].len() == 1 {
        Ok(trimmed(selected[0][0]))
    } else {
        Err(LessonErrorView::MissingProperty(prop))
    }
}

/// The property `prop` from the text nodes of the elements selected for it.
pub fn prop_text(selected: &Vec<Vec<String>>, prop: &'static str) -> (r: Result<String, LessonError>)
    ensures
        outcome(r) == prop_of(selected.deep_view(), prop@),
{
    if selected.len() == 1 && selected[0].len() == 1 {
        Ok(trim(selected[0][0].as_str()).to_owned())
    } else {
        Err(LessonError::MissingProperty(prop))
    }
}

/// The property `prop` of `elem`: the trimmed text of the one element that
/// `selector` selects below it.
pub fn get_prop(elem: scraper::ElementRef, selector: &str, prop: &'static str) -> (r: Result<
    String,
    LessonError,
>)
    ensures
        outcome(r) == prop_of(texts_of_each(matches_css(elem, selector@)), prop@),
{
    prop_text(&texts_of_all(&select(elem, selector)), prop)
}

/// The class that a regular lesson is given to: the class of a class's
/// timetable, else the payload's group.
pub open spec fn class_of(group: Option<Seq<char>>, timetable_type: TypeView) -> Result<
    Seq<char>,
    LessonErrorView,
> {
    match timetable_type {
        TypeView::Class(class) => Ok(class),
        _ => match group {
            Some(group) => Ok(group),
            None => Err(LessonErrorView::MissingProperty("group"@)),
        },
    }
}

/// The lesson that a payload and the entry's markers decode to. The payload
/// tells the candidate kind, and the markers confirm it or reject it.
pub open spec fn resolved(data: LessonDataView, entry: LessonEntryView, timetable_type: TypeView) -> Result<
    LessonView,
    LessonErrorView,
> {
    match data {
        LessonDataView::Regular { subject_text, teacher, room, group, theme, .. } => {
            let subject = subject_of(subject_text);
            let abbr = prop_of(entry.abbr, "abbr"@);
            let teacher = teacher_of(entry.teacher_abbr, teacher, timetable_type);
            let class = class_of(group, timetable_type);
            if subject is Err {
                Err(subject->Err_0)
            } else if abbr is Err {
                Err(abbr->Err_0)
            } else if teacher is Err {
                Err(teacher->Err_0)
            } else if class is Err {
                Err(class->Err_0)
            } else if entry.pink {
                Ok(
                    LessonView::Substitution {
                        class: class->Ok_0,
                        subject: subject->Ok_0,
                        abbr: abbr->Ok_0,
                        teacher: (teacher->Ok_0).0,
                        teacher_abbr: (teacher->Ok_0).1,
                        room,
                        group,
                        topic: theme,
                    },
                )
            } else {
                Ok(
                    LessonView::Regular {
                        class: class->Ok_0,
                        subject: subject->Ok_0,
                        abbr: abbr->Ok_0,
                        teacher: (teacher->Ok_0).0,
                        teacher_abbr: (teacher->Ok_0).1,
                        room,
                        group,
                        topic: theme,
                    },
                )
            }
        },
        LessonDataView::Absent { info_absent_name, absent_info } => {
            if !entry.green {
                Err(LessonErrorView::DataTypeMismatch)
            } else if info_absent_name is None {
                Err(LessonErrorView::MissingProperty("info_absent_name"@))
            } else if absent_info is None {
                Err(LessonErrorView::MissingProperty("absent_info"@))
            } else {
                Ok(LessonView::Absent { info: info_absent_name->0, abbr: absent_info->0 })
            }
        },
        LessonDataView::Canceled { .. } => {
            if entry.pink {
                Ok(LessonView::Canceled)
            } else {
                Err(LessonErrorView::DataTypeMismatch)
            }
        },
    }
}

/// The lesson that a lesson entry decodes to.
pub open spec fn lesson_of(entry: LessonEntryView, timetable_type: TypeView) -> Result<
    LessonView,
    LessonErrorView,
> {
    match entry.detail {
        None => Err(LessonErrorView::NoData),
        Some(detail) => match json_object(detail) {
            None => Err(LessonErrorView::Json(JsonErrorView::Syntax)),
            Some(members) => match payload_of(members) {
                Err(e) => Err(LessonErrorView::Json(e)),
                Ok(data) => resolved(data, entry, timetable_type),
            },
        },
    }
}

/// The decoding of the entry at an index of a cell.
pub open spec fn lesson_decoder(timetable_type: TypeView) -> spec_fn(int, LessonEntryView) -> Result<
    LessonView,
    LessonErrorView,
> {
    |i: int, entry: LessonEntryView| lesson_of(entry, timetable_type)
}

/// The lessons that the entries of one cell decode to; the first entry that
/// fails decides.
pub open spec fn lessons_of(entries: Seq<LessonEntryView>, timetable_type: TypeView) -> Result<
    Seq<LessonView>,
    LessonErrorView,
> {
    try_map(entries, lesson_decoder(timetable_type))
}

/// The lesson entries of the cell `cell`: those of its first entry
/// container, none where it has no container.
pub open spec fn cell_entries(cell: scraper::ElementRef) -> Seq<LessonEntryView> {
    let items = matches_css(cell, DAY_ITEM_SELECTOR@);
    if items.len() == 0 {
        Seq::empty()
    } else {
        let lessons = matches_css(items[0], LESSON_SELECTOR@);
        Seq::new(lessons.len(), |i: int| entry_of(lessons[i]))
    }
}

/// Reads the lesson entries of a cell.
pub fn read_cell(cell: scraper::ElementRef) -> (entries: Vec<LessonEntry>)
    ensures
        entries.deep_view() == cell_entries(cell),
{
    let items = select(cell, DAY_ITEM_SELECTOR);
    let mut entries: Vec<LessonEntry> = Vec::new();
    if items.len() == 0 {
        assert(entries.deep_view() =~= cell_entries(cell));
        return entries;
    }
    let lessons = select(items[0], LESSON_SELECTOR);
    let mut i: usize = 0;
    while i < lessons.len()
        invariant
            i <= lessons.len(),
            entries.len() == i,
            forall|j: int| 0 <= j < i ==> (#[trigger] entries[j])@ == entry_of(lessons[j]),
        decreases lessons.len() - i,
    {
        entries.push(LessonEntry::read(lessons[i]));
        i += 1;
    }
    assert(entries.deep_view() =~= cell_entries(cell));
    entries
}

impl Lesson {
    /// Confirms a payload against the markers of its entry and makes the
    /// lesson.
    pub fn resolve(data: LessonData, entry: &LessonEntry, timetable_type: &Type) -> (r: Result<
        Lesson,
        LessonError,
    >)
        ensures
            outcome(r) == resolved(data@, entry@, timetable_type@),
    {
        match data {
            LessonData::Regular {
                subject_text,
                teacher: teacher_name,
                room,
                group,
                theme,
                notice: _,
                changeinfo: _,
                homeworks: _,
                absencetext: _,
                has_absent: _,
                absent_info_text: _,
            } => {
                let substitution = entry.pink;
                let subject = subject(subject_text)?;
                let abbr = prop_text(&entry.abbr, "abbr")?;
                let (teacher, teacher_abbr) = teacher_from(&entry.teacher_abbr, teacher_name, timetable_type)?;
                let topic = theme;
                let class = match timetable_type {
                    Type::Class(class) => class.clone(),
                    _ => match &group {
                        Some(group) => group.clone(),
                        None => { return Err(LessonError::MissingProperty("group")); },
                    },
                };
                if substitution {
                    Ok(
                        Lesson::Substitution {
                            class,
                            subject,
                            abbr,
                            teacher,
                            teacher_abbr,
                            room,
                            group,
                            topic,
                        },
                    )
                } else {
                    Ok(
                        Lesson::Regular {
                            class,
                            subject,
                            abbr,
                            teacher,
                            teacher_abbr,
                            room,
                            group,
                            topic,
                        },
                    )
                }
            },
            LessonData::Absent { info_absent_name, absent_info } => {
                if entry.green {
                    let info = match info_absent_name {
                        Some(info) => info,
                        None => { return Err(LessonError::MissingProperty("info_absent_name")); },
                    };
                    let abbr = match absent_info {
                        Some(abbr) => abbr,
                        None => { return Err(LessonError::MissingProperty("absent_info")); },
                    };
                    Ok(Lesson::Absent { info, abbr })
                } else {
                    Err(LessonError::DataTypeMismatch)
                }
            },
            LessonData::Canceled { subjecttext: _ } => {
                if entry.pink {
                    Ok(Lesson::Canceled)
                } else {
                    Err(LessonError::DataTypeMismatch)
                }
            },
        }
    }

    /// Decodes one lesson entry.
    pub fn from_entry(entry: &LessonEntry, timetable_type: &Type) -> (r: Result<Lesson, LessonError>)
        ensures
            outcome(r) == lesson_of(entry@, timetable_type@),
    {
        let detail = match &entry.detail {
            Some(detail) => detail,
            None => { return Err(LessonError::NoData); },
        };
        let members = match parse_object(detail.as_str()) {
            Ok(members) => members,
            Err(e) => { return Err(LessonError::Json(JsonError::Syntax(e))); },
        };
        let data = match LessonData::decode(&members) {
            Ok(data) => data,
            Err(e) => { return Err(LessonError::Json(e)); },
        };
        Lesson::resolve(data, entry, timetable_type)
    }

    /// Decodes the lesson entries of one cell, in order; the first entry that
    /// fails ends the decoding.
    pub fn from_entries(entries: &Vec<LessonEntry>, timetable_type: &Type) -> (r: Result<
        Vec<Lesson>,
        LessonError,
    >)
        ensures
            outcome(r) == lessons_of(entries.deep_view(), timetable_type@),
    {
        let ghost decode = lesson_decoder(timetable_type@);
        let mut lessons: Vec<Lesson> = Vec::new();
        let mut i: usize = 0;
        assert(entries.deep_view().take(0) =~= Seq::empty());
        assert(lessons.deep_view() =~= Seq::empty());
        while i < entries.len()
            invariant
                i <= entries.len(),
                decode == lesson_decoder(timetable_type@),
                try_map(entries.deep_view().take(i as int), decode) == Ok::<
                    Seq<LessonView>,
                    LessonErrorView,
                >(lessons.deep_view()),
            decreases entries.len() - i,
        {
            let ghost before = lessons.deep_view();
            proof {
                lemma_try_map_step(entries.deep_view(), decode, i as int);
            }
            match Lesson::from_entry(&entries[i], timetable_type) {
                Ok(lesson) => {
                    lessons.push(lesson);
                    assert(lessons.deep_view() =~= before.push(lesson@));
                },
                Err(e) => {
                    proof {
                        lemma_try_map_fails(entries.deep_view(), decode, i + 1);
                    }
                    return Err(e);
                },
            }
            i += 1;
        }
        assert(entries.deep_view().take(i as int) =~= entries.deep_view());
        Ok(lessons)
    }

    /// Decodes the lessons of the cell `lesson`.
    pub fn parse(lesson: scraper::ElementRef, timetable_type: &Type) -> (r: Result<
        Vec<Lesson>,
        LessonError,
    >)
        ensures
            outcome(r) == lessons_of(cell_entries(lesson), timetable_type@),
    {
        Lesson::from_entries(&read_cell(lesson), timetable_type)
    }
}

/// A payload of the kind `removed` on an entry that is not marked as changed
/// does not decode to a canceled lesson: the two signals disagree, and the
/// decoding fails on it.
pub proof fn lemma_removed_needs_mark(
    subjecttext: Option<Seq<char>>,
    entry: LessonEntryView,
    timetable_type: TypeView,
)
    requires
        !entry.pink,
    ensures
        resolved(LessonDataView::Canceled { subjecttext }, entry, timetable_type) == Err::<
            LessonView,
            LessonErrorView,
        >(LessonErrorView::DataTypeMismatch),
{
}

/// An entry without the mark of a change whose payload is a JSON object of
/// the kind `removed` decodes to the mismatch of the two signals.
pub proof fn lemma_removed_entry_needs_mark(entry: LessonEntryView, timetable_type: TypeView)
    requires
        !entry.pink,
        entry.detail is Some,
        json_object(entry.detail->0) is Some,
        payload_of(json_object(entry.detail->0)->0) is Ok,
        payload_of(json_object(entry.detail->0)->0)->Ok_0 is Canceled,
    ensures
        lesson_of(entry, timetable_type) == Err::<LessonView, LessonErrorView>(
            LessonErrorView::DataTypeMismatch,
        ),
{
}

/// In a teacher's timetable a regular lesson does not depend on the elements
/// of the teacher's short code: whatever the entry holds of them, the lesson
/// or the error is the same.
pub proof fn lemma_teacher_view_needs_no_abbr(
    data: LessonDataView,
    entry: LessonEntryView,
    other: Seq<Seq<Seq<char>>>,
    viewed: Seq<char>,
)
    requires
        data is Regular,
    ensures
        resolved(data, LessonEntryView { teacher_abbr: other, ..entry }, TypeView::Teacher(viewed))
            == resolved(data, entry, TypeView::Teacher(viewed)),
        resolved(data, entry, TypeView::Teacher(viewed)) != Err::<LessonView, LessonErrorView>(
            LessonErrorView::MissingProperty("teacher_abbr"@),
        ),
{
    reveal_strlit("teacher_abbr");
    reveal_strlit("subjecttext");
    reveal_strlit("abbr");
    reveal_strlit("group");
    assert("teacher_abbr"@.len() == 12);
    assert("subjecttext"@.len() == 11);
    assert("abbr"@.len() == 4);
    assert("group"@.len() == 5);
}

/// In the timetable of a class or a room a regular lesson needs the element
/// of the teacher's short code: where its subject, its short code and its
/// teacher are there and that element is not the only one with its only
/// text, the decoding fails on the missing short code.
pub proof fn lemma_other_views_need_abbr(
    data: LessonDataView,
    entry: LessonEntryView,
    timetable_type: TypeView,
)
    requires
        data is Regular,
        !(timetable_type is Teacher),
        subject_of(data->Regular_subject_text) is Ok,
        prop_of(entry.abbr, "abbr"@) is Ok,
        data->Regular_teacher is Some,
        !(entry.teacher_abbr.len() == 1 && entry.teacher_abbr[0].len() == 1),
    ensures
        resolved(data, entry, timetable_type) == Err::<LessonView, LessonErrorView>(
            LessonErrorView::MissingProperty("teacher_abbr"@),
        ),
{
}

} // verus!
