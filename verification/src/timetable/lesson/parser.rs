//! The parts of a regular lesson that take more than a copy: its subject and
//! its teacher.

use vstd::prelude::*;
use crate::dom::{matches_css, select, texts_of_all, texts_of_each};
use crate::text::{split_once, text_split_once, trim, trimmed};
use crate::timetable::{Type, TypeView};
use crate::timetable::util::outcome;
use super::{prop_of, prop_text, LessonError, LessonErrorView, TEACHER_ABBR_SELECTOR};

verus! {

/// The subject that a payload's subject text names: what stands before the
/// first `" | "`, trimmed. A text without the separator, or with nothing
/// before it, names none.
pub open spec fn subject_of(subject_text: Option<Seq<char>>) -> Result<Seq<char>, LessonErrorView> {
    match subject_text {
        None => Err(LessonErrorView::MissingProperty("subjecttext"@)),
        Some(text) => match split_once(text, " | "@) {
            None => Err(LessonErrorView::BadSubjectText(text)),
            Some((subject, _)) => {
                if subject.len() == 0 {
                    Err(LessonErrorView::BadSubjectText(text))
                } else {
                    Ok(trimmed(subject))
                }
            },
        },
    }
}

/// Takes the subject out of a payload's subject text.
pub fn subject(s: Option<String>) -> (r: Result<String, LessonError>)
    ensures
        outcome(r) == subject_of(s.deep_view()),
{
    let subjecttext = match s {
        Some(text) => text,
        None => { return Err(LessonError::MissingProperty("subjecttext")); },
    };
    let found = match text_split_once(subjecttext.as_str(), " | ") {
        Some((subject, _)) => {
            if subject.unicode_len() == 0 {
                None
            } else {
                Some(trim(subject).to_owned())
            }
        },
        None => None,
    };
    match found {
        Some(subject) => Ok(subject),
        None => Err(LessonError::BadSubjectText(subjecttext)),
    }
}

/// The teacher of a regular lesson and the teacher's short code. In a
/// teacher's timetable the teacher is the one whose timetable it is, and no
/// short code is looked for; elsewhere the payload names the teacher, and the
/// entry must hold the short code.
pub open spec fn teacher_of(
    selected: Seq<Seq<Seq<char>>>,
    teacher: Option<Seq<char>>,
    timetable_type: TypeView,
) -> Result<(Seq<char>, Option<Seq<char>>), LessonErrorView> {
    match timetable_type {
        TypeView::Teacher(viewed) => Ok((viewed, None)),
        _ => match teacher {
            None => Err(LessonErrorView::MissingProperty("teacher"@)),
            Some(name) => match prop_of(selected, "teacher_abbr"@) {
                Err(e) => Err(e),
                Ok(abbr) => Ok((name, Some(abbr))),
            },
        },
    }
}

/// Finds the teacher of a regular lesson, given the text nodes of the
/// elements selected for the teacher's short code.
pub fn teacher_from(selected: &Vec<Vec<String>>, teacher: Option<String>, timetable_type: &Type) -> (r:
    Result<(String, Option<String>), LessonError>)
    ensures
        outcome(r) == teacher_of(selected.deep_view(), teacher.deep_view(), timetable_type@),
{
    match timetable_type {
        Type::Teacher(viewed) => Ok((viewed.clone(), None)),
        _ => {
            let name = match teacher {
                Some(name) => name,
                None => { return Err(LessonError::MissingProperty("teacher")); },
            };
            let abbr = prop_text(selected, "teacher_abbr")?;
            Ok((name, Some(abbr)))
        },
    }
}

/// Finds the teacher of the regular lesson `lesson`.
pub fn teacher(lesson: scraper::ElementRef, name: Option<String>, timetable_type: &Type) -> (r:
    Result<(String, Option<String>), LessonError>)
    ensures
        outcome(r) == teacher_of(
            texts_of_each(matches_css(lesson, TEACHER_ABBR_SELECTOR@)),
            name.deep_view(),
            timetable_type@,
        ),
{
    teacher_from(&texts_of_all(&select(lesson, TEACHER_ABBR_SELECTOR)), name, timetable_type)
}

} // verus!
