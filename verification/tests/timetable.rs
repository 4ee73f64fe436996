use rezvrh_scraper::calendar::{Date, Time};
use rezvrh_scraper::timetable::day::{Day, DayError, DayRow};
use rezvrh_scraper::timetable::hour::{Hour, HourBlock, HourError};
use rezvrh_scraper::timetable::lesson::{Lesson, LessonError};
use rezvrh_scraper::timetable::{
    decode_days, decode_hours, Page, RawType, Timetable, TimetableError, Type, Which,
};

const TODAY: Date = Date { year: 2024, month: 1, day: 24 };

fn hour_html(num: &str, from: &str, to: &str) -> String {
    format!(
        "<div class=\"bk-hour-wrapper\"><div class=\"num\">{}</div><div class=\"hour\">\
         <span class=\"from\">{}</span><span> - </span><span>{}</span></div></div>",
        num, from, to
    )
}

fn lesson_html(classes: &str, detail: &str, abbr: &str, teacher: &str) -> String {
    format!(
        "<div class=\"day-item-hover {}\" data-detail='{}'><div class=\"day-flex\">\
         <div class=\"top\"><div class=\"left\"><div>skupina</div></div></div>\
         <div class=\"middle\">{}</div><div class=\"bottom\"><span>{}</span></div></div></div>",
        classes, detail, abbr, teacher
    )
}

fn cell_html(lessons: &[String]) -> String {
    if lessons.is_empty() {
        "<div class=\"bk-timetable-cell\"></div>".to_owned()
    } else {
        format!(
            "<div class=\"bk-timetable-cell\"><div class=\"day-item\">{}</div></div>",
            lessons.concat()
        )
    }
}

fn row_html(day: &str, date: &str, cells: &[String]) -> String {
    format!(
        "<div class=\"bk-timetable-row\"><div class=\"bk-day-wrapper\"><div>\
         <span class=\"bk-day-day\">{}</span><span class=\"bk-day-date\">{}</span></div></div>\
         <div class=\"bk-cell-wrapper\">{}</div></div>",
        day,
        date,
        cells.concat()
    )
}

fn page_html(hours: &[String], rows: &[String]) -> String {
    format!(
        "<!DOCTYPE html><html><head><title>Rozvrh</title></head><body>\
         <div id=\"main\" class=\"bk-timetable-main\"><div class=\"bk-timetable-header\">\
         <div class=\"bk-timetable-hours\">{}</div></div>{}</div></body></html>",
        hours.concat(),
        rows.concat()
    )
}

fn atom(subject: &str, teacher: &str, room: &str, group: &str, theme: &str) -> String {
    format!(
        "{{\"type\":\"atom\",\"subjecttext\":\"{} | po 22.1. | 1 (8:00 - 8:45)\",\"teacher\":\"{}\",\
         \"room\":\"{}\",\"group\":\"{}\",\"theme\":\"{}\",\"notice\":\"\",\"changeinfo\":\"\",\
         \"homeworks\":null,\"absencetext\":null,\"hasAbsent\":false,\"absentInfoText\":\"\"}}",
        subject, teacher, room, group, theme
    )
}

fn fixture() -> String {
    let hours = [hour_html("1", "8:00", "8:45"), hour_html("2", "8:55", "9:40")];
    let monday = row_html(
        "po",
        "22.1.",
        &[
            cell_html(&[lesson_html(
                "",
                &atom("Český jazyk a literatura", "Mgr. Ivona Liptáková", "207", "", "Bezruč"),
                "ČJL",
                "Li",
            )]),
            cell_html(&[
                lesson_html("pink", &atom("Matematika", "Jan Novák", "", "7.B sk1", ""), "M", "No"),
                lesson_html("pink", "{\"type\":\"removed\",\"subjecttext\":\"x\"}", "", ""),
            ]),
        ],
    );
    let tuesday = row_html(
        "út",
        "23.1.",
        &[
            cell_html(&[]),
            cell_html(&[lesson_html(
                "green",
                "{\"type\":\"absent\",\"InfoAbsentName\":\"Exkurze\",\"absentinfo\":\"Exk\"}",
                "Exk",
                "",
            )]),
        ],
    );
    page_html(&hours, &[monday, tuesday])
}

fn some(text: &str) -> Option<String> {
    Some(text.to_owned())
}

fn expected() -> Timetable {
    Timetable {
        hours: vec![
            Hour { start: Time { hour: 8, minute: 0, second: 0 }, duration: 45 },
            Hour { start: Time { hour: 8, minute: 55, second: 0 }, duration: 45 },
        ],
        days: vec![
            Day {
                date: Some(Date { year: 2024, month: 1, day: 22 }),
                lessons: vec![
                    vec![Lesson::Regular {
                        class: "7B".to_owned(),
                        subject: "Český jazyk a literatura".to_owned(),
                        abbr: "ČJL".to_owned(),
                        teacher: "Mgr. Ivona Liptáková".to_owned(),
                        teacher_abbr: some("Li"),
                        room: some("207"),
                        group: None,
                        topic: some("Bezruč"),
                    }],
                    vec![
                        Lesson::Substitution {
                            class: "7B".to_owned(),
                            subject: "Matematika".to_owned(),
                            abbr: "M".to_owned(),
                            teacher: "Jan Novák".to_owned(),
                            teacher_abbr: some("No"),
                            room: None,
                            group: some("7.B sk1"),
                            topic: None,
                        },
                        Lesson::Canceled,
                    ],
                ],
            },
            Day {
                date: Some(Date { year: 2024, month: 1, day: 23 }),
                lessons: vec![
                    vec![],
                    vec![Lesson::Absent { info: "Exkurze".to_owned(), abbr: "Exk".to_owned() }],
                ],
            },
        ],
    }
}

fn class() -> Type {
    Type::Class("7B".to_owned())
}

#[test]
fn page_decodes_to_a_timetable() {
    assert_eq!(Timetable::parse_on(&fixture(), &class(), TODAY).unwrap(), expected());
}

#[test]
fn page_decodes_with_the_clock() {
    let timetable = Timetable::parse(&fixture(), &class()).unwrap();
    assert_eq!(timetable.hours, expected().hours);
    assert_eq!(timetable.days.len(), 2);
    assert_eq!(timetable.days[0].lessons, expected().days[0].lessons);
    let date = timetable.days[0].date.unwrap();
    assert_eq!((date.month, date.day), (1, 22));
}

#[test]
fn page_is_read_before_it_is_decoded() {
    let document = scraper::Html::parse_document(&fixture());
    let page = Page::read(&document);
    assert_eq!(page.hours.len(), 2);
    assert_eq!(page.days.len(), 2);
    assert_eq!(page.hours[1].nums, vec![vec!["2".to_owned()]]);
    assert_eq!(page.days[0].cells[1].len(), 2);
    assert_eq!(page.days[1].dates, vec![vec!["23.1.".to_owned()]]);
    assert_eq!(Timetable::from_page(&page, &class(), TODAY).unwrap(), expected());
}

#[test]
fn page_without_blocks_is_an_empty_timetable() {
    let timetable = Timetable::parse_on("<p>nothing here</p>", &class(), TODAY).unwrap();
    assert_eq!(timetable, Timetable { hours: vec![], days: vec![] });
}

#[test]
fn hours_number_from_one_in_document_order() {
    let hours: Vec<String> =
        (1..=9).map(|n| hour_html(&n.to_string(), "8:00", "8:45")).collect();
    let timetable = Timetable::parse_on(&page_html(&hours, &[]), &class(), TODAY).unwrap();
    assert_eq!(timetable.hours.len(), 9);
}

#[test]
fn hour_number_that_skips_or_repeats_fails() {
    let skips = [hour_html("1", "8:00", "8:45"), hour_html("3", "8:55", "9:40")];
    assert!(matches!(
        Timetable::parse_on(&page_html(&skips, &[]), &class(), TODAY),
        Err(TimetableError::Hour(HourError::MismatchedNum))
    ));
    let repeats = [hour_html("1", "8:00", "8:45"), hour_html("1", "8:55", "9:40")];
    assert!(matches!(
        Timetable::parse_on(&page_html(&repeats, &[]), &class(), TODAY),
        Err(TimetableError::Hour(HourError::MismatchedNum))
    ));
    let from_zero = [hour_html("0", "8:00", "8:45")];
    assert!(matches!(
        Timetable::parse_on(&page_html(&from_zero, &[]), &class(), TODAY),
        Err(TimetableError::Hour(HourError::MismatchedNum))
    ));
}

#[test]
fn day_with_another_number_of_cells_than_hours_fails() {
    let hours = [hour_html("1", "8:00", "8:45"), hour_html("2", "8:55", "9:40")];
    let short = row_html("po", "22.1.", &[cell_html(&[])]);
    assert!(matches!(
        Timetable::parse_on(&page_html(&hours, &[short]), &class(), TODAY),
        Err(TimetableError::MismatchedCells)
    ));
    let long = row_html("po", "22.1.", &[cell_html(&[]), cell_html(&[]), cell_html(&[])]);
    assert!(matches!(
        Timetable::parse_on(&page_html(&hours, &[long]), &class(), TODAY),
        Err(TimetableError::MismatchedCells)
    ));
    let right = row_html("po", "22.1.", &[cell_html(&[]), cell_html(&[])]);
    let timetable = Timetable::parse_on(&page_html(&hours, &[right]), &class(), TODAY).unwrap();
    assert!(timetable.is_wf());
    assert_eq!(timetable.days[0].lessons.len(), timetable.hours.len());
}

#[test]
fn hours_fail_before_days_and_days_before_the_count() {
    let bad_hour = [hour_html("1", "8:00", "x")];
    let bad_day = row_html("po", "x", &[]);
    assert!(matches!(
        Timetable::parse_on(&page_html(&bad_hour, &[bad_day.clone()]), &class(), TODAY),
        Err(TimetableError::Hour(HourError::ParseTo(_)))
    ));
    let hours = [hour_html("1", "8:00", "8:45")];
    assert!(matches!(
        Timetable::parse_on(&page_html(&hours, &[bad_day]), &class(), TODAY),
        Err(TimetableError::Day(DayError::ParseDate(_)))
    ));
    let unmarked = row_html(
        "po",
        "22.1.",
        &[
            cell_html(&[lesson_html("", "{\"type\":\"removed\",\"subjecttext\":\"x\"}", "", "")]),
            cell_html(&[]),
        ],
    );
    assert!(matches!(
        Timetable::parse_on(&page_html(&hours, &[unmarked]), &class(), TODAY),
        Err(TimetableError::Day(DayError::Lesson(LessonError::DataTypeMismatch)))
    ));
}

#[test]
fn teacher_timetable_needs_no_teacher_abbr() {
    let hours = [hour_html("1", "8:00", "8:45")];
    let lesson = format!(
        "<div class=\"day-item-hover\" data-detail='{}'><div class=\"middle\">M</div></div>",
        atom("Matematika", "", "105", "2.A", "")
    );
    let row = row_html("po", "", &[cell_html(&[lesson])]);
    let page = page_html(&hours, &[row]);
    let timetable =
        Timetable::parse_on(&page, &Type::Teacher("UZ123".to_owned()), TODAY).unwrap();
    assert_eq!(
        timetable.days[0].lessons[0],
        vec![Lesson::Regular {
            class: "2.A".to_owned(),
            subject: "Matematika".to_owned(),
            abbr: "M".to_owned(),
            teacher: "UZ123".to_owned(),
            teacher_abbr: None,
            room: some("105"),
            group: some("2.A"),
            topic: None,
        }]
    );
    assert_eq!(timetable.days[0].date, None);
    let lesson = format!(
        "<div class=\"day-item-hover\" data-detail='{}'><div class=\"middle\">M</div></div>",
        atom("Matematika", "Jan Novák", "105", "2.A", "")
    );
    let row = row_html("po", "", &[cell_html(&[lesson])]);
    assert!(matches!(
        Timetable::parse_on(&page_html(&hours, &[row]), &class(), TODAY),
        Err(TimetableError::Day(DayError::Lesson(LessonError::MissingProperty("teacher_abbr"))))
    ));
}

#[test]
fn hours_and_days_decode_in_order() {
    let blocks = vec![
        HourBlock {
            nums: vec![vec!["1".to_owned()]],
            times: vec![vec!["7:10".to_owned()], vec!["-".to_owned()], vec!["7:55".to_owned()]],
        },
        HourBlock {
            nums: vec![vec!["2".to_owned()]],
            times: vec![vec!["8:00".to_owned()], vec!["-".to_owned()], vec!["8:45".to_owned()]],
        },
    ];
    assert_eq!(
        decode_hours(&blocks).unwrap(),
        vec![
            Hour { start: Time { hour: 7, minute: 10, second: 0 }, duration: 45 },
            Hour { start: Time { hour: 8, minute: 0, second: 0 }, duration: 45 },
        ]
    );
    let swapped = vec![
        HourBlock { nums: blocks[1].nums.clone(), times: blocks[1].times.clone() },
        HourBlock { nums: blocks[0].nums.clone(), times: blocks[0].times.clone() },
    ];
    assert!(matches!(decode_hours(&swapped), Err(HourError::MismatchedNum)));
    let rows = vec![
        DayRow { dates: vec![vec!["22.1.".to_owned()]], cells: vec![] },
        DayRow { dates: vec![vec![]], cells: vec![vec![]] },
    ];
    assert_eq!(
        decode_days(&rows, &class(), TODAY).unwrap(),
        vec![
            Day { date: Some(Date { year: 2024, month: 1, day: 22 }), lessons: vec![] },
            Day { date: None, lessons: vec![vec![]] },
        ]
    );
}

#[test]
fn kinds_and_windows_have_their_names() {
    assert_eq!(Which::Permanent.as_str(), "permanent");
    assert_eq!(Which::Actual.as_str(), "actual");
    assert_eq!(Which::Next.as_str(), "next");
    assert_eq!(RawType::Teacher.as_str(), "teacher");
    assert_eq!(RawType::Class.as_str(), "class");
    assert_eq!(RawType::Room.as_str(), "room");
}

#[test]
fn selector_is_written_as_kind_and_identifier() {
    assert_eq!(Type::Teacher("UZ123".to_owned()).to_path(), "teacher/UZ123");
    assert_eq!(Type::Class("7B".to_owned()).to_path(), "class/7B");
    assert_eq!(Type::Room("".to_owned()).to_path(), "room/");
    assert_eq!(Type::Class("7B".to_owned()).kind(), RawType::Class);
    assert_eq!(Type::Room("R1".to_owned()).id(), "R1");
    assert_eq!(Type::Class("7B".to_owned()).clone(), Type::Class("7B".to_owned()));
    assert_ne!(Type::Class("7B".to_owned()), Type::Room("7B".to_owned()));
}

#[test]
fn timetable_error_messages() {
    assert_eq!(
        TimetableError::Hour(HourError::NoNum).message(),
        "failed to parse hour: no number"
    );
    assert_eq!(TimetableError::Day(DayError::NoDate).message(), "failed to parse day: no date");
}
