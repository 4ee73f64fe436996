use rezvrh_scraper::calendar::Date;
use rezvrh_scraper::timetable::day::{Day, DayError, DayRow};
use rezvrh_scraper::timetable::lesson::{Lesson, LessonEntry, LessonError};
use rezvrh_scraper::timetable::Type;

const TODAY: Date = Date { year: 2024, month: 1, day: 24 };

fn texts(items: &[&[&str]]) -> Vec<Vec<String>> {
    items.iter().map(|texts| texts.iter().map(|t| (*t).to_owned()).collect()).collect()
}

fn canceled() -> LessonEntry {
    LessonEntry {
        detail: Some("{\"type\":\"removed\",\"subjecttext\":\"\"}".to_owned()),
        pink: true,
        green: false,
        abbr: Vec::new(),
        teacher_abbr: Vec::new(),
    }
}

fn unmarked() -> LessonEntry {
    LessonEntry { pink: false, ..canceled() }
}

fn class() -> Type {
    Type::Class("7B".to_owned())
}

#[test]
fn day_with_date_and_cells() {
    let row = DayRow {
        dates: texts(&[&["\n 22.1. \n"]]),
        cells: vec![vec![], vec![canceled(), canceled()], vec![]],
    };
    assert_eq!(
        Day::from_row(&row, &class(), TODAY).unwrap(),
        Day {
            date: Some(Date { year: 2024, month: 1, day: 22 }),
            lessons: vec![vec![], vec![Lesson::Canceled, Lesson::Canceled], vec![]],
        }
    );
}

#[test]
fn day_of_the_permanent_timetable_has_no_date() {
    let row = DayRow { dates: texts(&[&[]]), cells: vec![vec![canceled()]] };
    assert_eq!(
        Day::from_row(&row, &class(), TODAY).unwrap(),
        Day { date: None, lessons: vec![vec![Lesson::Canceled]] }
    );
}

#[test]
fn day_without_cells_has_no_lessons() {
    let row = DayRow { dates: texts(&[&["22.1."]]), cells: vec![] };
    assert_eq!(
        Day::from_row(&row, &class(), TODAY).unwrap(),
        Day { date: Some(Date { year: 2024, month: 1, day: 22 }), lessons: vec![] }
    );
}

#[test]
fn day_needs_exactly_one_date_element() {
    let mut row = DayRow { dates: texts(&[]), cells: vec![] };
    assert!(matches!(Day::from_row(&row, &class(), TODAY), Err(DayError::NoDate)));
    row.dates = texts(&[&["22.1."], &["23.1."]]);
    assert!(matches!(Day::from_row(&row, &class(), TODAY), Err(DayError::NoDate)));
    row.dates = texts(&[&["22.1.", "x"]]);
    assert!(matches!(Day::from_row(&row, &class(), TODAY), Err(DayError::NoDate)));
}

#[test]
fn day_with_a_date_that_is_none() {
    let row = DayRow { dates: texts(&[&[" 31.2. "]]), cells: vec![] };
    match Day::from_row(&row, &class(), TODAY) {
        Err(DayError::ParseDate(text)) => assert_eq!(text, "31.2."),
        other => panic!("{:?}", other),
    }
    let row = DayRow { dates: texts(&[&["pondělí"]]), cells: vec![] };
    match Day::from_row(&row, &class(), TODAY) {
        Err(DayError::ParseDate(text)) => assert_eq!(text, "pondělí"),
        other => panic!("{:?}", other),
    }
}

#[test]
fn day_fails_with_its_first_failing_lesson() {
    let row = DayRow {
        dates: texts(&[&["22.1."]]),
        cells: vec![vec![canceled()], vec![canceled(), unmarked()], vec![]],
    };
    assert!(matches!(
        Day::from_row(&row, &class(), TODAY),
        Err(DayError::Lesson(LessonError::DataTypeMismatch))
    ));
    // the date is looked at before the lessons
    let row = DayRow { dates: texts(&[]), cells: vec![vec![unmarked()]] };
    assert!(matches!(Day::from_row(&row, &class(), TODAY), Err(DayError::NoDate)));
}

const ROW: &str = "<div class=\"bk-timetable-row\"><div class=\"bk-day-wrapper\">\
    <span class=\"bk-day-day\">po</span><span class=\"bk-day-date\">15.12.</span></div>\
    <div class=\"bk-cell-wrapper\"><div class=\"bk-timetable-cell\"></div>\
    <div class=\"bk-timetable-cell\"><div class=\"day-item\">\
    <div class=\"day-item-hover pink\" data-detail='{\"type\":\"removed\",\"subjecttext\":null}'></div>\
    </div></div></div></div>";

#[test]
fn day_is_read_off_an_element() {
    let html = scraper::Html::parse_fragment(ROW);
    let selector = scraper::Selector::parse("div.bk-timetable-row").unwrap();
    let element = html.select(&selector).next().unwrap();
    assert_eq!(
        DayRow::read(element),
        DayRow {
            dates: texts(&[&["15.12."]]),
            cells: vec![
                vec![],
                vec![LessonEntry {
                    detail: Some("{\"type\":\"removed\",\"subjecttext\":null}".to_owned()),
                    pink: true,
                    green: false,
                    abbr: Vec::new(),
                    teacher_abbr: Vec::new(),
                }],
            ],
        }
    );
    let day = Day::parse_on(element, &class(), Date { year: 2024, month: 1, day: 1 }).unwrap();
    assert_eq!(
        day,
        Day {
            date: Some(Date { year: 2023, month: 12, day: 15 }),
            lessons: vec![vec![], vec![Lesson::Canceled]],
        }
    );
}

#[test]
fn day_is_read_with_the_clock() {
    let html = scraper::Html::parse_fragment(ROW);
    let selector = scraper::Selector::parse("div.bk-timetable-row").unwrap();
    let element = html.select(&selector).next().unwrap();
    let day = Day::parse(element, &class()).unwrap();
    let date = day.date.unwrap();
    assert_eq!((date.month, date.day), (12, 15));
    let today = Date::today();
    assert!((date.year - today.year).abs() <= 1);
    assert_eq!(day.lessons, vec![vec![], vec![Lesson::Canceled]]);
}

#[test]
fn day_error_messages() {
    assert_eq!(DayError::NoDate.message(), "no date");
    assert_eq!(DayError::ParseDate("x".to_owned()).message(), "failed to parse date: x");
    assert_eq!(
        DayError::Lesson(LessonError::NoData).message(),
        "failed to parse lesson: missing data-detail attribute"
    );
}
