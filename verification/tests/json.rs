use rezvrh_scraper::calendar::{Date, Time};
use rezvrh_scraper::timetable::day::Day;
use rezvrh_scraper::timetable::hour::Hour;
use rezvrh_scraper::timetable::lesson::Lesson;
use rezvrh_scraper::timetable::{Timetable, Type};
use serde_json::Value;

fn text(value: &str) -> Value {
    Value::String(value.to_owned())
}

fn optional(value: &Option<String>) -> Value {
    value.as_deref().map_or(Value::Null, text)
}

fn object(members: Vec<(&str, Value)>) -> Value {
    Value::Object(members.into_iter().map(|(k, v)| (k.to_owned(), v)).collect())
}

fn lesson_to_json(lesson: &Lesson) -> Value {
    match lesson {
        Lesson::Regular { class, subject, abbr, teacher, teacher_abbr, room, group, topic }
        | Lesson::Substitution { class, subject, abbr, teacher, teacher_abbr, room, group, topic } => {
            let fields = object(vec![
                ("class", text(class)),
                ("subject", text(subject)),
                ("abbr", text(abbr)),
                ("teacher", text(teacher)),
                ("teacher_abbr", optional(teacher_abbr)),
                ("room", optional(room)),
                ("group", optional(group)),
                ("topic", optional(topic)),
            ]);
            let tag = if matches!(lesson, Lesson::Regular { .. }) { "Regular" } else { "Substitution" };
            object(vec![(tag, fields)])
        }
        Lesson::Canceled => text("Canceled"),
        Lesson::Absent { info, abbr } => {
            object(vec![("Absent", object(vec![("info", text(info)), ("abbr", text(abbr))]))])
        }
    }
}

fn timetable_to_json(timetable: &Timetable) -> Value {
    let hours = timetable
        .hours
        .iter()
        .map(|h| {
            let start = format!("{:02}:{:02}:{:02}", h.start.hour, h.start.minute, h.start.second);
            object(vec![("start", text(&start)), ("duration", Value::from(h.duration))])
        })
        .collect();
    let days = timetable
        .days
        .iter()
        .map(|d| {
            let date = d.date.map_or(Value::Null, |d| {
                text(&format!("{:04}-{:02}-{:02}", d.year, d.month, d.day))
            });
            let lessons = d
                .lessons
                .iter()
                .map(|cell| Value::Array(cell.iter().map(lesson_to_json).collect()))
                .collect();
            object(vec![("date", date), ("lessons", Value::Array(lessons))])
        })
        .collect();
    object(vec![("hours", Value::Array(hours)), ("days", Value::Array(days))])
}

fn string(value: &Value) -> String {
    value.as_str().unwrap().to_owned()
}

fn optional_string(value: &Value) -> Option<String> {
    value.as_str().map(str::to_owned)
}

fn numbers(value: &Value, separator: char) -> Vec<u32> {
    value.as_str().unwrap().split(separator).map(|n| n.parse().unwrap()).collect()
}

fn lesson_from_json(value: &Value) -> Lesson {
    if value.as_str() == Some("Canceled") {
        return Lesson::Canceled;
    }
    let (tag, fields) = value.as_object().unwrap().iter().next().unwrap();
    match tag.as_str() {
        "Absent" => Lesson::Absent { info: string(&fields["info"]), abbr: string(&fields["abbr"]) },
        "Regular" => Lesson::Regular {
            class: string(&fields["class"]),
            subject: string(&fields["subject"]),
            abbr: string(&fields["abbr"]),
            teacher: string(&fields["teacher"]),
            teacher_abbr: optional_string(&fields["teacher_abbr"]),
            room: optional_string(&fields["room"]),
            group: optional_string(&fields["group"]),
            topic: optional_string(&fields["topic"]),
        },
        "Substitution" => Lesson::Substitution {
            class: string(&fields["class"]),
            subject: string(&fields["subject"]),
            abbr: string(&fields["abbr"]),
            teacher: string(&fields["teacher"]),
            teacher_abbr: optional_string(&fields["teacher_abbr"]),
            room: optional_string(&fields["room"]),
            group: optional_string(&fields["group"]),
            topic: optional_string(&fields["topic"]),
        },
        other => panic!("{}", other),
    }
}

fn timetable_from_json(value: &Value) -> Timetable {
    let hours = value["hours"]
        .as_array()
        .unwrap()
        .iter()
        .map(|h| {
            let start = numbers(&h["start"], ':');
            Hour {
                start: Time { hour: start[0], minute: start[1], second: start[2] },
                duration: h["duration"].as_i64().unwrap(),
            }
        })
        .collect();
    let days = value["days"]
        .as_array()
        .unwrap()
        .iter()
        .map(|d| Day {
            date: if d["date"].is_null() {
                None
            } else {
                let date = numbers(&d["date"], '-');
                Some(Date { year: date[0] as i32, month: date[1], day: date[2] })
            },
            lessons: d["lessons"]
                .as_array()
                .unwrap()
                .iter()
                .map(|cell| cell.as_array().unwrap().iter().map(lesson_from_json).collect())
                .collect(),
        })
        .collect();
    Timetable { hours, days }
}

const PAGE: &str = "<html><body>\
    <div class=\"bk-hour-wrapper\"><div class=\"num\">1</div><div class=\"hour\">\
    <span>8:00</span><span> - </span><span>8:45</span></div></div>\
    <div class=\"bk-hour-wrapper\"><div class=\"num\">2</div><div class=\"hour\">\
    <span>8:55</span><span> - </span><span>9:40</span></div></div>\
    <div class=\"bk-timetable-row\"><span class=\"bk-day-date\">22.1.</span>\
    <div class=\"bk-timetable-cell\"><div class=\"day-item\">\
    <div class=\"day-item-hover\" data-detail='{\"type\":\"atom\",\"subjecttext\":\"Dějepis \\&quot;D\\&quot; | po\",\
    \"teacher\":\"Mgr. Jiří Dvořák\",\"room\":\"12\",\"group\":\"\",\"theme\":\"Řím\\n a Řecko\",\"notice\":\"\",\
    \"changeinfo\":\"\",\"homeworks\":null,\"absencetext\":null,\"hasAbsent\":false,\"absentInfoText\":\"\"}'>\
    <div class=\"middle\">D</div><div class=\"bottom\">Dv</div></div>\
    <div class=\"day-item-hover pink\" data-detail='{\"type\":\"atom\",\"subjecttext\":\"Fyzika | po\",\
    \"teacher\":\"Ing. Eva Malá\",\"room\":\"\",\"group\":\"sk2\",\"theme\":\"\",\"notice\":\"\",\
    \"changeinfo\":\"\",\"homeworks\":null,\"absencetext\":null,\"hasAbsent\":false,\"absentInfoText\":\"\"}'>\
    <div class=\"middle\">F</div><div class=\"bottom\">Ma</div></div></div></div>\
    <div class=\"bk-timetable-cell\"><div class=\"day-item\">\
    <div class=\"day-item-hover pink\" data-detail='{\"type\":\"removed\",\"subjecttext\":\"\"}'></div>\
    <div class=\"day-item-hover green\" data-detail='{\"type\":\"absent\",\"InfoAbsentName\":\"Lyžařský kurz\",\
    \"absentinfo\":\"Lyž\"}'></div></div></div></div>\
    <div class=\"bk-timetable-row\"><span class=\"bk-day-date\"></span>\
    <div class=\"bk-timetable-cell\"></div><div class=\"bk-timetable-cell\"></div></div>\
    </body></html>";

#[test]
fn timetable_survives_the_round_trip_through_json() {
    let today = Date { year: 2024, month: 1, day: 24 };
    let timetable = Timetable::parse_on(PAGE, &Type::Class("7B".to_owned()), today).unwrap();
    assert_eq!(timetable.hours.len(), 2);
    assert_eq!(timetable.days.len(), 2);
    assert_eq!(timetable.days[0].lessons[0].len(), 2);
    assert_eq!(timetable.days[0].lessons[1].len(), 2);
    assert_eq!(timetable.days[1].date, None);
    match &timetable.days[0].lessons[0][0] {
        Lesson::Regular { subject, topic, .. } => {
            assert_eq!(subject, "Dějepis \"D\"");
            assert_eq!(topic.as_deref(), Some("Řím\n a Řecko"));
        }
        other => panic!("{:?}", other),
    }
    let written = serde_json::to_string_pretty(&timetable_to_json(&timetable)).unwrap();
    let read: Value = serde_json::from_str(&written).unwrap();
    assert_eq!(timetable_from_json(&read), timetable);
}

#[test]
fn json_of_a_timetable_has_the_external_shape() {
    let timetable = Timetable {
        hours: vec![Hour { start: Time { hour: 8, minute: 0, second: 0 }, duration: 45 }],
        days: vec![Day {
            date: Some(Date { year: 2024, month: 1, day: 22 }),
            lessons: vec![vec![Lesson::Canceled]],
        }],
    };
    assert_eq!(
        serde_json::to_string(&timetable_to_json(&timetable)).unwrap(),
        "{\"days\":[{\"date\":\"2024-01-22\",\"lessons\":[[\"Canceled\"]]}],\
         \"hours\":[{\"duration\":45,\"start\":\"08:00:00\"}]}"
    );
}
