use rezvrh_scraper::auth::{Auth, TokenState};
use rezvrh_scraper::bakalari::{
    check_redirect, get_info, get_map, read_options, timetable_path, Bakalari, Directory, Location,
    OptionEntry, RequestError, Response,
};
use rezvrh_scraper::calendar::Date;
use rezvrh_scraper::timetable::{RawType, TimetableError, Type, Which};

const PAGE: &str = "<!DOCTYPE html><html><body><form action=\"/timetable/public\">\
    <select id=\"selectedClass\"><option>Vyberte</option>\
    <option value=\"7B\"> 7.B </option><option value=\"1A\">1.A</option>\
    <option value=\" ZZ \">10.C</option></select>\
    <select id=\"selectedTeacher\"><option value=\"UZ1\">Novák Jan</option>\
    <option value=\"UZ2\">Černá Eva</option></select>\
    <select id=\"selectedRoom\"><option value=\"R1\">105</option></select>\
    </form></body></html>";

fn ok(body: &str) -> Response {
    Response { status: 200, location: Location::Missing, body: body.to_owned() }
}

fn entry(text: &str, value: &str) -> OptionEntry {
    OptionEntry { texts: vec![text.to_owned()], value: Some(value.to_owned()) }
}

#[test]
fn directory_keeps_the_later_of_two_options_with_one_name() {
    let page = "<html><body>timetable<select id=\"selectedClass\">\
        <option value=\"7B\">7.B</option><option value=\"7B2\">7.B</option></select></body></html>";
    let session = Bakalari::no_auth(&ok(page)).unwrap();
    assert_eq!(session.get_class("7.B"), Some(Type::Class("7B2".to_owned())));
    assert_eq!(session.get_selector(RawType::Class, "7.B"), Some(Type::Class("7B2".to_owned())));
    assert_eq!(session.get_classes(), vec!["7.B".to_owned()]);
}

#[test]
fn directory_insert_is_last_wins() {
    let mut directory = Directory::new();
    assert_eq!(directory.get("7.B"), None);
    directory.insert("7.B".to_owned(), "7B".to_owned());
    directory.insert("1.A".to_owned(), "1A".to_owned());
    directory.insert("7.B".to_owned(), "XX".to_owned());
    assert_eq!(directory.get("7.B"), Some("XX"));
    assert_eq!(directory.get("1.A"), Some("1A"));
    assert_eq!(directory.get("7.b"), None);
    assert_eq!(directory.names(), vec!["1.A".to_owned(), "7.B".to_owned()]);
}

#[test]
fn directory_from_options_trims_names_and_identifiers() {
    let options = vec![entry(" 7.B\n", " 7B "), entry("1.A", "1A"), entry("7.B", "later")];
    let directory = Directory::from_options(&options).unwrap();
    assert_eq!(directory.get("7.B"), Some("later"));
    assert_eq!(directory.get("1.A"), Some("1A"));
    assert_eq!(directory.names().len(), 2);
}

#[test]
fn option_without_text_or_value_is_an_unknown_response() {
    let no_text = vec![entry("1.A", "1A"), OptionEntry { texts: vec![], value: Some("x".to_owned()) }];
    assert!(matches!(
        Directory::from_options(&no_text),
        Err(RequestError::UnknownResponse("missing class name"))
    ));
    let no_value = vec![OptionEntry { texts: vec!["7.B".to_owned()], value: None }, entry("1.A", "1A")];
    assert!(matches!(
        Directory::from_options(&no_value),
        Err(RequestError::UnknownResponse("missing value attr"))
    ));
    let neither = vec![OptionEntry { texts: vec![], value: None }];
    assert!(matches!(
        Directory::from_options(&neither),
        Err(RequestError::UnknownResponse("missing class name"))
    ));
}

#[test]
fn names_are_listed_in_ascending_order() {
    let mut directory = Directory::new();
    for name in ["b", "Č", "a", "10.A", "1.B", "b", "", "ab", "B"] {
        directory.insert(name.to_owned(), "id".to_owned());
    }
    let mut expected: Vec<String> =
        ["b", "Č", "a", "10.A", "1.B", "", "ab", "B"].iter().map(|n| (*n).to_owned()).collect();
    expected.sort();
    assert_eq!(directory.names(), expected);
}

#[test]
fn page_gives_three_directories() {
    let (classes, teachers, rooms) = get_info(&ok(PAGE)).unwrap();
    assert_eq!(classes.names(), vec!["1.A".to_owned(), "10.C".to_owned(), "7.B".to_owned()]);
    assert_eq!(classes.get("7.B"), Some("7B"));
    assert_eq!(classes.get("10.C"), Some("ZZ"));
    assert_eq!(classes.get("Vyberte"), None);
    assert_eq!(teachers.get("Novák Jan"), Some("UZ1"));
    assert_eq!(teachers.names(), vec!["Novák Jan".to_owned(), "Černá Eva".to_owned()]);
    assert_eq!(rooms.get("105"), Some("R1"));
}

#[test]
fn option_with_value_but_no_text_fails_the_page() {
    let page = "timetable <select id=\"selectedRoom\"><option value=\"R1\"></option></select>";
    assert!(matches!(
        get_info(&ok(page)),
        Err(RequestError::UnknownResponse("missing class name"))
    ));
}

#[test]
fn page_without_marker_is_an_unknown_response() {
    assert!(matches!(
        get_info(&ok("<html><body>Not found</body></html>")),
        Err(RequestError::UnknownResponse("timetable not present"))
    ));
}

#[test]
fn redirect_to_the_login_asks_for_authentication() {
    let redirect = |status, location| Response { status, location, body: PAGE.to_owned() };
    assert!(matches!(
        get_info(&redirect(302, Location::Text("/login?ReturnUrl=%2Ftimetable".to_owned()))),
        Err(RequestError::AuthRequired)
    ));
    assert!(matches!(
        get_info(&redirect(302, Location::Text("/Login".to_owned()))),
        Err(RequestError::UnknownResponse("redirected to unknown location"))
    ));
    assert!(matches!(
        get_info(&redirect(301, Location::Text("https://example.org/".to_owned()))),
        Err(RequestError::UnknownResponse("redirected to unknown location"))
    ));
    assert!(matches!(
        get_info(&redirect(307, Location::Missing)),
        Err(RequestError::UnknownResponse("missing location header"))
    ));
    assert!(matches!(
        get_info(&redirect(399, Location::Invalid)),
        Err(RequestError::UnknownResponse("invalid location header"))
    ));
    assert!(get_info(&redirect(299, Location::Text("/login".to_owned()))).is_ok());
    assert!(get_info(&redirect(400, Location::Text("/login".to_owned()))).is_ok());
    assert!(matches!(
        check_redirect(&Location::Text("x/login/y".to_owned())),
        RequestError::AuthRequired
    ));
}

#[test]
fn options_are_read_off_a_document() {
    let document = scraper::Html::parse_document(PAGE);
    let selector = scraper::Selector::parse("select#selectedClass > option[value]").unwrap();
    let elements: Vec<scraper::ElementRef> = document.select(&selector).collect();
    assert_eq!(
        read_options(&elements),
        vec![entry(" 7.B ", "7B"), entry("1.A", "1A"), entry("10.C", " ZZ ")]
    );
    let directory = get_map(&document, &selector).unwrap();
    assert_eq!(directory.get("7.B"), Some("7B"));
    assert_eq!(directory.names().len(), 3);
    let all = scraper::Selector::parse("option").unwrap();
    assert!(matches!(
        get_map(&document, &all),
        Err(RequestError::UnknownResponse("missing value attr"))
    ));
}

#[test]
fn session_lists_and_resolves_names() {
    let session = Bakalari::no_auth(&ok(PAGE)).unwrap();
    assert_eq!(session.get_objects(RawType::Class), vec!["1.A", "10.C", "7.B"]);
    assert_eq!(session.get_objects(RawType::Teacher), vec!["Novák Jan", "Černá Eva"]);
    assert_eq!(session.get_objects(RawType::Room), vec!["105"]);
    assert_eq!(session.get_teachers(), vec!["Novák Jan", "Černá Eva"]);
    assert_eq!(session.get_rooms(), vec!["105"]);
    assert_eq!(session.get_selector(RawType::Teacher, "Černá Eva"), Some(Type::Teacher("UZ2".to_owned())));
    assert_eq!(session.get_selector(RawType::Room, "105"), Some(Type::Room("R1".to_owned())));
    assert_eq!(session.get_selector(RawType::Room, "7.B"), None);
    assert_eq!(session.get_selector(RawType::Class, "7.C"), None);
    assert_eq!(session.get_teacher("Novák Jan"), Some(Type::Teacher("UZ1".to_owned())));
    assert_eq!(session.get_room("999"), None);
}

#[test]
fn session_is_made_whole_or_not_at_all() {
    let bad = ok("<html>maintenance</html>");
    assert!(matches!(Bakalari::no_auth(&bad), Err(RequestError::UnknownResponse(_))));
    assert!(matches!(
        Bakalari::from_creds_no_store("T".to_owned(), &bad),
        Err(RequestError::UnknownResponse(_))
    ));
    assert!(matches!(
        Bakalari::from_creds(("u".to_owned(), "p".to_owned()), "T".to_owned(), 0, &bad),
        Err(RequestError::UnknownResponse(_))
    ));
    assert!(matches!(
        Bakalari::new(Auth::Anonymous, &bad),
        Err(RequestError::UnknownResponse("timetable not present"))
    ));
}

#[test]
fn session_tokens_by_the_way_it_authenticates() {
    let anonymous = Bakalari::no_auth(&ok(PAGE)).unwrap();
    assert_eq!(anonymous.get_token(0), TokenState::Anonymous);
    let bare = Bakalari::from_creds_no_store("T0".to_owned(), &ok(PAGE)).unwrap();
    assert_eq!(bare.get_token(0), TokenState::Valid("T0".to_owned()));
    assert_eq!(bare.get_token(u64::MAX), TokenState::Valid("T0".to_owned()));
    let user =
        Bakalari::from_creds(("u".to_owned(), "p".to_owned()), "T1".to_owned(), 1000, &ok(PAGE))
            .unwrap();
    assert_eq!(user.get_token(1000), TokenState::Valid("T1".to_owned()));
    assert_eq!(user.get_token(300_999), TokenState::Valid("T1".to_owned()));
    assert_eq!(user.get_token(301_000), TokenState::Expired);
}

#[test]
fn session_checks_and_decodes_pages() {
    let session = Bakalari::no_auth(&ok(PAGE)).unwrap();
    assert!(session.test(PAGE).is_ok());
    assert!(matches!(
        session.test("<html></html>"),
        Err(RequestError::UnknownResponse("timetable not present"))
    ));
    let class = Type::Class("7B".to_owned());
    let today = Date { year: 2024, month: 1, day: 24 };
    let empty = session.get_timetable_on("<html></html>", &class, today).unwrap();
    assert!(empty.hours.is_empty() && empty.days.is_empty());
    let bad = "<div class=\"bk-hour-wrapper\"></div>";
    assert!(matches!(
        session.get_timetable_on(bad, &class, today),
        Err(RequestError::ParseFailed(TimetableError::Hour(_)))
    ));
    assert!(matches!(
        session.get_timetable(bad, &class),
        Err(RequestError::ParseFailed(TimetableError::Hour(_)))
    ));
}

#[test]
fn timetable_paths() {
    assert_eq!(
        timetable_path(Which::Actual, &Type::Class("7B".to_owned())),
        "/timetable/public/actual/class/7B"
    );
    assert_eq!(
        timetable_path(Which::Permanent, &Type::Teacher("UZ1".to_owned())),
        "/timetable/public/permanent/teacher/UZ1"
    );
    assert_eq!(
        timetable_path(Which::Next, &Type::Room("R 1".to_owned())),
        "/timetable/public/next/room/R 1"
    );
}

#[test]
fn request_error_messages() {
    assert_eq!(
        RequestError::UnknownResponse("timetable not present").message(),
        "server returned unknown response: timetable not present"
    );
    assert_eq!(RequestError::Request("timed out".to_owned()).message(), "timed out");
}
