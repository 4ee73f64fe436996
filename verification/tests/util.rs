use rezvrh_scraper::timetable::util::{empty_string_as_none, single, single_iter};

#[test]
fn single_iter_takes_the_only_item() {
    assert_eq!(single_iter(vec![7].into_iter(), || "none or many"), Ok(7));
    assert_eq!(single_iter("x".chars(), || 0), Ok('x'));
}

#[test]
fn single_iter_fails_on_none_and_on_many() {
    assert_eq!(single_iter(Vec::<u8>::new().into_iter(), || "none or many"), Err("none or many"));
    assert_eq!(single_iter(vec![1, 2].into_iter(), || "none or many"), Err("none or many"));
    assert_eq!(single_iter(vec![1, 1, 1].into_iter(), || 5), Err(5));
}

#[test]
fn single_takes_the_only_item() {
    assert_eq!(single(&vec![3]), Some(&3));
    assert_eq!(single(&Vec::<u8>::new()), None);
    assert_eq!(single(&vec![1, 2]), None);
}

#[test]
fn empty_string_is_no_value() {
    assert_eq!(empty_string_as_none(None), None);
    assert_eq!(empty_string_as_none(Some(String::new())), None);
    assert_eq!(empty_string_as_none(Some(" ".to_owned())), Some(" ".to_owned()));
    assert_eq!(empty_string_as_none(Some("207".to_owned())), Some("207".to_owned()));
}
