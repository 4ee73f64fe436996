use rezvrh_scraper::api::{auth, split_credentials, ApiError};
use rezvrh_scraper::bakalari::RequestError;
use rezvrh_scraper::config::Config;

#[test]
fn basic_auth_carries_name_and_password() {
    // "novak:tajne"
    assert_eq!(
        auth(Some("Basic bm92YWs6dGFqbmU=")),
        Some(("novak".to_owned(), "tajne".to_owned()))
    );
    // "a:b:c"
    assert_eq!(auth(Some("Basic YTpiOmM=")), Some(("a".to_owned(), "b:c".to_owned())));
    // ":"
    assert_eq!(auth(Some("Basic Og==")), Some((String::new(), String::new())));
    // "žák:heslo"
    assert_eq!(auth(Some("Basic xb7DoWs6aGVzbG8=")), Some(("žák".to_owned(), "heslo".to_owned())));
}

#[test]
fn other_headers_carry_none() {
    assert_eq!(auth(None), None);
    assert_eq!(auth(Some("")), None);
    assert_eq!(auth(Some("Bearer bm92YWs6dGFqbmU=")), None);
    assert_eq!(auth(Some("basic bm92YWs6dGFqbmU=")), None);
    assert_eq!(auth(Some("Basic  bm92YWs6dGFqbmU=")), None);
    // no base64
    assert_eq!(auth(Some("Basic novak:tajne")), None);
    assert_eq!(auth(Some("Basic bm92YWs6dGFqbmU")), None);
    // "novak" has no colon
    assert_eq!(auth(Some("Basic bm92YWs=")), None);
    // 0xff 0x3a 0x61 is no UTF-8
    assert_eq!(auth(Some("Basic /zph")), None);
}

#[test]
fn credentials_split_at_the_first_colon() {
    assert_eq!(split_credentials("u:p"), Some(("u".to_owned(), "p".to_owned())));
    assert_eq!(split_credentials("up"), None);
}

#[test]
fn api_errors_have_their_status() {
    assert_eq!(ApiError::BadUrl.status(), 400);
    assert_eq!(ApiError::InvalidSelector.status(), 400);
    assert_eq!(ApiError::ScrapeError(RequestError::AuthRequired).status(), 500);
    assert_eq!(ApiError::BadUrl.message(), "Invalid or missing URL");
    assert_eq!(ApiError::InvalidSelector.message(), "Invalid or missing selector");
    assert_eq!(
        ApiError::ScrapeError(RequestError::UnknownResponse("x")).message(),
        "server returned unknown response: x"
    );
}

#[test]
fn config_gives_credentials_only_when_whole() {
    let mut config = Config {
        url: "https://skola.bakalari.cz".to_owned(),
        username: Some("novak".to_owned()),
        password: Some("tajne".to_owned()),
    };
    assert_eq!(config.credentials(), Some(("novak".to_owned(), "tajne".to_owned())));
    config.password = None;
    assert_eq!(config.credentials(), None);
    config.username = None;
    assert_eq!(config.credentials(), None);
    config.password = Some("tajne".to_owned());
    assert_eq!(config.credentials(), None);
}
