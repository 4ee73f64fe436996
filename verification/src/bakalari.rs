//! A session with the portal: the directory of its classes, teachers and
//! rooms, and what its answers mean.

use vstd::prelude::*;
use crate::auth::{
    Action, Auth, Credentials, CredentialsView, Event, LoginError, LoginErrorView, TempTokenView,
    TokenState, TOKEN_LIFETIME,
};
use crate::calendar::Date;
use crate::dom::{
    attribute_of, document_matches, document_matches_css, element_attribute, element_texts,
    parse_document, parsed_document, select_document, select_in_document, texts_of,
};
use crate::text::{contains, same_text, text_contains, text_lt, text_order, trim, trimmed};
use crate::timetable::util::{lemma_try_map_fails, lemma_try_map_step, outcome, try_map};
use crate::timetable::{
    page_of, timetable_of, RawType, Timetable, TimetableError, TimetableErrorView, TimetableView, Type,
    TypeView, Which,
};

verus! {

/// The map that pairs of a name and an identifier make, read in order: a
/// later pair of a name takes the place of an earlier one.
pub open spec fn pairs_map(pairs: Seq<(Seq<char>, Seq<char>)>) -> Map<Seq<char>, Seq<char>>
    decreases pairs.len(),
{
    if pairs.len() == 0 {
        Map::empty()
    } else {
        pairs_map(pairs.drop_last()).insert(pairs.last().0, pairs.last().1)
    }
}

/// The names of a map of pairs are the names of the pairs.
pub proof fn lemma_pairs_map_names(pairs: Seq<(Seq<char>, Seq<char>)>, name: Seq<char>)
    ensures
        pairs_map(pairs).contains_key(name) <==> exists|i: int|
            0 <= i < pairs.len() && (#[trigger] pairs[i]).0 == name,
    decreases pairs.len(),
{
    if pairs.len() > 0 {
        let front = pairs.drop_last();
        lemma_pairs_map_names(front, name);
        if pairs_map(pairs).contains_key(name) {
            if pairs.last().0 == name {
                assert(pairs[pairs.len() - 1].0 == name);
            } else {
                let i = choose|i: int| 0 <= i < front.len() && (#[trigger] front[i]).0 == name;
                assert(pairs[i].0 == name);
            }
        }
        if exists|i: int| 0 <= i < pairs.len() && (#[trigger] pairs[i]).0 == name {
            let i = choose|i: int| 0 <= i < pairs.len() && (#[trigger] pairs[i]).0 == name;
            if i < front.len() {
                assert(front[i].0 == name);
            }
        }
    }
}

/// Of the pairs with one name the last decides: a name maps to the
/// identifier of the pair at `at` where no later pair has that name.
pub proof fn lemma_last_wins(pairs: Seq<(Seq<char>, Seq<char>)>, at: int)
    requires
        0 <= at < pairs.len(),
        forall|j: int| at < j < pairs.len() ==> (#[trigger] pairs[j]).0 != pairs[at].0,
    ensures
        pairs_map(pairs).contains_key(pairs[at].0),
        pairs_map(pairs)[pairs[at].0] == pairs[at].1,
    decreases pairs.len(),
{
    if at < pairs.len() - 1 {
        let front = pairs.drop_last();
        assert(front[at] == pairs[at]);
        assert forall|j: int| at < j < front.len() implies (#[trigger] front[j]).0 != front[at].0 by {
            assert(front[j] == pairs[j]);
        }
        lemma_last_wins(front, at);
        assert(pairs[pairs.len() - 1].0 != pairs[at].0);
    }
}

/// The names of one kind of subject, each with the portal's identifier.
#[derive(Debug, PartialEq, Eq)]
pub struct Directory {
    entries: Vec<(String, String)>,
}

impl View for Directory {
    type V = Map<Seq<char>, Seq<char>>;

    closed spec fn view(&self) -> Map<Seq<char>, Seq<char>> {
        pairs_map(self.entries.deep_view())
    }
}

impl DeepView for Directory {
    type V = Map<Seq<char>, Seq<char>>;

    open spec fn deep_view(&self) -> Map<Seq<char>, Seq<char>> {
        self@
    }
}

/// Whether each text of `names` stands before the next.
pub open spec fn ascending(names: Seq<Seq<char>>) -> bool {
    forall|i: int| 0 < i < names.len() ==> text_lt(names[i - 1], #[trigger] names[i])
}

impl Directory {
    /// A directory without names.
    pub fn new() -> (r: Directory)
        ensures
            r@ == Map::<Seq<char>, Seq<char>>::empty(),
    {
        let r = Directory { entries: Vec::new() };
        assert(r.entries.deep_view() =~= Seq::empty());
        r
    }

    /// Gives `name` the identifier `id`, in place of the one it had.
    pub fn insert(&mut self, name: String, id: String)
        ensures
            final(self)@ == old(self)@.insert(name@, id@),
    {
        let ghost before = self.entries.deep_view();
        self.entries.push((name, id));
        assert(self.entries.deep_view().drop_last() =~= before);
    }

    /// The identifier of `name`.
    pub fn get(&self, name: &str) -> (r: Option<&str>)
        ensures
            match r {
                Some(id) => self@.contains_key(name@) && self@[name@] == id@,
                None => !self@.contains_key(name@),
            },
    {
        let ghost pairs = self.entries.deep_view();
        let mut i: usize = self.entries.len();
        while i > 0
            invariant
                i <= self.entries.len(),
                pairs == self.entries.deep_view(),
                forall|j: int| i <= j < pairs.len() ==> (#[trigger] pairs[j]).0 != name@,
            decreases i,
        {
            i -= 1;
            if same_text(self.entries[i].0.as_str(), name) {
                proof {
                    assert(pairs[i as int].0 == name@);
                    lemma_last_wins(pairs, i as int);
                }
                return Some(self.entries[i].1.as_str());
            }
        }
        proof {
            lemma_pairs_map_names(pairs, name@);
        }
        None
    }

    /// The names of the directory, each once, in ascending order.
    pub fn names(&self) -> (names: Vec<String>)
        ensures
            ascending(names.deep_view()),
            forall|name: Seq<char>| names.deep_view().contains(name) <==> self@.contains_key(name),
    {
        let ghost pairs = self.entries.deep_view();
        let mut names: Vec<String> = Vec::new();
        let mut k: usize = 0;
        while k < self.entries.len()
            invariant
                k <= self.entries.len(),
                pairs == self.entries.deep_view(),
                ascending(names.deep_view()),
                forall|name: Seq<char>| names.deep_view().contains(name) <==> exists|j: int|
                    0 <= j < k && (#[trigger] pairs[j]).0 == name,
            decreases self.entries.len() - k,
        {
            let name = self.entries[k].0.as_str();
            let ghost before = names.deep_view();
            let mut p: usize = 0;
            let mut order: i8 = 1;
            let mut placed = false;
            while p < names.len() && !placed
                invariant
                    p <= names.len(),
                    before == names.deep_view(),
                    forall|q: int| 0 <= q < p ==> text_lt(#[trigger] before[q], name@),
                    placed ==> p < names.len(),
                    placed ==> (order == 0 && before[p as int] == name@) || (order == 1 && text_lt(
                        name@,
                        before[p as int],
                    )),
                decreases names.len() - p + if placed { 0int } else { 1int },
            {
                order = text_order(names[p].as_str(), name);
                if order == -1 {
                    p += 1;
                } else {
                    placed = true;
                }
            }
            if placed && order == 0 {
                proof {
                    assert(before[p as int] == name@);
                    assert(pairs[k as int].0 == name@);
                    assert forall|n: Seq<char>| before.contains(n) <==> exists|j: int|
                        0 <= j < k + 1 && (#[trigger] pairs[j]).0 == n by {
                        if exists|j: int| 0 <= j < k + 1 && (#[trigger] pairs[j]).0 == n {
                            let j = choose|j: int| 0 <= j < k + 1 && (#[trigger] pairs[j]).0 == n;
                            if j == k {
                                assert(before.contains(n));
                            }
                        }
                    }
                }
            } else {
                names.insert(p, name.to_owned());
                proof {
                    let after = names.deep_view();
                    assert(after =~= before.insert(p as int, name@));
                    assert(p < before.len() ==> text_lt(name@, before[p as int]));
                    assert forall|i: int| 0 < i < after.len() implies text_lt(
                        after[i - 1],
                        #[trigger] after[i],
                    ) by {
                        if i < p {
                            assert(after[i] == before[i]);
                        } else if i == p {
                            if p > 0 {
                                assert(after[i - 1] == before[p - 1]);
                            }
                        } else if i == p + 1 {
                            assert(after[i] == before[p as int]);
                        } else {
                            assert(after[i] == before[i - 1]);
                            assert(after[i - 1] == before[i - 2]);
                        }
                    }
                    assert forall|n: Seq<char>| after.contains(n) <==> exists|j: int|
                        0 <= j < k + 1 && (#[trigger] pairs[j]).0 == n by {
                        if after.contains(n) {
                            let i = choose|i: int| 0 <= i < after.len() && after[i] == n;
                            if i == p {
                                assert(pairs[k as int].0 == n);
                            } else {
                                if i < p {
                                    assert(before[i] == n);
                                } else {
                                    assert(before[i - 1] == n);
                                }
                                assert(before.contains(n));
                                let j = choose|j: int| 0 <= j < k && (#[trigger] pairs[j]).0 == n;
                                assert(pairs[j].0 == n);
                            }
                        }
                        if exists|j: int| 0 <= j < k + 1 && (#[trigger] pairs[j]).0 == n {
                            let j = choose|j: int| 0 <= j < k + 1 && (#[trigger] pairs[j]).0 == n;
                            if j == k {
                                assert(after[p as int] == n);
                            } else {
                                assert(before.contains(n));
                                let i = choose|i: int| 0 <= i < before.len() && before[i] == n;
                                if i < p {
                                    assert(after[i] == n);
                                } else {
                                    assert(after[i + 1] == n);
                                }
                            }
                        }
                    }
                }
            }
            k += 1;
        }
        proof {
            assert forall|name: Seq<char>| names.deep_view().contains(name) <==> self@.contains_key(
                name,
            ) by {
                lemma_pairs_map_names(pairs, name);
            }
        }
        names
    }
}

/// Why a request to the portal failed.
#[derive(Debug)]
pub enum RequestError {
    /// The login failed.
    Login(LoginError),
    /// The request did not get through; the transport's words.
    Request(String),
    /// The portal answered with something else than the page asked for.
    UnknownResponse(&'static str),
    /// The portal asks for a login: the token is missing, invalid or expired.
    AuthRequired,
    /// The page does not decode to a timetable.
    ParseFailed(TimetableError),
}

/// The mathematical value of a [`RequestError`].
pub enum RequestErrorView {
    Login(LoginErrorView),
    Request(Seq<char>),
    UnknownResponse(Seq<char>),
    AuthRequired,
    ParseFailed(TimetableErrorView),
}

impl View for RequestError {
    type V = RequestErrorView;

    open spec fn view(&self) -> RequestErrorView {
        match self {
            RequestError::Login(e) => RequestErrorView::Login(e@),
            RequestError::Request(message) => RequestErrorView::Request(message@),
            RequestError::UnknownResponse(what) => RequestErrorView::UnknownResponse(what@),
            RequestError::AuthRequired => RequestErrorView::AuthRequired,
            RequestError::ParseFailed(e) => RequestErrorView::ParseFailed(e@),
        }
    }
}

impl RequestError {
    /// The error in words.
    pub open spec fn wording(&self) -> Seq<char> {
        match self {
            RequestError::Login(e) => e@.message(),
            RequestError::Request(message) => message@,
            RequestError::UnknownResponse(what) => "server returned unknown response: "@ + what@,
            RequestError::AuthRequired => "authentication required"@,
            RequestError::ParseFailed(e) => e.wording(),
        }
    }

    /// The error in words.
    pub fn message(&self) -> (r: String)
        ensures
            r@ == self.wording(),
    {
        match self {
            RequestError::Login(e) => e.message(),
            RequestError::Request(message) => message.clone(),
            RequestError::UnknownResponse(what) => String::from_str(
                "server returned unknown response: ",
            ).concat(what),
            RequestError::AuthRequired => String::from_str("authentication required"),
            RequestError::ParseFailed(e) => e.message(),
        }
    }
}

/// The path of the portal's public timetable page.
pub const PUBLIC_PATH: &'static str = "timetable/public";

/// The path of the portal's login.
pub const LOGIN_PATH: &'static str = "Login";

/// The text that every timetable page of the portal holds.
pub const PAGE_MARKER: &'static str = "timetable";

/// The text that the path of the portal's login page holds.
pub const LOGIN_MARKER: &'static str = "login";

/// The selector of the options that name the classes.
pub const CLASSES_SELECTOR: &'static str = "select#selectedClass > option[value]";

/// The selector of the options that name the teachers.
pub const TEACHERS_SELECTOR: &'static str = "select#selectedTeacher > option[value]";

/// The selector of the options that name the rooms.
pub const ROOMS_SELECTOR: &'static str = "select#selectedRoom > option[value]";

/// What the resolver reads of one option of a selection list.
#[derive(Debug, PartialEq, Eq)]
pub struct OptionEntry {
    /// The text nodes of the option.
    pub texts: Vec<String>,
    /// The value of the option's attribute `value`.
    pub value: Option<String>,
}

/// The mathematical value of an [`OptionEntry`].
pub struct OptionEntryView {
    pub texts: Seq<Seq<char>>,
    pub value: Option<Seq<char>>,
}

impl View for OptionEntry {
    type V = OptionEntryView;

    open spec fn view(&self) -> OptionEntryView {
        OptionEntryView { texts: self.texts.deep_view(), value: self.value.deep_view() }
    }
}

impl DeepView for OptionEntry {
    type V = OptionEntryView;

    open spec fn deep_view(&self) -> OptionEntryView {
        self@
    }
}

/// What the resolver reads of the option `option`.
pub open spec fn option_of(option: scraper::ElementRef) -> OptionEntryView {
    OptionEntryView { texts: element_texts(option), value: element_attribute(option, "value"@) }
}

/// What the resolver reads of each of the options `options`.
pub open spec fn options_of(options: Seq<scraper::ElementRef>) -> Seq<OptionEntryView> {
    Seq::new(options.len(), |i: int| option_of(options[i]))
}

/// Reads the options of a selection list off their elements.
pub fn read_options(options: &Vec<scraper::ElementRef>) -> (entries: Vec<OptionEntry>)
    ensures
        entries.deep_view() == options_of(options@),
{
    let mut entries: Vec<OptionEntry> = Vec::new();
    let mut i: usize = 0;
    while i < options.len()
        invariant
            i <= options.len(),
            entries.len() == i,
            forall|j: int| 0 <= j < i ==> (#[trigger] entries[j])@ == option_of(options[j]),
        decreases options.len() - i,
    {
        let texts = texts_of(options[i]);
        let value = attribute_of(options[i], "value");
        entries.push(OptionEntry { texts, value });
        i += 1;
    }
    assert(entries.deep_view() =~= options_of(options@));
    entries
}

/// The name and identifier that an option gives: its first text and its
/// value, both trimmed. An option without a text or without a value gives
/// none.
pub open spec fn option_pair(option: OptionEntryView) -> Result<
    (Seq<char>, Seq<char>),
    RequestErrorView,
> {
    if option.texts.len() == 0 {
        Err(RequestErrorView::UnknownResponse("missing class name"@))
    } else {
        match option.value {
            None => Err(RequestErrorView::UnknownResponse("missing value attr"@)),
            Some(value) => Ok((trimmed(option.texts[0]), trimmed(value))),
        }
    }
}

/// The reading of the option at an index of a selection list.
pub open spec fn option_decoder() -> spec_fn(int, OptionEntryView) -> Result<
    (Seq<char>, Seq<char>),
    RequestErrorView,
> {
    |i: int, option: OptionEntryView| option_pair(option)
}

/// The names and identifiers that the options of a selection list give, in
/// the order of the options; the first option that gives none decides.
pub open spec fn pairs_of(options: Seq<OptionEntryView>) -> Result<
    Seq<(Seq<char>, Seq<char>)>,
    RequestErrorView,
> {
    try_map(options, option_decoder())
}

/// The directory that the options of a selection list make: of two options
/// with one name the later decides.
pub open spec fn directory_of(options: Seq<OptionEntryView>) -> Result<
    Map<Seq<char>, Seq<char>>,
    RequestErrorView,
> {
    match pairs_of(options) {
        Ok(pairs) => Ok(pairs_map(pairs)),
        Err(e) => Err(e),
    }
}

impl Directory {
    /// Makes the directory of the options of a selection list.
    pub fn from_options(options: &Vec<OptionEntry>) -> (r: Result<Directory, RequestError>)
        ensures
            outcome(r) == directory_of(options.deep_view()),
    {
        let ghost decode = option_decoder();
        let mut directory = Directory::new();
        let ghost mut pairs: Seq<(Seq<char>, Seq<char>)> = Seq::empty();
        let mut i: usize = 0;
        assert(options.deep_view().take(0) =~= Seq::empty());
        while i < options.len()
            invariant
                i <= options.len(),
                decode == option_decoder(),
                try_map(options.deep_view().take(i as int), decode) == Ok::<
                    Seq<(Seq<char>, Seq<char>)>,
                    RequestErrorView,
                >(pairs),
                directory@ == pairs_map(pairs),
            decreases options.len() - i,
        {
            proof {
                lemma_try_map_step(options.deep_view(), decode, i as int);
            }
            let option = &options[i];
            if option.texts.len() == 0 {
                proof {
                    lemma_try_map_fails(options.deep_view(), decode, i + 1);
                }
                return Err(RequestError::UnknownResponse("missing class name"));
            }
            let id = match &option.value {
                Some(value) => trim(value.as_str()).to_owned(),
                None => {
                    proof {
                        lemma_try_map_fails(options.deep_view(), decode, i + 1);
                    }
                    return Err(RequestError::UnknownResponse("missing value attr"));
                },
            };
            let name = trim(option.texts[0].as_str()).to_owned();
            proof {
                let longer = pairs.push((name@, id@));
                assert(longer.drop_last() =~= pairs);
                pairs = longer;
            }
            directory.insert(name, id);
            i += 1;
        }
        assert(options.deep_view().take(i as int) =~= options.deep_view());
        Ok(directory)
    }
}

/// Makes the directory of the options that `selector` selects in `document`.
pub fn get_map(document: &scraper::Html, selector: &scraper::Selector) -> (r: Result<
    Directory,
    RequestError,
>)
    ensures
        outcome(r) == directory_of(options_of(document_matches(document, *selector))),
{
    Directory::from_options(&read_options(&select_in_document(document, selector)))
}

/// Makes the directory of the options that the selector group `css` selects
/// in `document`.
fn get_map_by(document: &scraper::Html, css: &str) -> (r: Result<Directory, RequestError>)
    ensures
        outcome(r) == directory_of(options_of(document_matches_css(document, css@))),
{
    Directory::from_options(&read_options(&select_document(document, css)))
}

/// Where a redirect points, as far as the header `Location` tells.
#[derive(Debug, PartialEq, Eq)]
pub enum Location {
    /// The answer has no such header.
    Missing,
    /// The header is no text.
    Invalid,
    /// The header's text.
    Text(String),
}

/// The mathematical value of a [`Location`].
pub enum LocationView {
    Missing,
    Invalid,
    Text(Seq<char>),
}

impl View for Location {
    type V = LocationView;

    open spec fn view(&self) -> LocationView {
        match self {
            Location::Missing => LocationView::Missing,
            Location::Invalid => LocationView::Invalid,
            Location::Text(text) => LocationView::Text(text@),
        }
    }
}

/// What the session reads of an answer of the portal.
#[derive(Debug, PartialEq, Eq)]
pub struct Response {
    /// The status of the answer.
    pub status: u16,
    /// The header `Location` of the answer.
    pub location: Location,
    /// The body of the answer.
    pub body: String,
}

/// The mathematical value of a [`Response`].
pub struct ResponseView {
    pub status: int,
    pub location: LocationView,
    pub body: Seq<char>,
}

impl View for Response {
    type V = ResponseView;

    open spec fn view(&self) -> ResponseView {
        ResponseView { status: self.status as int, location: self.location@, body: self.body@ }
    }
}

/// Whether a status is that of a redirect.
pub open spec fn is_redirection(status: int) -> bool {
    300 <= status < 400
}

/// What a redirect means: to the login page, that a login is required; to
/// anywhere else, or to nowhere that can be read, an unknown answer.
pub open spec fn redirect_error(location: LocationView) -> RequestErrorView {
    match location {
        LocationView::Missing => RequestErrorView::UnknownResponse("missing location header"@),
        LocationView::Invalid => RequestErrorView::UnknownResponse("invalid location header"@),
        LocationView::Text(text) => {
            if contains(text, LOGIN_MARKER@) {
                RequestErrorView::AuthRequired
            } else {
                RequestErrorView::UnknownResponse("redirected to unknown location"@)
            }
        },
    }
}

/// The directories of classes, teachers and rooms that a document holds.
pub open spec fn directories_of(document: &scraper::Html) -> Result<
    (Map<Seq<char>, Seq<char>>, Map<Seq<char>, Seq<char>>, Map<Seq<char>, Seq<char>>),
    RequestErrorView,
> {
    let classes = directory_of(options_of(document_matches_css(document, CLASSES_SELECTOR@)));
    let teachers = directory_of(options_of(document_matches_css(document, TEACHERS_SELECTOR@)));
    let rooms = directory_of(options_of(document_matches_css(document, ROOMS_SELECTOR@)));
    if classes is Err {
        Err(classes->Err_0)
    } else if teachers is Err {
        Err(teachers->Err_0)
    } else if rooms is Err {
        Err(rooms->Err_0)
    } else {
        Ok((classes->Ok_0, teachers->Ok_0, rooms->Ok_0))
    }
}

/// The directories that the portal's answer to the request for its public
/// timetable page holds. A redirect holds none, nor does a page without the
/// marker of a timetable page.
pub open spec fn info_of(response: ResponseView) -> Result<
    (Map<Seq<char>, Seq<char>>, Map<Seq<char>, Seq<char>>, Map<Seq<char>, Seq<char>>),
    RequestErrorView,
> {
    if is_redirection(response.status) {
        Err(redirect_error(response.location))
    } else if !contains(response.body, PAGE_MARKER@) {
        Err(RequestErrorView::UnknownResponse("timetable not present"@))
    } else {
        directories_of(&parsed_document(response.body))
    }
}

/// Reads where a redirect points.
pub fn check_redirect(location: &Location) -> (e: RequestError)
    ensures
        e@ == redirect_error(location@),
{
    match location {
        Location::Missing => RequestError::UnknownResponse("missing location header"),
        Location::Invalid => RequestError::UnknownResponse("invalid location header"),
        Location::Text(text) => {
            if text_contains(text.as_str(), LOGIN_MARKER) {
                RequestError::AuthRequired
            } else {
                RequestError::UnknownResponse("redirected to unknown location")
            }
        },
    }
}

/// Reads the directories of classes, teachers and rooms off the portal's
/// answer to the request for its public timetable page.
pub fn get_info(response: &Response) -> (r: Result<(Directory, Directory, Directory), RequestError>)
    ensures
        outcome(r) == info_of(response@),
{
    if 300 <= response.status && response.status < 400 {
        return Err(check_redirect(&response.location));
    }
    if !text_contains(response.body.as_str(), PAGE_MARKER) {
        return Err(RequestError::UnknownResponse("timetable not present"));
    }
    let document = parse_document(response.body.as_str());
    let classes = get_map_by(&document, CLASSES_SELECTOR)?;
    let teachers = get_map_by(&document, TEACHERS_SELECTOR)?;
    let rooms = get_map_by(&document, ROOMS_SELECTOR)?;
    Ok((classes, teachers, rooms))
}

/// The path of a timetable's page: the public path, which timetable, and
/// whose.
pub open spec fn timetable_path_of(which: Which, timetable_type: TypeView) -> Seq<char> {
    "/"@ + PUBLIC_PATH@ + "/"@ + which.name() + "/"@ + timetable_type.path()
}

/// Writes the path of a timetable's page.
pub fn timetable_path(which: Which, timetable_type: &Type) -> (path: String)
    ensures
        path@ == timetable_path_of(which, timetable_type@),
{
    let mut path = String::from_str("/");
    path.append(PUBLIC_PATH);
    path.append("/");
    path.append(which.as_str());
    path.append("/");
    path.append(timetable_type.to_path().as_str());
    path
}

/// A session with the portal: how it authenticates, and the directories of
/// the portal's classes, teachers and rooms, read once when the session is
/// made.
#[derive(Debug)]
pub struct Bakalari {
    auth: Auth,
    classes: Directory,
    teachers: Directory,
    rooms: Directory,
}

/// The selector of the subject of kind `typ` that `directory` knows by
/// `name`.
pub open spec fn selector_of(directory: Map<Seq<char>, Seq<char>>, typ: RawType, name: Seq<char>) -> Option<
    TypeView,
> {
    if directory.contains_key(name) {
        Some(
            match typ {
                RawType::Teacher => TypeView::Teacher(directory[name]),
                RawType::Class => TypeView::Class(directory[name]),
                RawType::Room => TypeView::Room(directory[name]),
            },
        )
    } else {
        None
    }
}

impl Bakalari {
    /// How the session authenticates.
    pub closed spec fn auth(&self) -> Auth {
        self.auth
    }

    /// The directory of the subjects of one kind.
    pub closed spec fn directory(&self, typ: RawType) -> Map<Seq<char>, Seq<char>> {
        match typ {
            RawType::Teacher => self.teachers@,
            RawType::Class => self.classes@,
            RawType::Room => self.rooms@,
        }
    }

    /// A session that authenticates by `auth`, with the directories that the
    /// portal's answer to the request for its public timetable page holds.
    /// Without the directories there is no session.
    pub fn new(auth: Auth, response: &Response) -> (r: Result<Bakalari, RequestError>)
        ensures
            match r {
                Ok(session) => {
                    &&& session.auth() == auth
                    &&& info_of(response@) == Ok::<_, RequestErrorView>(
                        (
                            session.directory(RawType::Class),
                            session.directory(RawType::Teacher),
                            session.directory(RawType::Room),
                        ),
                    )
                },
                Err(e) => info_of(response@) == Err::<
                    (Map<Seq<char>, Seq<char>>, Map<Seq<char>, Seq<char>>, Map<Seq<char>, Seq<char>>),
                    RequestErrorView,
                >(e@),
            },
    {
        match get_info(response) {
            Ok((classes, teachers, rooms)) => Ok(Bakalari { auth, classes, teachers, rooms }),
            Err(e) => Err(e),
        }
    }

    /// A session of the user `creds`, for whom a login at the time `now`
    /// issued `token`.
    pub fn from_creds(creds: (String, String), token: String, now: u64, response: &Response) -> (r:
        Result<Bakalari, RequestError>)
        requires
            now + TOKEN_LIFETIME <= u64::MAX,
        ensures
            r is Ok <==> info_of(response@) is Ok,
            r matches Ok(session) ==> session.auth() matches Auth::Credentials(stored) && stored@ == (
                CredentialsView {
                    username: creds.0@,
                    password: creds.1@,
                    store: TempTokenView { token: token@, expiration: now + TOKEN_LIFETIME },
                }),
            r matches Ok(session) ==> info_of(response@)->Ok_0 == (
                session.directory(RawType::Class),
                session.directory(RawType::Teacher),
                session.directory(RawType::Room),
            ),
            r matches Err(e) ==> info_of(response@) is Err && e@ == info_of(response@)->Err_0,
    {
        Bakalari::new(Auth::from_creds(creds, token, now), response)
    }

    /// A session with the token that a login issued, which is never
    /// renewed.
    pub fn from_creds_no_store(token: String, response: &Response) -> (r: Result<Bakalari, RequestError>)
        ensures
            r is Ok <==> info_of(response@) is Ok,
            r matches Ok(session) ==> session.auth() == Auth::Token(token) && info_of(response@)->Ok_0
                == (
                session.directory(RawType::Class),
                session.directory(RawType::Teacher),
                session.directory(RawType::Room),
            ),
            r matches Err(e) ==> info_of(response@) is Err && e@ == info_of(response@)->Err_0,
    {
        Bakalari::new(Auth::from_token(token), response)
    }

    /// A session without authentication.
    pub fn no_auth(response: &Response) -> (r: Result<Bakalari, RequestError>)
        ensures
            r is Ok <==> info_of(response@) is Ok,
            r matches Ok(session) ==> session.auth() == Auth::Anonymous && info_of(response@)->Ok_0
                == (
                session.directory(RawType::Class),
                session.directory(RawType::Teacher),
                session.directory(RawType::Room),
            ),
            r matches Err(e) ==> info_of(response@) is Err && e@ == info_of(response@)->Err_0,
    {
        Bakalari::new(Auth::Anonymous, response)
    }

    /// The token for a request at the time `now`.
    pub fn get_token(&self, now: u64) -> (r: TokenState)
        ensures
            r@ == self.auth().token_at(now as int),
    {
        self.auth.get_token(now)
    }

    /// The credentials that the session logs in with, if it does.
    pub fn credentials(&self) -> (r: Option<&Credentials>)
        ensures
            r == match self.auth() {
                Auth::Credentials(creds) => Some(&creds),
                _ => None::<&Credentials>,
            },
    {
        self.auth.credentials()
    }

    /// Takes an event of the token's renewal at the time `now`, and says
    /// what to do next. The directories stay as they are.
    pub fn step(&mut self, event: Event, now: u64) -> (action: Action)
        requires
            event is LoggedIn ==> now + TOKEN_LIFETIME <= u64::MAX,
        ensures
            old(self).auth().after(final(self).auth(), event@, now as int),
            action@ == old(self).auth().action_on(event@, now as int),
            forall|typ: RawType| final(self).directory(typ) == old(self).directory(typ),
    {
        self.auth.step(event, now)
    }

    /// The names of the classes, in ascending order.
    pub fn get_classes(&self) -> (names: Vec<String>)
        ensures
            ascending(names.deep_view()),
            forall|name: Seq<char>|
                names.deep_view().contains(name) <==> self.directory(RawType::Class).contains_key(name),
    {
        self.classes.names()
    }

    /// The selector of the class `class`.
    pub fn get_class(&self, class: &str) -> (r: Option<Type>)
        ensures
            r.deep_view() == selector_of(self.directory(RawType::Class), RawType::Class, class@),
    {
        match self.classes.get(class) {
            Some(id) => Some(Type::Class(id.to_owned())),
            None => None,
        }
    }

    /// The names of the teachers, in ascending order.
    pub fn get_teachers(&self) -> (names: Vec<String>)
        ensures
            ascending(names.deep_view()),
            forall|name: Seq<char>|
                names.deep_view().contains(name) <==> self.directory(RawType::Teacher).contains_key(
                    name,
                ),
    {
        self.teachers.names()
    }

    /// The selector of the teacher `teacher`.
    pub fn get_teacher(&self, teacher: &str) -> (r: Option<Type>)
        ensures
            r.deep_view() == selector_of(self.directory(RawType::Teacher), RawType::Teacher, teacher@),
    {
        match self.teachers.get(teacher) {
            Some(id) => Some(Type::Teacher(id.to_owned())),
            None => None,
        }
    }

    /// The names of the rooms, in ascending order.
    pub fn get_rooms(&self) -> (names: Vec<String>)
        ensures
            ascending(names.deep_view()),
            forall|name: Seq<char>|
                names.deep_view().contains(name) <==> self.directory(RawType::Room).contains_key(name),
    {
        self.rooms.names()
    }

    /// The selector of the room `room`.
    pub fn get_room(&self, room: &str) -> (r: Option<Type>)
        ensures
            r.deep_view() == selector_of(self.directory(RawType::Room), RawType::Room, room@),
    {
        match self.rooms.get(room) {
            Some(id) => Some(Type::Room(id.to_owned())),
            None => None,
        }
    }

    /// The names of the subjects of kind `typ`, in ascending order.
    pub fn get_objects(&self, typ: RawType) -> (names: Vec<String>)
        ensures
            ascending(names.deep_view()),
            forall|name: Seq<char>|
                names.deep_view().contains(name) <==> self.directory(typ).contains_key(name),
    {
        match typ {
            RawType::Class => self.get_classes(),
            RawType::Teacher => self.get_teachers(),
            RawType::Room => self.get_rooms(),
        }
    }

    /// The selector of the subject of kind `typ` that the portal knows by
    /// `name`; none for a name that it does not know.
    pub fn get_selector(&self, typ: RawType, name: &str) -> (r: Option<Type>)
        ensures
            r.deep_view() == selector_of(self.directory(typ), typ, name@),
    {
        match typ {
            RawType::Class => self.get_class(name),
            RawType::Teacher => self.get_teacher(name),
            RawType::Room => self.get_room(name),
        }
    }

    /// Checks the body of the portal's answer to the request for its public
    /// timetable page: it must hold the marker of a timetable page.
    pub fn test(&self, body: &str) -> (r: Result<(), RequestError>)
        ensures
            match r {
                Ok(_) => contains(body@, PAGE_MARKER@),
                Err(e) => !contains(body@, PAGE_MARKER@) && e@ == RequestErrorView::UnknownResponse(
                    "timetable not present"@,
                ),
            },
    {
        if !text_contains(body, PAGE_MARKER) {
            return Err(RequestError::UnknownResponse("timetable not present"));
        }
        Ok(())
    }

    /// Decodes the page `html` of the timetable of `timetable_type`, with
    /// `today` as the day from which a printed date is seen.
    pub fn get_timetable_on(&self, html: &str, timetable_type: &Type, today: Date) -> (r: Result<
        Timetable,
        RequestError,
    >)
        requires
            today.wf(),
        ensures
            outcome(r) == timetable_result(html@, timetable_type@, today),
            r matches Ok(timetable) ==> timetable@.wf(),
    {
        match Timetable::parse_on(html, timetable_type, today) {
            Ok(timetable) => Ok(timetable),
            Err(e) => Err(RequestError::ParseFailed(e)),
        }
    }

    /// Decodes the page `html` of the timetable of `timetable_type`, with a
    /// printed date seen from the day that the machine's clock shows.
    pub fn get_timetable(&self, html: &str, timetable_type: &Type) -> (r: Result<Timetable, RequestError>)
        ensures
            exists|today: Date|
                today.wf() && outcome(r) == #[trigger] timetable_result(html@, timetable_type@, today),
            r matches Ok(timetable) ==> timetable@.wf(),
    {
        let today = Date::today();
        let r = self.get_timetable_on(html, timetable_type, today);
        assert(outcome(r) == timetable_result(html@, timetable_type@, today));
        r
    }
}

/// What the decoding of a timetable's page gives a session.
pub open spec fn timetable_result(html: Seq<char>, timetable_type: TypeView, today: Date) -> Result<
    TimetableView,
    RequestErrorView,
> {
    match timetable_of(page_of(&parsed_document(html)), timetable_type, today) {
        Ok(timetable) => Ok(timetable),
        Err(e) => Err(RequestErrorView::ParseFailed(e)),
    }
}

} // verus!
