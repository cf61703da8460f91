//! University campus search through the AMap (Gaode) web service: the request
//! URL, the reading of campus identities from place names, and the selection of
//! campus candidates from a service response.
//!
//! The HTTP exchange and the JSON decoding happen outside the library; the
//! response reaches [`select_campus_candidates`] as plain values, with each
//! place's location already converted to a WGS-84 anchor of type `A` (or `None`
//! where the location was not a valid coordinate).
use crate::campus::{CampusCandidate, CampusIdentity, CampusSourceReference};
use crate::text::{
    chars_of, concat_chars, decimal, decimal_chars, ends_with_char, has_infix, is_blank, last_index,
    last_index_of, lemma_last_index_below, string_of, trim, trim_range, trim_str, contains_chars,
    char_views, concat_all, contains_text, join_texts, chars_equal, occurs_at,
};
use vstd::prelude::*;

verus! {

pub const GAODE_TEXT_SEARCH_ENDPOINT: &'static str = "https://restapi.amap.com/v3/place/text";

pub const HIGHER_EDUCATION_TYPECODE: &'static str = "141201";

// ---------------------------------------------------------------------------
// Percent-encoding (urlencoding crate)
// ---------------------------------------------------------------------------

/// Bytes that `urlencoding::encode` leaves as they are: ASCII alphanumerics and `-._~`.
pub open spec fn is_unreserved_byte(b: u8) -> bool {
    ||| 48 <= b <= 57
    ||| 65 <= b <= 90
    ||| 97 <= b <= 122
    ||| b == 45
    ||| b == 46
    ||| b == 95
    ||| b == 126
}

/// Upper-case hexadecimal digit of `d < 16`.
pub open spec fn hex_upper(d: int) -> char {
    if d < 10 {
        (48 + d) as char
    } else {
        (55 + d) as char
    }
}

pub open spec fn percent_encode_byte(b: u8) -> Seq<char> {
    if is_unreserved_byte(b) {
        seq![b as char]
    } else {
        seq!['%', hex_upper((b / 16) as int), hex_upper((b % 16) as int)]
    }
}

pub open spec fn percent_encode_bytes(bytes: Seq<u8>) -> Seq<char>
    decreases bytes.len(),
{
    if bytes.len() == 0 {
        seq![]
    } else {
        percent_encode_byte(bytes[0]) + percent_encode_bytes(bytes.drop_first())
    }
}

/// The percent-encoding of the UTF-8 bytes of `text`.
pub open spec fn url_encoded(text: Seq<char>) -> Seq<char> {
    percent_encode_bytes(vstd::utf8::encode_utf8(text))
}

/// Percent-encodes `text` with `urlencoding::encode`.
///
/// The contract claims what the crate's source does: every byte of the UTF-8
/// encoding except ASCII alphanumerics and `-._~` becomes `%` and two upper-case
/// hexadecimal digits, the others are kept, in order.
#[verifier::external_body]
fn url_encode(text: &str) -> (r: String)
    ensures
        r@ == url_encoded(text@),
{
    urlencoding::encode(text).into_owned()
}

/// Percent-encodes characters.
pub fn url_encode_chars(text: &Vec<char>) -> (r: Vec<char>)
    ensures
        r@ == url_encoded(text@),
{
    let s = string_of(text);
    let e = url_encode(s.as_str());
    chars_of(e.as_str())
}

// ---------------------------------------------------------------------------
// Errors
// ---------------------------------------------------------------------------

#[derive(Debug, Clone, PartialEq, Eq)]
pub enum SearchError {
    MissingApiKey,
    BlankKeyword,
    Transport,
    HttpStatus(u16),
    ServiceRejected { info: String, infocode: String },
    MalformedResponse(String),
}

/// The human-readable message of a search error.
pub open spec fn search_error_message(e: SearchError) -> Seq<char> {
    match e {
        SearchError::MissingApiKey => "AMAP_WEB_SERVICE_KEY is not configured"@,
        SearchError::BlankKeyword => "campus search keyword cannot be blank"@,
        SearchError::Transport => "campus search network request failed"@,
        SearchError::HttpStatus(code) => "campus search HTTP request failed with status "@
            + decimal(code as nat),
        SearchError::ServiceRejected { info, infocode } =>
            "campus search service rejected the request: "@ + info@ + " ("@ + infocode@ + ")"@,
        SearchError::MalformedResponse(detail) => "campus search returned malformed data: "@
            + detail@,
    }
}

impl SearchError {
    /// The message of the error, for display.
    pub fn message(&self) -> (r: String)
        ensures
            r@ == search_error_message(*self),
    {
        let text = match self {
            SearchError::MissingApiKey => chars_of("AMAP_WEB_SERVICE_KEY is not configured"),
            SearchError::BlankKeyword => chars_of("campus search keyword cannot be blank"),
            SearchError::Transport => chars_of("campus search network request failed"),
            SearchError::HttpStatus(code) => {
                let head = chars_of("campus search HTTP request failed with status ");
                concat_chars(&head, &decimal_chars(*code as u64))
            },
            SearchError::ServiceRejected { info, infocode } => {
                let a = chars_of("campus search service rejected the request: ");
                let b = concat_chars(&a, &chars_of(info.as_str()));
                let c = concat_chars(&b, &chars_of(" ("));
                let d = concat_chars(&c, &chars_of(infocode.as_str()));
                concat_chars(&d, &chars_of(")"))
            },
            SearchError::MalformedResponse(detail) => {
                let head = chars_of("campus search returned malformed data: ");
                concat_chars(&head, &chars_of(detail.as_str()))
            },
        };
        string_of(&text)
    }
}

// ---------------------------------------------------------------------------
// Search client and request URL
// ---------------------------------------------------------------------------

/// The query part of every search URL after the keywords.
pub open spec fn fixed_query() -> Seq<char> {
    "&types=141201&offset=20&page=1&extensions=base&output=json"@
}

/// The search URL for a key, a trimmed non-blank keyword and an optional region.
pub open spec fn search_url(api_key: Seq<char>, keyword: Seq<char>, region: Option<Seq<char>>) -> Seq<
    char,
> {
    let base = GAODE_TEXT_SEARCH_ENDPOINT@ + "?key="@ + url_encoded(api_key) + "&keywords="@
        + url_encoded(trim(keyword)) + fixed_query();
    match region {
        Some(r) if trim(r).len() > 0 => base + "&city="@ + url_encoded(trim(r))
            + "&citylimit=false"@,
        _ => base,
    }
}

/// The AMap text-search URL that looks for universities (type code 141201)
/// matching `keyword`, limited to `region` where one is given.
///
/// Fails with `BlankKeyword` exactly when the keyword is white space only.
pub fn build_search_url(api_key: &str, keyword: &str, region: Option<&str>) -> (r: Result<
    String,
    SearchError,
>)
    ensures
        is_blank(keyword@) ==> r == Err::<String, SearchError>(SearchError::BlankKeyword),
        !is_blank(keyword@) ==> (r matches Ok(url) && url@ == search_url(
            api_key@,
            keyword@,
            match region {
                Some(x) => Some(x@),
                None => None,
            },
        )),
{
    let keyword = trim_str(keyword);
    if keyword.len() == 0 {
        return Err(SearchError::BlankKeyword);
    }
    let mut url = chars_of(GAODE_TEXT_SEARCH_ENDPOINT);
    url = concat_chars(&url, &chars_of("?key="));
    url = concat_chars(&url, &url_encode_chars(&chars_of(api_key)));
    url = concat_chars(&url, &chars_of("&keywords="));
    url = concat_chars(&url, &url_encode_chars(&keyword));
    url = concat_chars(&url, &chars_of("&types=141201&offset=20&page=1&extensions=base&output=json"));
    if let Some(region) = region {
        let region = trim_str(region);
        if region.len() > 0 {
            url = concat_chars(&url, &chars_of("&city="));
            url = concat_chars(&url, &url_encode_chars(&region));
            url = concat_chars(&url, &chars_of("&citylimit=false"));
        }
    }
    Ok(string_of(&url))
}

/// Every search URL restricts the search to universities: it carries the query
/// `&types=141201&offset=20&page=1&extensions=base&output=json`.
pub proof fn search_url_restricts_to_universities(
    api_key: Seq<char>,
    keyword: Seq<char>,
    region: Option<Seq<char>>,
)
    ensures
        has_infix(search_url(api_key, keyword, region), fixed_query()),
{
    let head = GAODE_TEXT_SEARCH_ENDPOINT@ + "?key="@ + url_encoded(api_key) + "&keywords="@
        + url_encoded(trim(keyword));
    let base = head + fixed_query();
    let url = search_url(api_key, keyword, region);
    let i = head.len() as int;
    assert(base.subrange(i, i + fixed_query().len()) =~= fixed_query());
    match region {
        Some(r) if trim(r).len() > 0 => {
            let tail = "&city="@ + url_encoded(trim(r)) + "&citylimit=false"@;
            assert(url =~= base + tail);
            assert((base + tail).subrange(i, i + fixed_query().len()) =~= fixed_query());
            assert(occurs_at(url, fixed_query(), i));
        },
        _ => {
            assert(url =~= base);
            assert(occurs_at(url, fixed_query(), i));
        },
    }
}

pub struct GaodeSearchClient {
    api_key: String,
}

impl GaodeSearchClient {
    pub closed spec fn key(&self) -> Seq<char> {
        self.api_key@
    }

    /// A client for the given web-service key; fails with `MissingApiKey`
    /// exactly when the key is white space only.
    pub fn new(api_key: String) -> (r: Result<Self, SearchError>)
        ensures
            is_blank(api_key@) ==> r == Err::<Self, SearchError>(SearchError::MissingApiKey),
            !is_blank(api_key@) ==> (r matches Ok(c) && c.key() == api_key@),
    {
        let trimmed = trim_str(api_key.as_str());
        if trimmed.len() == 0 {
            return Err(SearchError::MissingApiKey);
        }
        Ok(GaodeSearchClient { api_key })
    }

    /// The request URL of a campus search with this client's key.
    pub fn search_url(&self, keyword: &str, region: Option<&str>) -> (r: Result<String, SearchError>)
        ensures
            is_blank(keyword@) ==> r == Err::<String, SearchError>(SearchError::BlankKeyword),
            !is_blank(keyword@) ==> (r matches Ok(url) && url@ == search_url(
                self.key(),
                keyword@,
                match region {
                    Some(x) => Some(x@),
                    None => None,
                },
            )),
    {
        build_search_url(self.api_key.as_str(), keyword, region)
    }
}

// ---------------------------------------------------------------------------
// Campus identity from a place name
// ---------------------------------------------------------------------------

/// The name explicitly labels a campus (`校区` or `校园`).
pub open spec fn campus_label(v: Seq<char>) -> bool {
    has_infix(v, seq!['校', '区']) || has_infix(v, seq!['校', '园'])
}

/// One attempt to split `name` at trailing parentheses `open … close`:
/// `None` to try the next kind, `Some(None)` when the name ends with `close`
/// but holds no `open` (no split at all), `Some(Some((school, campus)))` on success.
pub open spec fn paren_attempt(name: Seq<char>, open: char, close: char) -> Option<
    Option<(Seq<char>, Seq<char>)>,
> {
    if !(name.len() > 0 && name.last() == close) {
        None
    } else {
        match last_index(name, open) {
            None => Some(None),
            Some(k) => {
                let campus = trim(name.subrange(k + 1, name.len() - 1));
                let school = trim(name.subrange(0, k));
                if school.len() > 0 && campus_label(campus) {
                    Some(Some((school, campus)))
                } else {
                    None
                }
            },
        }
    }
}

/// Split at full-width parentheses, then at ASCII ones.
pub open spec fn trailing_parentheses(name: Seq<char>) -> Option<(Seq<char>, Seq<char>)> {
    match paren_attempt(name, '（', '）') {
        Some(r) => r,
        None => match paren_attempt(name, '(', ')') {
            Some(r) => r,
            None => None,
        },
    }
}

/// Split at the last occurrence of `sep`.
pub open spec fn separator_attempt(name: Seq<char>, sep: char) -> Option<(Seq<char>, Seq<char>)> {
    match last_index(name, sep) {
        None => None,
        Some(k) => {
            let school = trim(name.subrange(0, k));
            let campus = trim(name.subrange(k + 1, name.len() as int));
            if school.len() > 0 && campus_label(campus) {
                Some((school, campus))
            } else {
                None
            }
        },
    }
}

/// Split at a trailing `-`, `－` or `—` separator, tried in that order.
pub open spec fn trailing_separator(name: Seq<char>) -> Option<(Seq<char>, Seq<char>)> {
    match separator_attempt(name, '-') {
        Some(p) => Some(p),
        None => match separator_attempt(name, '－') {
            Some(p) => Some(p),
            None => separator_attempt(name, '—'),
        },
    }
}

/// School and campus names read from a place name, where it names a campus.
pub open spec fn campus_split(name: Seq<char>) -> Option<(Seq<char>, Seq<char>)> {
    match trailing_parentheses(name) {
        Some(p) => Some(p),
        None => trailing_separator(name),
    }
}

/// The identity read from a place name: the name is kept as the display name;
/// school and campus come from [`campus_split`], or the whole name is the school.
pub open spec fn identity_matches(r: CampusIdentity, name: Seq<char>) -> bool {
    &&& r.display_name@ == name
    &&& match campus_split(name) {
        Some((school, campus)) => r.school_name@ == school && (r.campus_name matches Some(c)
            && c@ == campus),
        None => r.school_name@ == name && r.campus_name is None,
    }
}

/// Whether `value` labels a campus.
pub fn is_campus_label(value: &Vec<char>) -> (r: bool)
    ensures
        r == campus_label(value@),
{
    let a = vec!['校', '区'];
    let b = vec!['校', '园'];
    contains_chars(value, &a) || contains_chars(value, &b)
}

fn paren_attempt_exec(name: &Vec<char>, open: char, close: char) -> (r: Option<
    Option<(Vec<char>, Vec<char>)>,
>)
    requires
        open != close,
    ensures
        match (r, paren_attempt(name@, open, close)) {
            (None, None) => true,
            (Some(None), Some(None)) => true,
            (Some(Some((s, c))), Some(Some((ss, cc)))) => s@ == ss && c@ == cc,
            _ => false,
        },
{
    if !ends_with_char(name, close) {
        return None;
    }
    let k = match last_index_of(name, open) {
        None => return Some(None),
        Some(k) => k,
    };
    proof {
        lemma_last_index_below(name@, open, name@.len() as int);
        assert(k < name@.len() && name@[k as int] == open);
        assert(k < name.len());
    }
    let campus = trim_range(name, k + 1, name.len() - 1);
    let school = trim_range(name, 0, k);
    if school.len() > 0 && is_campus_label(&campus) {
        Some(Some((school, campus)))
    } else {
        None
    }
}

/// School and campus names split at trailing parentheses.
fn trailing_campus_parentheses(name: &Vec<char>) -> (r: Option<(Vec<char>, Vec<char>)>)
    ensures
        match (r, trailing_parentheses(name@)) {
            (None, None) => true,
            (Some((s, c)), Some((ss, cc))) => s@ == ss && c@ == cc,
            _ => false,
        },
{
    match paren_attempt_exec(name, '（', '）') {
        Some(r) => return r,
        None => {},
    }
    match paren_attempt_exec(name, '(', ')') {
        Some(r) => r,
        None => None,
    }
}

fn separator_attempt_exec(name: &Vec<char>, sep: char) -> (r: Option<(Vec<char>, Vec<char>)>)
    ensures
        match (r, separator_attempt(name@, sep)) {
            (None, None) => true,
            (Some((s, c)), Some((ss, cc))) => s@ == ss && c@ == cc,
            _ => false,
        },
{
    let k = match last_index_of(name, sep) {
        None => return None,
        Some(k) => k,
    };
    proof {
        lemma_last_index_below(name@, sep, name@.len() as int);
        assert(k < name@.len());
        assert(k < name.len());
    }
    let school = trim_range(name, 0, k);
    let campus = trim_range(name, k + 1, name.len());
    if school.len() > 0 && is_campus_label(&campus) {
        Some((school, campus))
    } else {
        None
    }
}

/// School and campus names split at a trailing separator.
fn trailing_campus_separator(name: &Vec<char>) -> (r: Option<(Vec<char>, Vec<char>)>)
    ensures
        match (r, trailing_separator(name@)) {
            (None, None) => true,
            (Some((s, c)), Some((ss, cc))) => s@ == ss && c@ == cc,
            _ => false,
        },
{
    match separator_attempt_exec(name, '-') {
        Some(p) => return Some(p),
        None => {},
    }
    match separator_attempt_exec(name, '－') {
        Some(p) => return Some(p),
        None => {},
    }
    separator_attempt_exec(name, '—')
}

fn identity_from_chars(name: &Vec<char>) -> (r: CampusIdentity)
    ensures
        identity_matches(r, name@),
{
    if let Some((school, campus)) = trailing_campus_parentheses(name) {
        return CampusIdentity {
            school_name: string_of(&school),
            campus_name: Some(string_of(&campus)),
            display_name: string_of(name),
        };
    }
    if let Some((school, campus)) = trailing_campus_separator(name) {
        return CampusIdentity {
            school_name: string_of(&school),
            campus_name: Some(string_of(&campus)),
            display_name: string_of(name),
        };
    }
    CampusIdentity {
        school_name: string_of(name),
        campus_name: None,
        display_name: string_of(name),
    }
}

/// The campus identity of a provider place name. The name is kept verbatim as
/// the display name; a campus name is only read where the name carries an
/// explicit campus label.
pub fn parse_campus_identity(display_name: &str) -> (r: CampusIdentity)
    ensures
        identity_matches(r, display_name@),
{
    identity_from_chars(&chars_of(display_name))
}

// ---------------------------------------------------------------------------
// Candidates from a service response
// ---------------------------------------------------------------------------

/// A text field of a place as the service sends it: a string, an array (of
/// which only the string items count), or anything else.
#[derive(Debug, Clone, PartialEq, Eq)]
pub enum TextField {
    Text(String),
    Items(Vec<Option<String>>),
    Absent,
}

/// A place of the service response. `anchor` is its location converted to
/// WGS-84, or `None` where the location is not a valid coordinate.
#[derive(Debug, Clone, PartialEq)]
pub struct RawPoi<A> {
    pub id: String,
    pub name: String,
    pub typecode: String,
    pub address: TextField,
    pub pname: TextField,
    pub cityname: TextField,
    pub adname: TextField,
    pub anchor: Option<A>,
}

#[derive(Debug, Clone, PartialEq)]
pub struct RawSearchResponse<A> {
    pub status: String,
    pub info: String,
    pub infocode: String,
    pub pois: Vec<RawPoi<A>>,
}

pub open spec fn item_text(x: Option<String>) -> Seq<char> {
    match x {
        Some(t) => trim(t@),
        None => seq![],
    }
}

/// The trimmed string items among the first `n` items, joined.
pub open spec fn joined_items(items: Seq<Option<String>>, n: int) -> Seq<char>
    decreases n,
{
    if n <= 0 || n > items.len() {
        seq![]
    } else {
        joined_items(items, n - 1) + item_text(items[n - 1])
    }
}

/// The text of a field: a string trimmed, the trimmed string items of an
/// array joined, nothing otherwise.
pub open spec fn flattened(v: TextField) -> Seq<char> {
    match v {
        TextField::Text(t) => trim(t@),
        TextField::Items(xs) => joined_items(xs@, xs@.len() as int),
        TextField::Absent => seq![],
    }
}

/// `parts` with `t` added, unless `t` is empty or already among them.
pub open spec fn with_part(parts: Seq<Seq<char>>, t: Seq<char>) -> Seq<Seq<char>> {
    if t.len() > 0 && !parts.contains(t) {
        parts.push(t)
    } else {
        parts
    }
}

/// The address of a place: province, city, district and street texts, each
/// kept once, joined.
pub open spec fn address_of<A>(p: RawPoi<A>) -> Seq<char> {
    concat_all(
        with_part(
            with_part(
                with_part(with_part(seq![], flattened(p.pname)), flattened(p.cityname)),
                flattened(p.adname),
            ),
            flattened(p.address),
        ),
    )
}

/// The address of a place is its province, city, district and street texts in
/// that order: all four when they are non-empty and distinct, and with a city
/// that repeats the province (a municipality) written once.
pub proof fn address_reads_province_city_district_street<A>(p: RawPoi<A>)
    ensures
        ({
            let (a, b, c, d) = (
                flattened(p.pname),
                flattened(p.cityname),
                flattened(p.adname),
                flattened(p.address),
            );
            a.len() > 0 && b.len() > 0 && c.len() > 0 && d.len() > 0 && a != b && a != c && a != d
                && b != c && b != d && c != d ==> address_of(p) == a + b + c + d
        }),
        ({
            let (a, b, c, d) = (
                flattened(p.pname),
                flattened(p.cityname),
                flattened(p.adname),
                flattened(p.address),
            );
            a.len() > 0 && b == a && c.len() > 0 && d.len() > 0 && a != c && a != d && c != d
                ==> address_of(p) == a + c + d
        }),
{
    let a = flattened(p.pname);
    let b = flattened(p.cityname);
    let c = flattened(p.adname);
    let d = flattened(p.address);
    let e: Seq<Seq<char>> = seq![];
    assert(!e.contains(a));
    if a.len() > 0 {
        assert(with_part(e, a) =~= seq![a]);
        assert(seq![a].drop_last() =~= e);
        assert(concat_all(e) =~= Seq::<char>::empty());
        assert(concat_all(seq![a]) =~= a);
    }
    if a.len() > 0 && b.len() > 0 && c.len() > 0 && d.len() > 0 && a != b && a != c && a != d && b
        != c && b != d && c != d {
        let p1 = seq![a];
        assert(!p1.contains(b)) by {
            if p1.contains(b) {
                let k = choose|k: int| 0 <= k < p1.len() && p1[k] == b;
                assert(p1[k] == a);
            }
        }
        let p2 = p1.push(b);
        assert(p2 =~= seq![a, b]);
        assert(!p2.contains(c)) by {
            if p2.contains(c) {
                let k = choose|k: int| 0 <= k < p2.len() && p2[k] == c;
                assert(k == 0 || k == 1);
            }
        }
        let p3 = p2.push(c);
        assert(!p3.contains(d)) by {
            if p3.contains(d) {
                let k = choose|k: int| 0 <= k < p3.len() && p3[k] == d;
                assert(k == 0 || k == 1 || k == 2);
            }
        }
        let p4 = p3.push(d);
        assert(with_part(with_part(with_part(with_part(e, a), b), c), d) == p4);
        assert(p4.drop_last() =~= p3);
        assert(p3.drop_last() =~= p2);
        assert(p2.drop_last() =~= p1);
        assert(p1.drop_last() =~= e);
        assert(concat_all(p2) == concat_all(p1) + b);
        assert(concat_all(p3) == concat_all(p2) + c);
        assert(concat_all(p4) == concat_all(p3) + d);
        assert(concat_all(p4) =~= a + b + c + d);
    }
    if a.len() > 0 && b == a && c.len() > 0 && d.len() > 0 && a != c && a != d && c != d {
        let p1 = seq![a];
        assert(p1.contains(b)) by {
            assert(p1[0] == b);
        }
        assert(!p1.contains(c)) by {
            if p1.contains(c) {
                let k = choose|k: int| 0 <= k < p1.len() && p1[k] == c;
                assert(p1[k] == a);
            }
        }
        let p2 = p1.push(c);
        assert(!p2.contains(d)) by {
            if p2.contains(d) {
                let k = choose|k: int| 0 <= k < p2.len() && p2[k] == d;
                assert(k == 0 || k == 1);
            }
        }
        let p3 = p2.push(d);
        assert(with_part(with_part(with_part(with_part(e, a), b), c), d) == p3);
        assert(p3.drop_last() =~= p2);
        assert(p2.drop_last() =~= p1);
        assert(p1.drop_last() =~= e);
        assert(concat_all(p2) == concat_all(p1) + c);
        assert(concat_all(p3) == concat_all(p2) + d);
        assert(concat_all(p3) =~= a + c + d);
    }
}

/// A selected place: its identifier, its trimmed name, its address, its anchor.
pub type Selected<A> = (Seq<char>, Seq<char>, Seq<char>, A);

/// The places among the first `n` that become candidates, and the identifiers
/// seen so far. A place counts when its type code is 141201 and its identifier is
/// not blank; of such places with one identifier only the first is considered;
/// it is kept when it has an anchor and a non-blank name.
pub open spec fn selection<A>(pois: Seq<RawPoi<A>>, n: int) -> (Seq<Selected<A>>, Seq<Seq<char>>)
    decreases n,
{
    if n <= 0 || n > pois.len() {
        (seq![], seq![])
    } else {
        let prev = selection(pois, n - 1);
        let p = pois[n - 1];
        if p.typecode@ != HIGHER_EDUCATION_TYPECODE@ || is_blank(p.id@) {
            prev
        } else if prev.1.contains(p.id@) {
            prev
        } else {
            let seen = prev.1.push(p.id@);
            match p.anchor {
                None => (prev.0, seen),
                Some(a) => {
                    let name = trim(p.name@);
                    if name.len() == 0 {
                        (prev.0, seen)
                    } else {
                        (prev.0.push((p.id@, name, address_of(p), a)), seen)
                    }
                },
            }
        }
    }
}

/// `c` is the candidate built from the selected place `k`.
pub open spec fn candidate_matches<A>(c: CampusCandidate<A>, k: Selected<A>) -> bool {
    &&& c.source.provider@ == "gaode"@
    &&& c.source.external_id@ == k.0
    &&& identity_matches(c.identity, k.1)
    &&& c.address@ == k.2
    &&& c.anchor == k.3
}

/// The text of a field.
fn flatten_text(v: &TextField) -> (r: Vec<char>)
    ensures
        r@ == flattened(*v),
{
    match v {
        TextField::Text(t) => trim_str(t.as_str()),
        TextField::Items(xs) => {
            let mut out: Vec<char> = Vec::new();
            let mut i: usize = 0;
            while i < xs.len()
                invariant
                    0 <= i <= xs.len(),
                    out@ == joined_items(xs@, i as int),
                decreases xs.len() - i,
            {
                match &xs[i] {
                    Some(t) => {
                        let piece = trim_str(t.as_str());
                        out = concat_chars(&out, &piece);
                    },
                    None => {
                        assert(item_text(xs@[i as int]) =~= seq![]);
                        assert(out@ + seq![] =~= out@);
                    },
                }
                i = i + 1;
            }
            out
        },
        TextField::Absent => Vec::new(),
    }
}

fn add_part(parts: &mut Vec<Vec<char>>, t: Vec<char>)
    ensures
        char_views(final(parts)@) == with_part(char_views(old(parts)@), t@),
{
    if t.len() > 0 && !contains_text(parts, &t) {
        parts.push(t);
        assert(char_views(parts@) =~= char_views(old(parts)@).push(t@));
    }
}

/// The address of a place.
fn compose_address<A>(raw: &RawPoi<A>) -> (r: Vec<char>)
    ensures
        r@ == address_of(*raw),
{
    let mut parts: Vec<Vec<char>> = Vec::new();
    assert(char_views(parts@) =~= seq![]);
    add_part(&mut parts, flatten_text(&raw.pname));
    add_part(&mut parts, flatten_text(&raw.cityname));
    add_part(&mut parts, flatten_text(&raw.adname));
    add_part(&mut parts, flatten_text(&raw.address));
    join_texts(&parts)
}

/// The campus candidates of a service response.
///
/// A response whose status is not `"1"` is refused with `ServiceRejected`,
/// carrying the service's `info` and `infocode`; otherwise the candidates are
/// exactly the places of [`selection`], in response order.
pub fn select_campus_candidates<A: Copy>(response: &RawSearchResponse<A>) -> (r: Result<
    Vec<CampusCandidate<A>>,
    SearchError,
>)
    ensures
        response.status@ != "1"@ ==> (r matches Err(SearchError::ServiceRejected { info, infocode })
            && info@ == response.info@ && infocode@ == response.infocode@),
        response.status@ == "1"@ ==> (r matches Ok(v) && v@.len() == selection(
            response.pois@,
            response.pois@.len() as int,
        ).0.len() && forall|i: int|
            0 <= i < v@.len() ==> candidate_matches(
                #[trigger] v@[i],
                selection(response.pois@, response.pois@.len() as int).0[i],
            )),
{
    let status = chars_of(response.status.as_str());
    if !chars_equal(&status, &chars_of("1")) {
        return Err(
            SearchError::ServiceRejected {
                info: response.info.clone(),
                infocode: response.infocode.clone(),
            },
        );
    }
    let typecode_wanted = chars_of(HIGHER_EDUCATION_TYPECODE);
    let mut seen: Vec<Vec<char>> = Vec::new();
    let mut candidates: Vec<CampusCandidate<A>> = Vec::new();
    let pois = &response.pois;
    let mut i: usize = 0;
    assert(char_views(seen@) =~= seq![]);
    while i < pois.len()
        invariant
            0 <= i <= pois.len(),
            typecode_wanted@ == HIGHER_EDUCATION_TYPECODE@,
            char_views(seen@) == selection(pois@, i as int).1,
            candidates@.len() == selection(pois@, i as int).0.len(),
            forall|j: int|
                0 <= j < candidates@.len() ==> candidate_matches(
                    #[trigger] candidates@[j],
                    selection(pois@, i as int).0[j],
                ),
        decreases pois.len() - i,
    {
        let raw = &pois[i];
        let ghost prev = selection(pois@, i as int);
        assert(selection(pois@, i + 1) == {
            let p = pois@[i as int];
            if p.typecode@ != HIGHER_EDUCATION_TYPECODE@ || is_blank(p.id@) {
                prev
            } else if prev.1.contains(p.id@) {
                prev
            } else {
                let seen = prev.1.push(p.id@);
                match p.anchor {
                    None => (prev.0, seen),
                    Some(a) => {
                        let name = trim(p.name@);
                        if name.len() == 0 {
                            (prev.0, seen)
                        } else {
                            (prev.0.push((p.id@, name, address_of(p), a)), seen)
                        }
                    },
                }
            }
        });
        let id = chars_of(raw.id.as_str());
        let typecode = chars_of(raw.typecode.as_str());
        let id_trimmed = trim_str(raw.id.as_str());
        if chars_equal(&typecode, &typecode_wanted) && id_trimmed.len() > 0 {
            if !contains_text(&seen, &id) {
                seen.push(id);
                assert(char_views(seen@) =~= prev.1.push(raw.id@));
                if let Some(anchor) = raw.anchor {
                    let name = trim_str(raw.name.as_str());
                    if name.len() > 0 {
                        let identity = identity_from_chars(&name);
                        let address = compose_address(raw);
                        let candidate = CampusCandidate {
                            source: CampusSourceReference {
                                provider: string_of(&chars_of("gaode")),
                                external_id: raw.id.clone(),
                            },
                            identity,
                            address: string_of(&address),
                            anchor,
                        };
                        candidates.push(candidate);
                    }
                }
            }
        }
        i = i + 1;
    }
    Ok(candidates)
}

/// No two candidates of a response share a provider identifier, and each comes
/// from a place of the response with type code 141201 and a non-blank identifier.
pub proof fn selected_places_are_distinct_university_places<A>(pois: Seq<RawPoi<A>>, n: int)
    requires
        0 <= n <= pois.len(),
    ensures
        forall|i: int, j: int|
            0 <= i < j < selection(pois, n).0.len() ==> selection(pois, n).0[i].0 != selection(
                pois,
                n,
            ).0[j].0,
        forall|i: int|
            #![trigger selection(pois, n).0[i]]
            0 <= i < selection(pois, n).0.len() ==> exists|k: int|
                0 <= k < n && (#[trigger] pois[k]).id@ == selection(pois, n).0[i].0
                    && pois[k].typecode@ == HIGHER_EDUCATION_TYPECODE@ && !is_blank(pois[k].id@)
                    && pois[k].anchor == Some(selection(pois, n).0[i].3),
        forall|i: int|
            0 <= i < selection(pois, n).0.len() ==> selection(pois, n).1.contains(
                #[trigger] selection(pois, n).0[i].0,
            ),
    decreases n,
{
    if n > 0 {
        selected_places_are_distinct_university_places(pois, n - 1);
        let prev = selection(pois, n - 1);
        let cur = selection(pois, n);
        let p = pois[n - 1];
        assert forall|i: int| 0 <= i < cur.0.len() implies cur.1.contains(#[trigger] cur.0[i].0) by {
            if i < prev.0.len() {
                assert(cur.0[i] == prev.0[i]);
                assert(prev.1.contains(prev.0[i].0));
                let w = choose|w: int| 0 <= w < prev.1.len() && prev.1[w] == prev.0[i].0;
                assert(cur.1[w] == prev.1[w]);
            } else {
                assert(cur.1[cur.1.len() - 1] == p.id@);
            }
        }
        assert forall|i: int|
            #![trigger cur.0[i]]
            0 <= i < cur.0.len() implies exists|k: int|
                0 <= k < n && (#[trigger] pois[k]).id@ == cur.0[i].0
                    && pois[k].typecode@ == HIGHER_EDUCATION_TYPECODE@ && !is_blank(pois[k].id@)
                    && pois[k].anchor == Some(cur.0[i].3) by {
            if i < prev.0.len() {
                assert(cur.0[i] == prev.0[i]);
            } else {
                assert(pois[n - 1].id@ == cur.0[i].0);
            }
        }
    }
}

/// A campus name is never invented: it is present only where the place name
/// labels a campus, and the label is then part of it.
pub proof fn campus_name_is_labelled(r: CampusIdentity, name: Seq<char>)
    requires
        identity_matches(r, name),
    ensures
        r.display_name@ == name,
        r.campus_name matches Some(c) ==> campus_label(c@) && r.school_name@.len() > 0,
{
}

} // verus!
