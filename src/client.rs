use vstd::prelude::*;

verus! {

/// The envelope every response of the server is wrapped in: one payload
/// under the `MediaContainer` key.
pub struct MediaContainer<T> {
    pub media_container: T,
}

impl<T> MediaContainer<T> {
    /// Wraps a payload.
    pub fn new(media_container: T) -> (r: Self)
        ensures
            r.media_container == media_container,
    {
        Self { media_container }
    }

    /// Takes the payload out of the envelope.
    pub fn into_inner(self) -> (r: T)
        ensures
            r == self.media_container,
    {
        self.media_container
    }

    /// The payload inside the envelope.
    pub fn inner(&self) -> (r: &T)
        ensures
            *r == self.media_container,
    {
        &self.media_container
    }
}

} // verus!

verus! {

/// Header that carries the authentication token.
pub open spec fn token_header() -> Seq<char> {
    "X-Plex-Token"@
}

/// Header that carries the offset of a history page.
pub open spec fn start_header() -> Seq<char> {
    "X-Plex-Container-Start"@
}

/// Header that carries the size of a history page.
pub open spec fn size_header() -> Seq<char> {
    "X-Plex-Container-Size"@
}

/// Path of the library sections endpoint.
pub open spec fn sections_path() -> Seq<char> {
    "/library/sections"@
}

/// Path of the item metadata endpoint, before the item's rating key.
pub open spec fn metadata_path() -> Seq<char> {
    "/library/metadata/"@
}

/// Path of the watch history endpoint.
pub open spec fn history_path() -> Seq<char> {
    "/status/sessions/history/all"@
}

/// One HTTP GET to send to the server: the full URL, the headers, and the
/// query parameters, each a (name, value) pair.
pub struct ApiRequest {
    pub url: String,
    pub headers: Vec<(String, String)>,
    pub query: Vec<(String, String)>,
}

/// The views of a list of (name, value) pairs.
pub open spec fn pairs_view(v: Seq<(String, String)>) -> Seq<(Seq<char>, Seq<char>)> {
    v.map_values(|p: (String, String)| (p.0@, p.1@))
}

/// The headers every request carries: the token, and a request for JSON.
pub open spec fn common_headers(token: Seq<char>) -> Seq<(Seq<char>, Seq<char>)> {
    seq![(token_header(), token), ("Accept"@, "application/json"@)]
}

/// The character of a decimal digit.
pub open spec fn digit_char(d: nat) -> char {
    if d == 0 {
        '0'
    } else if d == 1 {
        '1'
    } else if d == 2 {
        '2'
    } else if d == 3 {
        '3'
    } else if d == 4 {
        '4'
    } else if d == 5 {
        '5'
    } else if d == 6 {
        '6'
    } else if d == 7 {
        '7'
    } else if d == 8 {
        '8'
    } else {
        '9'
    }
}

/// Decimal notation of `n`, without leading zeros.
pub open spec fn decimal_of(n: nat) -> Seq<char>
    decreases n,
{
    if n < 10 {
        seq![digit_char(n)]
    } else {
        decimal_of(n / 10).push(digit_char(n % 10))
    }
}

fn digit_str(d: u32) -> (r: &'static str)
    requires
        d < 10,
    ensures
        r@ == seq![digit_char(d as nat)],
{
    proof {
        reveal_strlit("0");
        reveal_strlit("1");
        reveal_strlit("2");
        reveal_strlit("3");
        reveal_strlit("4");
        reveal_strlit("5");
        reveal_strlit("6");
        reveal_strlit("7");
        reveal_strlit("8");
        reveal_strlit("9");
    }
    let r = if d == 0 {
        "0"
    } else if d == 1 {
        "1"
    } else if d == 2 {
        "2"
    } else if d == 3 {
        "3"
    } else if d == 4 {
        "4"
    } else if d == 5 {
        "5"
    } else if d == 6 {
        "6"
    } else if d == 7 {
        "7"
    } else if d == 8 {
        "8"
    } else {
        "9"
    };
    assert(r@ =~= seq![digit_char(d as nat)]);
    r
}

/// Decimal notation of `n`, as header values carry numbers.
pub fn decimal(n: u32) -> (r: String)
    ensures
        r@ == decimal_of(n as nat),
    decreases n,
{
    if n < 10 {
        String::from_str(digit_str(n))
    } else {
        let mut s = decimal(n / 10);
        s.append(digit_str(n % 10));
        assert(s@ =~= decimal_of(n as nat));
        s
    }
}

/// A (name, value) pair of owned strings.
fn pair(name: &str, value: &str) -> (r: (String, String))
    ensures
        r.0@ == name@,
        r.1@ == value@,
{
    (String::from_str(name), String::from_str(value))
}

/// A GET of `endpoint` under `base_url`, authenticated by `token`, asking for
/// JSON, with no query parameters.
pub fn get_request(base_url: &str, token: &str, endpoint: &str) -> (r: ApiRequest)
    ensures
        r.url@ == base_url@ + endpoint@,
        pairs_view(r.headers@) == common_headers(token@),
        r.query@.len() == 0,
{
    let url = String::from_str(base_url).concat(endpoint);
    let mut headers: Vec<(String, String)> = Vec::new();
    headers.push(pair("X-Plex-Token", token));
    headers.push(pair("Accept", "application/json"));
    assert(pairs_view(headers@) =~= common_headers(token@));
    ApiRequest { url, headers, query: Vec::new() }
}

/// The request for every library section of the server.
pub fn library_sections_request(base_url: &str, token: &str) -> (r: ApiRequest)
    ensures
        r.url@ == base_url@ + sections_path(),
        pairs_view(r.headers@) == common_headers(token@),
        r.query@.len() == 0,
{
    get_request(base_url, token, "/library/sections")
}

/// The request for the metadata of the item with the given rating key.
pub fn media_item_metadata_request(base_url: &str, token: &str, rating_key: &str) -> (r:
    ApiRequest)
    ensures
        r.url@ == base_url@ + metadata_path() + rating_key@,
        pairs_view(r.headers@) == common_headers(token@),
        r.query@.len() == 0,
{
    let endpoint = String::from_str("/library/metadata/").concat(rating_key);
    let r = get_request(base_url, token, endpoint.as_str());
    assert(r.url@ =~= base_url@ + metadata_path() + rating_key@);
    r
}

/// The request for one page of the watch history of a library section,
/// most recent view first. The page is chosen by two headers (its offset and
/// its size); the section, the order and the account by query parameters.
pub fn watch_history_page_request(
    base_url: &str,
    token: &str,
    offset: u32,
    page_size: u32,
    library_section_id: &str,
) -> (r: ApiRequest)
    ensures
        r.url@ == base_url@ + history_path(),
        pairs_view(r.headers@) == common_headers(token@).push(
            (start_header(), decimal_of(offset as nat)),
        ).push((size_header(), decimal_of(page_size as nat))),
        pairs_view(r.query@) == seq![
            ("sort"@, "viewedAt:desc"@),
            ("librarySectionID"@, library_section_id@),
            ("accountID"@, "1"@),
        ],
{
    let mut r = get_request(base_url, token, "/status/sessions/history/all");
    let start = decimal(offset);
    let size = decimal(page_size);
    r.headers.push((String::from_str("X-Plex-Container-Start"), start));
    r.headers.push((String::from_str("X-Plex-Container-Size"), size));
    r.query.push(pair("sort", "viewedAt:desc"));
    r.query.push(pair("librarySectionID", library_section_id));
    r.query.push(pair("accountID", "1"));
    assert(pairs_view(r.headers@) =~= common_headers(token@).push(
        (start_header(), decimal_of(offset as nat)),
    ).push((size_header(), decimal_of(page_size as nat))));
    assert(pairs_view(r.query@) =~= seq![
        ("sort"@, "viewedAt:desc"@),
        ("librarySectionID"@, library_section_id@),
        ("accountID"@, "1"@),
    ]);
    r
}

} // verus!
