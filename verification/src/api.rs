//! Shared utility types and functions for the API
use vstd::prelude::*;
use vstd::string::StringExecFns;

use crate::error::ApiError;

verus! {

/// The scheme, host, and versioned path prefix shared by every endpoint URL.
pub open spec fn api_base() -> Seq<char> {
    "https://www.strava.com/api/v3/"@
}

/// The query fragment that carries the access token on authenticated URLs.
pub open spec fn token_query() -> Seq<char> {
    "?access_token="@
}

/// The bearer secret carried by an optional token, if one is given.
pub open spec fn secret_of(token: Option<&AccessToken>) -> Option<Seq<char>> {
    match token {
        Some(t) => Some(t.access_token@),
        None => None,
    }
}

/// What `v3` returns: the versioned endpoint URL, with the access token
/// appended as a query parameter exactly when a token is supplied.
pub open spec fn v3_url(secret: Option<Seq<char>>, path: Seq<char>) -> Seq<char> {
    match secret {
        Some(s) => api_base() + path + token_query() + s,
        None => api_base() + path,
    }
}

/// Build a versioned API URL for the given path, embedding the token's
/// secret as a query parameter when a token is given.
///
/// The path is not escaped: callers supply already-safe segments such as
/// numeric identifiers or fixed literals.
pub fn v3(token: Option<&AccessToken>, url: String) -> (r: String)
    ensures
        r@ == v3_url(secret_of(token), url@),
{
    let with_path = String::from_str("https://www.strava.com/api/v3/").concat(url.as_str());
    match token {
        Some(t) => {
            let r = with_path.concat("?access_token=").concat(t.get());
            proof {
                assert(r@ =~= api_base() + url@ + token_query() + t.access_token@);
            }
            r
        },
        None => with_path,
    }
}

/// The decimal digit character for a value below ten.
pub open spec fn decimal_digit(d: nat) -> char {
    if d == 0 {
        '0'
    } else if d == 1 {
        '1'
    } else if d == 2 {
        '2'
    } else if d == 3 {
        '3'
    } else if d == 4 {
        '4'
    } else if d == 5 {
        '5'
    } else if d == 6 {
        '6'
    } else if d == 7 {
        '7'
    } else if d == 8 {
        '8'
    } else {
        '9'
    }
}

/// The decimal rendering of a natural number, without leading zeros
/// (a single zero for the value zero).
pub open spec fn spec_decimal(n: nat) -> Seq<char>
    decreases n,
{
    if n < 10 {
        seq![decimal_digit(n)]
    } else {
        spec_decimal(n / 10).push(decimal_digit(n % 10))
    }
}

/// Append the decimal rendering of `n` to `s`.
fn push_decimal(s: &mut String, n: u32)
    ensures
        final(s)@ == old(s)@ + spec_decimal(n as nat),
    decreases n,
{
    if n >= 10 {
        push_decimal(s, n / 10);
    }
    let d: u32 = n % 10;
    let digit: &str = if d == 0 {
        "0"
    } else if d == 1 {
        "1"
    } else if d == 2 {
        "2"
    } else if d == 3 {
        "3"
    } else if d == 4 {
        "4"
    } else if d == 5 {
        "5"
    } else if d == 6 {
        "6"
    } else if d == 7 {
        "7"
    } else if d == 8 {
        "8"
    } else {
        "9"
    };
    proof {
        reveal_strlit("0");
        reveal_strlit("1");
        reveal_strlit("2");
        reveal_strlit("3");
        reveal_strlit("4");
        reveal_strlit("5");
        reveal_strlit("6");
        reveal_strlit("7");
        reveal_strlit("8");
        reveal_strlit("9");
        assert(digit@ =~= seq![decimal_digit((n % 10) as nat)]);
    }
    s.append(digit);
    proof {
        assert(s@ =~= old(s)@ + spec_decimal(n as nat));
    }
}

/// The decimal rendering of `n` as an owned string.
pub(crate) fn u32_to_string(n: u32) -> (r: String)
    ensures
        r@ == spec_decimal(n as nat),
{
    let mut r = String::new();
    push_decimal(&mut r, n);
    proof {
        assert(r@ =~= spec_decimal(n as nat));
    }
    r
}

/// Wrapper for endpoints that paginate
///
/// A Paginated<T> will be returned from any endpoint that supports paging.
/// Provides methods for fetching the next page and checking if more pages
/// are available.
#[derive(Debug)]
pub struct Paginated<T> {
    page: usize,
    per_page: usize,
    url: String,
    data: Vec<T>,
}

impl<T> Paginated<T> {
    /// The page number this wrapper was constructed with.
    pub closed spec fn spec_page(&self) -> int {
        self.page as int
    }

    /// The configured page size.
    pub closed spec fn spec_per_page(&self) -> int {
        self.per_page as int
    }

    /// The URL the page was fetched from.
    pub closed spec fn spec_url(&self) -> Seq<char> {
        self.url@
    }

    /// The items on this page.
    pub closed spec fn spec_data(&self) -> Seq<T> {
        self.data@
    }

    /// Whether this page reports itself as the last one: true exactly when
    /// the number of items differs from the configured page size.
    pub open spec fn spec_last_page(&self) -> bool {
        self.spec_data().len() != self.spec_per_page()
    }

    /// Wrap one fetched page, recording the source URL; the page number is
    /// always 1 and the page size is fixed at 30.
    pub fn new(url: String, data: Vec<T>) -> (r: Paginated<T>)
        ensures
            r.spec_page() == 1,
            r.spec_per_page() == 30,
            r.spec_url() == url@,
            r.spec_data() == data@,
    {
        Paginated { page: 1, per_page: 30, url, data }
    }

    /// Get the next page of results.
    ///
    /// Deliberately unimplemented: it always fails with `NotImplemented`
    /// rather than silently returning no data.
    pub fn fetch_next_page(&self) -> (r: Result<Paginated<T>, ApiError>)
        ensures
            r == Err::<Paginated<T>, ApiError>(ApiError::NotImplemented),
    {
        Err(ApiError::NotImplemented)
    }

    /// Check if this is the last page.
    pub fn last_page(&self) -> (r: bool)
        ensures
            r == self.spec_last_page(),
    {
        self.per_page != self.data.len()
    }
}

/// A full page is never reported as last, and any other item count always
/// is: for every wrapper built with the fixed page size of 30, the last-page
/// flag holds exactly when the item count differs from 30. (A truly final
/// page that happens to be exactly full is therefore misreported; that
/// heuristic is kept as-is.)
pub proof fn lemma_last_page_iff_count_not_30<T>(p: Paginated<T>)
    requires
        p.spec_per_page() == 30,
    ensures
        p.spec_last_page() <==> p.spec_data().len() != 30,
{
}

/// The level of detail for the current resource
///
/// Detailed contains the most data and Meta the least.
#[derive(Debug, PartialEq, Eq, Structural, Clone, Copy)]
pub enum ResourceState {
    Unknown,
    Meta,
    Summary,
    Detailed,
}

impl ResourceState {
    /// The numeric wire encoding of this detail level.
    pub open spec fn spec_code(self) -> u8 {
        match self {
            ResourceState::Unknown => 0,
            ResourceState::Meta => 1,
            ResourceState::Summary => 2,
            ResourceState::Detailed => 3,
        }
    }

    /// The detail level a numeric wire value decodes to: 1, 2 and 3 map to
    /// Meta, Summary and Detailed; any other value decodes to Unknown.
    pub open spec fn spec_from_code(code: u8) -> ResourceState {
        if code == 1 {
            ResourceState::Meta
        } else if code == 2 {
            ResourceState::Summary
        } else if code == 3 {
            ResourceState::Detailed
        } else {
            ResourceState::Unknown
        }
    }

    /// Encode this detail level as its numeric wire value.
    pub fn to_code(&self) -> (r: u8)
        ensures
            r == self.spec_code(),
    {
        match self {
            ResourceState::Unknown => 0,
            ResourceState::Meta => 1,
            ResourceState::Summary => 2,
            ResourceState::Detailed => 3,
        }
    }

    /// Decode a numeric wire value into a detail level; unrecognized values
    /// decode to Unknown.
    pub fn from_code(code: u8) -> (r: ResourceState)
        ensures
            r == ResourceState::spec_from_code(code),
    {
        if code == 1 {
            ResourceState::Meta
        } else if code == 2 {
            ResourceState::Summary
        } else if code == 3 {
            ResourceState::Detailed
        } else {
            ResourceState::Unknown
        }
    }
}

impl Default for ResourceState {
    /// The default detail level is Unknown.
    fn default() -> (r: ResourceState)
        ensures
            r == ResourceState::Unknown,
    {
        ResourceState::Unknown
    }
}

/// Every detail level round-trips through its numeric encoding.
pub proof fn lemma_resource_state_round_trip(s: ResourceState)
    ensures
        ResourceState::spec_from_code(s.spec_code()) == s,
{
}

/// Every numeric value outside the recognized encodings decodes to Unknown.
pub proof fn lemma_unrecognized_code_is_unknown(code: u8)
    requires
        code != 1,
        code != 2,
        code != 3,
    ensures
        ResourceState::spec_from_code(code) == ResourceState::Unknown,
{
}

/// A strava.com api refresh token.
///
/// You'll need to register/login at https://www.strava.com/developers to get
/// a token. This is required to get an access token.
pub struct RefreshToken {
    pub refresh_token: String,
    pub client_id: String,
    pub client_secret: String,
}

impl RefreshToken {
    /// Create a RefreshToken from the supplied strings; no validation is
    /// performed.
    pub fn new(refresh_token: String, client_id: String, client_secret: String) -> (r: RefreshToken)
        ensures
            r.refresh_token@ == refresh_token@,
            r.client_id@ == client_id@,
            r.client_secret@ == client_secret@,
    {
        RefreshToken { refresh_token, client_id, client_secret }
    }
}

/// A strava.com api access token. This is required for all requests.
#[derive(Debug)]
pub struct AccessToken {
    pub access_token: String,
    pub refresh_token: String,
}

impl AccessToken {
    /// Create an AccessToken from the supplied string, with no associated
    /// refresh token.
    pub fn new(token: String) -> (r: AccessToken)
        ensures
            r.access_token@ == token@,
            r.refresh_token@ == Seq::<char>::empty(),
    {
        AccessToken { access_token: token, refresh_token: String::new() }
    }

    /// Build an AccessToken from the result of an environment lookup: a
    /// present value becomes a token wrapping exactly that string, an absent
    /// one is the MissingCredential error.
    ///
    /// Reading the environment variable itself (STRAVA_ACCESS_TOKEN) is left
    /// to the caller, who hands its result here.
    pub fn from_env_lookup(value: Option<String>) -> (r: Result<AccessToken, ApiError>)
        ensures
            value matches Some(s) ==> (r matches Ok(t) && t.access_token@ == s@
                && t.refresh_token@ == Seq::<char>::empty()),
            value is None ==> r == Err::<AccessToken, ApiError>(ApiError::MissingCredential),
    {
        match value {
            Some(s) => Ok(AccessToken::new(s)),
            None => Err(ApiError::MissingCredential),
        }
    }

    /// Get the token underlying string
    ///
    /// This is used internally for building requests.
    pub fn get(&self) -> (r: &str)
        ensures
            r@ == self.access_token@,
    {
        self.access_token.as_str()
    }
}

} // verus!
