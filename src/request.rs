//! The query of the challenge list endpoint: filters, page, and what the
//! answer to it becomes.

use vstd::prelude::*;
use crate::challenge::{challenge_of, challenges_of, Challenge, ChallengeListResponse, ChallengeResponseData, PageInfo};
use crate::options::{Category, Difficulty, Orderings, Status, ToRequestString};
use crate::text::{decimal, owned, push_decimal};

verus! {

/// The list endpoint of the platform.
pub const CHALLENGES_URL: &'static str = "https://dreamhack.io/api/v1/wargame/challenges/";

/// Page size the server is asked for when none was set.
pub const DEFAULT_PAGE_SIZE: u64 = 20;

/// The URL that `url` makes of an absolute base URL and a list of query
/// pairs, which it appends form-urlencoded.
pub uninterp spec fn query_url(base: Seq<char>, pairs: Seq<(Seq<char>, Seq<char>)>) -> Seq<char>;

pub open spec fn pairs_view(pairs: Seq<(String, String)>) -> Seq<(Seq<char>, Seq<char>)> {
    pairs.map_values(|p: (String, String)| (p.0@, p.1@))
}

/// Relies on `reqwest::Url::parse_with_params` (the `url` crate): parses the
/// base and appends the pairs to its query. It fails only where the base is
/// not an absolute URL; the list endpoint's URL is one.
#[verifier::external_body]
fn parse_with_params(base: &str, pairs: &Vec<(String, String)>) -> (r: Option<String>)
    ensures
        r matches Some(u) ==> u@ == query_url(base@, pairs_view(pairs@)),
        base@ == CHALLENGES_URL@ ==> r is Some,
{
    reqwest::Url::parse_with_params(base, pairs.iter()).ok().map(String::from)
}

/// Filters and page of one list request; unset filters take the server's
/// defaults.
#[derive(Debug, Clone, PartialEq, Eq)]
pub struct ChallengeOptions {
    pub page: u64,
    pub search: Option<String>,
    pub ordering: Option<Orderings>,
    pub scope: Option<String>,
    pub category: Option<Category>,
    pub difficulty: Option<Difficulty>,
    pub type_value: Option<String>,
    pub status: Option<Status>,
    pub page_size: Option<u64>,
}

pub open spec fn opt_token<T: ToRequestString>(v: Option<T>, default: T) -> Seq<char> {
    match v {
        Some(x) => x.request_token(),
        None => default.request_token(),
    }
}

/// The query pairs of a request, in the order they are sent. Type and scope
/// are always sent empty.
pub open spec fn query_pairs(o: ChallengeOptions) -> Seq<(Seq<char>, Seq<char>)> {
    seq![
        ("ordering"@, opt_token(o.ordering, Orderings::Newist)),
        ("category"@, opt_token(o.category, Category::All)),
        ("status"@, opt_token(o.status, Status::All)),
        ("difficulty"@, opt_token(o.difficulty, Difficulty::All)),
        ("page"@, decimal(o.page as nat)),
        ("search"@, match o.search { Some(s) => s@, None => Seq::empty() }),
        ("type"@, Seq::empty()),
        ("scope"@, Seq::empty()),
        ("page_size"@, decimal(match o.page_size { Some(n) => n as nat, None => 20 })),
    ]
}

pub struct RequestChallengeList {
    pub options: ChallengeOptions,
}

fn decimal_string(n: u64) -> (r: String)
    ensures
        r@ == decimal(n as nat),
{
    let mut s = String::new();
    push_decimal(&mut s, n);
    assert(s@ =~= decimal(n as nat));
    s
}

fn token_or<T: ToRequestString>(v: &Option<T>, default: &T) -> (r: String)
    ensures
        r@ == match *v {
            Some(x) => x.request_token(),
            None => default.request_token(),
        },
{
    match v {
        Some(x) => x.to_request_string(),
        None => default.to_request_string(),
    }
}

impl RequestChallengeList {
    /// A request for page 1 with every filter unset.
    pub fn new() -> (r: RequestChallengeList)
        ensures
            r.options.page == 1,
            r.options.search is None,
            r.options.ordering is None,
            r.options.scope is None,
            r.options.category is None,
            r.options.difficulty is None,
            r.options.type_value is None,
            r.options.status is None,
            r.options.page_size is None,
    {
        RequestChallengeList {
            options: ChallengeOptions {
                page: 1,
                search: None,
                ordering: None,
                scope: None,
                category: None,
                difficulty: None,
                type_value: None,
                status: None,
                page_size: None,
            },
        }
    }

    pub fn set_category(&mut self, category: Category)
        ensures
            final(self).options == (ChallengeOptions { category: Some(category), ..old(self).options }),
    {
        self.options.category = Some(category);
    }

    pub fn set_difficulty(&mut self, difficulty: Difficulty)
        ensures
            final(self).options == (ChallengeOptions { difficulty: Some(difficulty), ..old(self).options }),
    {
        self.options.difficulty = Some(difficulty);
    }

    pub fn set_status(&mut self, status: Status)
        ensures
            final(self).options == (ChallengeOptions { status: Some(status), ..old(self).options }),
    {
        self.options.status = Some(status);
    }

    pub fn set_ordering(&mut self, ordering: Orderings)
        ensures
            final(self).options == (ChallengeOptions { ordering: Some(ordering), ..old(self).options }),
    {
        self.options.ordering = Some(ordering);
    }

    pub fn set_page(&mut self, page: u64)
        ensures
            final(self).options == (ChallengeOptions { page: page, ..old(self).options }),
    {
        self.options.page = page;
    }

    pub fn set_search(&mut self, search: String)
        ensures
            final(self).options == (ChallengeOptions { search: Some(search), ..old(self).options }),
    {
        self.options.search = Some(search);
    }

    pub fn set_page_size(&mut self, page_size: u64)
        ensures
            final(self).options == (ChallengeOptions { page_size: Some(page_size), ..old(self).options }),
    {
        self.options.page_size = Some(page_size);
    }

    /// The query pairs this request sends, every unset filter at its
    /// wildcard.
    pub fn query_params(&self) -> (r: Vec<(String, String)>)
        ensures
            pairs_view(r@) == query_pairs(self.options),
    {
        let o = &self.options;
        let search = match &o.search {
            Some(s) => s.clone(),
            None => String::new(),
        };
        let page_size = match o.page_size {
            Some(n) => n,
            None => DEFAULT_PAGE_SIZE,
        };
        let r = vec![
            (owned("ordering"), token_or(&o.ordering, &Orderings::Newist)),
            (owned("category"), token_or(&o.category, &Category::All)),
            (owned("status"), token_or(&o.status, &Status::All)),
            (owned("difficulty"), token_or(&o.difficulty, &Difficulty::All)),
            (owned("page"), decimal_string(o.page)),
            (owned("search"), search),
            (owned("type"), String::new()),
            (owned("scope"), String::new()),
            (owned("page_size"), decimal_string(page_size)),
        ];
        assert(pairs_view(r@) =~= query_pairs(self.options));
        r
    }

    /// The full URL of this request: the list endpoint with the query pairs
    /// appended.
    pub fn request_url(&self) -> (r: Option<String>)
        ensures
            r is Some,
            r->0@ == query_url(CHALLENGES_URL@, query_pairs(self.options)),
    {
        let pairs = self.query_params();
        parse_with_params(CHALLENGES_URL, &pairs)
    }

    /// What an answer to this request becomes: its challenges, in order, and
    /// a page cursor at the requested page index with the server's counts and
    /// cursors.
    pub fn handle_response(&self, response: ChallengeListResponse) -> (r: (Vec<Challenge>, PageInfo))
        ensures
            r.0@ == response.results@.map_values(|d: ChallengeResponseData| challenge_of(d)),
            r.1 == (PageInfo {
                page_index: self.options.page,
                count: response.count,
                page_size: response.page_size,
                next: response.next,
                previous: response.previous,
            }),
    {
        let page_info = PageInfo::new(
            self.options.page,
            response.count,
            response.page_size,
            response.next,
            response.previous,
        );
        (challenges_of(response.results), page_info)
    }
}

} // verus!
