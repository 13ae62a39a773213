//! The challenge model: wire records as the list endpoint sends them, the
//! display-oriented `Challenge` built from them, and the page cursor.

use vstd::prelude::*;
use crate::options::{difficulty_from_level, Difficulty};
use crate::text::{decimal, owned, push_decimal, push_str};

verus! {

/// `serde_json::Value`, carried unread in a few fields of the wire records.
#[verifier::external_type_specification]
#[verifier::external_body]
pub struct ExJsonValue(serde_json::Value);

/// Position within a paginated list, as the server reported it.
#[derive(Debug, Clone, PartialEq, Eq)]
pub struct PageInfo {
    pub page_index: u64,
    pub count: u32,
    pub page_size: u32,
    pub next: Option<String>,
    pub previous: Option<String>,
}

impl PageInfo {
    pub fn new(
        page_index: u64,
        count: u32,
        page_size: u32,
        next: Option<String>,
        previous: Option<String>,
    ) -> (r: PageInfo)
        ensures
            r.page_index == page_index,
            r.count == count,
            r.page_size == page_size,
            r.next == next,
            r.previous == previous,
    {
        PageInfo { page_index, count, page_size, next, previous }
    }

    /// The state before any list has been fetched.
    pub fn empty() -> (r: PageInfo)
        ensures
            r.page_index == 0,
            r.count == 0,
            r.page_size == 0,
            r.next is None,
            r.previous is None,
    {
        PageInfo { page_index: 0, count: 0, page_size: 0, next: None, previous: None }
    }

    pub fn get_count(&self) -> (r: u32)
        ensures
            r == self.count,
    {
        self.count
    }

    pub fn get_page_size(&self) -> (r: u32)
        ensures
            r == self.page_size,
    {
        self.page_size
    }

    pub fn get_next(&self) -> (r: &Option<String>)
        ensures
            *r == self.next,
    {
        &self.next
    }

    pub fn get_previous(&self) -> (r: &Option<String>)
        ensures
            *r == self.previous,
    {
        &self.previous
    }

    pub fn has_next(&self) -> (r: bool)
        ensures
            r == self.next is Some,
    {
        self.next.is_some()
    }

    pub fn has_previous(&self) -> (r: bool)
        ensures
            r == self.previous is Some,
    {
        self.previous.is_some()
    }

    pub fn get_page_idx(&self) -> (r: u64)
        ensures
            r == self.page_index,
    {
        self.page_index
    }

    /// Moves to the following page when the server reported one.
    pub fn next_page(&mut self)
        requires
            old(self).next is Some ==> old(self).page_index < u64::MAX,
        ensures
            *final(self) == next_page_spec(*old(self)),
    {
        if self.has_next() {
            self.page_index = self.page_index + 1;
        }
    }

    /// Moves to the preceding page when the server reported one; the index
    /// never goes below 1.
    pub fn previous_page(&mut self)
        ensures
            *final(self) == previous_page_spec(*old(self)),
    {
        if self.has_previous() && self.page_index > 1 {
            self.page_index = self.page_index - 1;
        }
    }
}

/// The page after `p`: one more when the server reported a next page.
pub open spec fn next_page_spec(p: PageInfo) -> PageInfo {
    if p.next is Some {
        PageInfo { page_index: (p.page_index + 1) as u64, ..p }
    } else {
        p
    }
}

/// The page before `p`: one less when the server reported a previous page
/// and `p` is past page 1.
pub open spec fn previous_page_spec(p: PageInfo) -> PageInfo {
    if p.previous is Some && p.page_index > 1 {
        PageInfo { page_index: (p.page_index - 1) as u64, ..p }
    } else {
        p
    }
}

/// `n` steps back from `p`.
pub open spec fn previous_pages(p: PageInfo, n: nat) -> PageInfo
    decreases n,
{
    if n == 0 {
        p
    } else {
        previous_page_spec(previous_pages(p, (n - 1) as nat))
    }
}

/// Moving forward is a no-op without a next cursor and a single step with
/// one; moving back likewise with the previous cursor, and any number of
/// steps back from page 1 or later stays at page 1 or later.
pub proof fn lemma_page_moves(p: PageInfo, n: nat)
    requires
        p.page_index < u64::MAX,
    ensures
        p.next is None ==> next_page_spec(p) == p,
        p.next is Some ==> next_page_spec(p).page_index == p.page_index + 1,
        p.previous is None ==> previous_page_spec(p) == p,
        p.previous is Some && p.page_index > 1 ==> previous_page_spec(p).page_index == p.page_index - 1,
        p.page_index >= 1 ==> previous_pages(p, n).page_index >= 1,
    decreases n,
{
    if n > 0 {
        lemma_page_moves(p, (n - 1) as nat);
    }
}

#[derive(Debug, Clone, PartialEq, Eq)]
pub struct ChallengeInfo {
    pub title: String,
    pub description: String,
    pub difficulty: u64,
    pub author: String,
    pub tags: Vec<String>,
}

#[derive(Debug, Clone, PartialEq, Eq)]
pub struct ChallengeMetadata {
    pub repository: String,
    pub public: String,
    pub flags: Flags,
}

#[derive(Debug, Clone, Copy, PartialEq, Eq)]
pub struct Flags {
    pub is_completed: bool,
    pub is_attempted: bool,
    pub is_difficulty_voted: bool,
    pub is_beginner: bool,
    pub is_public: bool,
    pub is_featured: bool,
    pub has_author_writeup: bool,
    pub needs_vm: bool,
    pub official: bool,
}

#[derive(Debug, Clone, PartialEq, Eq)]
pub struct Challenge {
    pub id: u64,
    pub info: ChallengeInfo,
    pub metadata: ChallengeMetadata,
}

impl Challenge {
    pub fn get_id(&self) -> (r: u64)
        ensures
            r == self.id,
    {
        self.id
    }

    pub fn get_info(&self) -> (r: &ChallengeInfo)
        ensures
            *r == self.info,
    {
        &self.info
    }

    pub fn get_metadata(&self) -> (r: &ChallengeMetadata)
        ensures
            *r == self.metadata,
    {
        &self.metadata
    }

    /// `https://dreamhack.io/api/v1/wargame/challenges/<id>/live/`: posting
    /// to it creates the challenge's machine, getting it describes the machine.
    pub open spec fn live_url_spec(&self) -> Seq<char> {
        "https://dreamhack.io/api/v1/wargame/challenges/"@ + decimal(self.id as nat) + "/live/"@
    }

    /// `https://dreamhack.io/api/v1/wargame/challenges/<id>/auth`, where
    /// flags are submitted.
    pub open spec fn submit_url_spec(&self) -> Seq<char> {
        "https://dreamhack.io/api/v1/wargame/challenges/"@ + decimal(self.id as nat) + "/auth"@
    }

    pub fn live_url(&self) -> (r: String)
        ensures
            r@ == self.live_url_spec(),
    {
        let mut r = owned("https://dreamhack.io/api/v1/wargame/challenges/");
        push_decimal(&mut r, self.id);
        push_str(&mut r, "/live/");
        r
    }

    pub fn submit_url(&self) -> (r: String)
        ensures
            r@ == self.submit_url_spec(),
    {
        let mut r = owned("https://dreamhack.io/api/v1/wargame/challenges/");
        push_decimal(&mut r, self.id);
        push_str(&mut r, "/auth");
        r
    }
}

impl ChallengeInfo {
    pub fn get_title(&self) -> (r: &str)
        ensures
            r@ == self.title@,
    {
        self.title.as_str()
    }

    pub fn get_description(&self) -> (r: &str)
        ensures
            r@ == self.description@,
    {
        self.description.as_str()
    }

    /// The named level of the raw difficulty number.
    pub fn get_difficulty(&self) -> (r: Difficulty)
        ensures
            r == difficulty_from_level(self.difficulty as int),
    {
        Difficulty::from_level(self.difficulty)
    }

    pub fn get_author(&self) -> (r: &str)
        ensures
            r@ == self.author@,
    {
        self.author.as_str()
    }

    pub fn get_tags(&self) -> (r: &Vec<String>)
        ensures
            *r == self.tags,
    {
        &self.tags
    }
}

impl ChallengeMetadata {
    /// Name of the challenge's repository, used to name downloaded files.
    pub fn get_repository(&self) -> (r: &str)
        ensures
            r@ == self.repository@,
    {
        self.repository.as_str()
    }

    /// Download URL of the challenge's archive.
    pub fn get_public(&self) -> (r: &str)
        ensures
            r@ == self.public@,
    {
        self.public.as_str()
    }

    pub fn get_flags(&self) -> (r: Flags)
        ensures
            r == self.flags,
    {
        self.flags
    }
}

#[derive(Debug)]
pub struct HitCount {
    pub hits: u64,
}

#[derive(Debug)]
pub struct AuthorWargameCategory {
    pub score: u64,
    pub rank: u64,
}

#[derive(Debug)]
pub struct CategoryInfo {
    pub pwnable: AuthorWargameCategory,
    pub reversing: AuthorWargameCategory,
    pub web: AuthorWargameCategory,
    pub crypto: AuthorWargameCategory,
}

#[derive(Debug)]
pub struct Wargame {
    pub rank: u64,
    pub score: u64,
    pub category: CategoryInfo,
    pub last_solved_at: Option<serde_json::Value>,
}

#[derive(Debug)]
pub struct Contributions {
    pub level: u64,
    pub exp: u64,
    pub total_exp: u64,
    pub exp_needed: u64,
    pub updated_at: String,
    pub rank: u64,
    pub totals: u64,
}

#[derive(Debug)]
pub struct Author {
    pub id: u64,
    pub nickname: String,
    pub profile_image: Option<String>,
    pub is_staff: bool,
    pub representative: Option<serde_json::Value>,
    pub introduction: Option<String>,
    pub country: Option<String>,
    pub ctf: Option<serde_json::Value>,
    pub wargame: Wargame,
    pub contributions: Contributions,
}

/// One challenge as the list endpoint sends it.
#[derive(Debug)]
pub struct ChallengeResponseData {
    pub id: u64,
    pub hit_count: HitCount,
    pub exported_from: Option<serde_json::Value>,
    pub cnt_solvers: u64,
    pub cnt_writeups: u64,
    pub cnt_vote: u64,
    pub cnt_questions: u64,
    pub cnt_comments: u64,
    pub is_completed: bool,
    pub is_attempted: bool,
    pub is_difficulty_voted: bool,
    pub difficulty_display: String,
    pub partners: Vec<Option<serde_json::Value>>,
    pub has_author_writeup: bool,
    pub tags: Vec<String>,
    pub author: Author,
    pub repository: String,
    pub title: String,
    pub description: String,
    pub public: String,
    pub public_expires: String,
    pub needs_vm: bool,
    pub deployed: String,
    pub difficulty: u64,
    pub official: bool,
    pub is_beginner: bool,
    pub is_public: bool,
    pub is_featured: bool,
    pub created_at: String,
    pub public_at: String,
}

/// One page of the challenge list as the endpoint sends it.
#[derive(Debug)]
pub struct ChallengeListResponse {
    pub count: u32,
    pub page_size: u32,
    pub next: Option<String>,
    pub previous: Option<String>,
    pub results: Vec<ChallengeResponseData>,
}

/// The challenge a wire record describes: its identity, display fields,
/// author's nickname, file data and the nine flags; counters are dropped.
pub open spec fn challenge_of(d: ChallengeResponseData) -> Challenge {
    Challenge {
        id: d.id,
        info: ChallengeInfo {
            title: d.title,
            description: d.description,
            difficulty: d.difficulty,
            author: d.author.nickname,
            tags: d.tags,
        },
        metadata: ChallengeMetadata {
            repository: d.repository,
            public: d.public,
            flags: Flags {
                is_completed: d.is_completed,
                is_attempted: d.is_attempted,
                is_difficulty_voted: d.is_difficulty_voted,
                is_beginner: d.is_beginner,
                is_public: d.is_public,
                is_featured: d.is_featured,
                has_author_writeup: d.has_author_writeup,
                needs_vm: d.needs_vm,
                official: d.official,
            },
        },
    }
}

impl Challenge {
    /// Builds the challenge that a wire record describes.
    pub fn from_response(challenge: ChallengeResponseData) -> (r: Challenge)
        ensures
            r == challenge_of(challenge),
    {
        Challenge {
            id: challenge.id,
            info: ChallengeInfo {
                title: challenge.title,
                description: challenge.description,
                difficulty: challenge.difficulty,
                author: challenge.author.nickname,
                tags: challenge.tags,
            },
            metadata: ChallengeMetadata {
                repository: challenge.repository,
                public: challenge.public,
                flags: Flags {
                    is_completed: challenge.is_completed,
                    is_attempted: challenge.is_attempted,
                    is_difficulty_voted: challenge.is_difficulty_voted,
                    is_beginner: challenge.is_beginner,
                    is_public: challenge.is_public,
                    is_featured: challenge.is_featured,
                    has_author_writeup: challenge.has_author_writeup,
                    needs_vm: challenge.needs_vm,
                    official: challenge.official,
                },
            },
        }
    }
}

impl From<ChallengeResponseData> for Challenge {
    fn from(challenge: ChallengeResponseData) -> (r: Challenge) {
        Challenge::from_response(challenge)
    }
}

impl vstd::std_specs::convert::FromSpecImpl<ChallengeResponseData> for Challenge {
    open spec fn obeys_from_spec() -> bool {
        true
    }

    open spec fn from_spec(v: ChallengeResponseData) -> Challenge {
        challenge_of(v)
    }
}

/// Maps every wire record of a page to its challenge, keeping their order.
pub fn challenges_of(results: Vec<ChallengeResponseData>) -> (r: Vec<Challenge>)
    ensures
        r@ == results@.map_values(|d: ChallengeResponseData| challenge_of(d)),
{
    let ghost orig = results@;
    let mut rest = results;
    let mut out: Vec<Challenge> = Vec::new();
    while rest.len() > 0
        invariant
            out@.len() + rest@.len() == orig.len(),
            rest@ == orig.subrange(out@.len() as int, orig.len() as int),
            out@ == orig.subrange(0, out@.len() as int).map_values(|d: ChallengeResponseData| challenge_of(d)),
        decreases rest@.len(),
    {
        let ghost k: int = out@.len() as int;
        let d = rest.remove(0);
        out.push(Challenge::from_response(d));
        assert(orig.subrange(0, k + 1).map_values(|d: ChallengeResponseData| challenge_of(d))
            =~= orig.subrange(0, k).map_values(|d: ChallengeResponseData| challenge_of(d)).push(challenge_of(orig[k])));
        assert(rest@ =~= orig.subrange(k + 1, orig.len() as int));
    }
    assert(orig.subrange(0, orig.len() as int) =~= orig);
    out
}

} // verus!
