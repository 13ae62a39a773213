use creamhack::challenge::{
    Author, AuthorWargameCategory, CategoryInfo, Challenge, ChallengeListResponse,
    ChallengeResponseData, Contributions, HitCount, PageInfo, Wargame,
};
use creamhack::options::{Category, Difficulty, Orderings, Status};
use creamhack::request::RequestChallengeList;

fn rank() -> AuthorWargameCategory {
    AuthorWargameCategory { score: 0, rank: 0 }
}

fn record(id: u64, difficulty: u64, title: &str) -> ChallengeResponseData {
    ChallengeResponseData {
        id,
        hit_count: HitCount { hits: 12 },
        exported_from: None,
        cnt_solvers: 3,
        cnt_writeups: 0,
        cnt_vote: 0,
        cnt_questions: 0,
        cnt_comments: 0,
        is_completed: true,
        is_attempted: true,
        is_difficulty_voted: false,
        difficulty_display: String::new(),
        partners: Vec::new(),
        has_author_writeup: false,
        tags: vec!["web".to_string()],
        author: Author {
            id: 1,
            nickname: "alice".to_string(),
            profile_image: None,
            is_staff: false,
            representative: None,
            introduction: None,
            country: None,
            ctf: None,
            wargame: Wargame {
                rank: 1,
                score: 2,
                category: CategoryInfo { pwnable: rank(), reversing: rank(), web: rank(), crypto: rank() },
                last_solved_at: None,
            },
            contributions: Contributions {
                level: 1,
                exp: 0,
                total_exp: 0,
                exp_needed: 0,
                updated_at: String::new(),
                rank: 0,
                totals: 0,
            },
        },
        repository: "repo_t".to_string(),
        title: title.to_string(),
        description: "desc".to_string(),
        public: "https://example.com/t.zip".to_string(),
        public_expires: String::new(),
        needs_vm: true,
        deployed: String::new(),
        difficulty,
        official: false,
        is_beginner: false,
        is_public: true,
        is_featured: false,
        created_at: String::new(),
        public_at: String::new(),
    }
}

#[test]
fn list_page_one_without_filters() {
    let request = RequestChallengeList::new();
    let response = ChallengeListResponse {
        count: 1,
        page_size: 20,
        next: None,
        previous: None,
        results: vec![record(7, 3, "T")],
    };
    let (challenges, page) = request.handle_response(response);
    assert_eq!(challenges.len(), 1);
    assert_eq!(challenges[0].get_id(), 7);
    assert_eq!(challenges[0].get_info().get_title(), "T");
    assert_eq!(challenges[0].get_info().get_difficulty().to_string(), "LEVEL 3");
    assert!(!page.has_next());
    assert!(!page.has_previous());
    assert_eq!(page.get_page_idx(), 1);
    assert_eq!(page.get_count(), 1);
    assert_eq!(page.get_page_size(), 20);
}

#[test]
fn challenge_keeps_fields() {
    let c = Challenge::from_response(record(9, 0, "Name"));
    assert_eq!(c.get_info().get_author(), "alice");
    assert_eq!(c.get_info().get_description(), "desc");
    assert_eq!(c.get_info().get_tags(), &vec!["web".to_string()]);
    assert_eq!(c.get_info().get_difficulty(), Difficulty::Unranked);
    assert_eq!(c.get_metadata().get_repository(), "repo_t");
    assert_eq!(c.get_metadata().get_public(), "https://example.com/t.zip");
    assert!(c.get_metadata().get_flags().is_completed);
    assert!(c.get_metadata().get_flags().needs_vm);
    assert_eq!(c.live_url(), "https://dreamhack.io/api/v1/wargame/challenges/9/live/");
    assert_eq!(c.submit_url(), "https://dreamhack.io/api/v1/wargame/challenges/9/auth");
}

#[test]
fn page_response_keeps_order_and_request_page() {
    let mut request = RequestChallengeList::new();
    request.set_page(4);
    let response = ChallengeListResponse {
        count: 90,
        page_size: 20,
        next: Some("n".to_string()),
        previous: Some("p".to_string()),
        results: vec![record(1, 1, "a"), record(2, 2, "b"), record(3, 11, "c")],
    };
    let (challenges, page) = request.handle_response(response);
    let ids: Vec<u64> = challenges.iter().map(|c| c.get_id()).collect();
    assert_eq!(ids, vec![1, 2, 3]);
    assert_eq!(challenges[2].get_info().get_difficulty(), Difficulty::All);
    assert_eq!(page.get_page_idx(), 4);
    assert_eq!(page.get_next(), &Some("n".to_string()));
    assert_eq!(page.get_previous(), &Some("p".to_string()));
}

#[test]
fn next_page_moves_only_with_next() {
    let mut p = PageInfo::new(1, 50, 20, None, None);
    p.next_page();
    assert_eq!(p.get_page_idx(), 1);
    let mut q = PageInfo::new(1, 50, 20, Some("x".to_string()), None);
    q.next_page();
    assert_eq!(q.get_page_idx(), 2);
}

#[test]
fn previous_page_floor() {
    let mut p = PageInfo::new(3, 50, 20, None, Some("x".to_string()));
    p.previous_page();
    assert_eq!(p.get_page_idx(), 2);
    p.previous_page();
    assert_eq!(p.get_page_idx(), 1);
    p.previous_page();
    p.previous_page();
    assert_eq!(p.get_page_idx(), 1);
    let mut q = PageInfo::new(3, 50, 20, None, None);
    q.previous_page();
    assert_eq!(q.get_page_idx(), 3);
}

#[test]
fn default_query() {
    let request = RequestChallengeList::new();
    let params = request.query_params();
    let expected: Vec<(String, String)> = [
        ("ordering", ""),
        ("category", ""),
        ("status", ""),
        ("difficulty", ""),
        ("page", "1"),
        ("search", ""),
        ("type", ""),
        ("scope", ""),
        ("page_size", "20"),
    ]
    .iter()
    .map(|(k, v)| (k.to_string(), v.to_string()))
    .collect();
    assert_eq!(params, expected);
    assert_eq!(
        request.request_url(),
        Some(
            "https://dreamhack.io/api/v1/wargame/challenges/?ordering=&category=&status=&difficulty=&page=1&search=&type=&scope=&page_size=20"
                .to_string()
        )
    );
}

#[test]
fn filtered_query() {
    let mut request = RequestChallengeList::new();
    request.set_category(Category::Web);
    request.set_difficulty(Difficulty::LEVEL3);
    request.set_status(Status::Solved);
    request.set_ordering(Orderings::MostSolved);
    request.set_search("sql injection".to_string());
    request.set_page(12);
    request.set_page_size(50);
    assert_eq!(
        request.request_url(),
        Some(
            "https://dreamhack.io/api/v1/wargame/challenges/?ordering=-cnt_solvers&category=web&status=solved&difficulty=3&page=12&search=sql+injection&type=&scope=&page_size=50"
                .to_string()
        )
    );
}
