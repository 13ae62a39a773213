//! Filter options of the challenge list: category, difficulty, status and
//! ordering. Each has an ordered list of selectable variants, a mapping from a
//! popup index to a variant, and the token the remote API expects.

use vstd::prelude::*;
use crate::text::owned;

verus! {

/// A filter whose values are offered in a popup list.
pub trait PopupItem: Sized {
    /// The values in popup order.
    spec fn item_list() -> Seq<Self>;

    /// The value for a popup index; an index past the list gives the
    /// filter's default.
    spec fn item_at(index: int) -> Self;

    /// The display name of a value.
    spec fn item_name(&self) -> Seq<char>;

    fn variants() -> (r: Vec<Self>)
        ensures
            r@ == Self::item_list(),
    ;

    fn from_index(index: usize) -> (r: Self)
        ensures
            r == Self::item_at(index as int),
    ;

    fn name(&self) -> (r: String)
        ensures
            r@ == self.item_name(),
    ;
}

/// Serialisation of a filter value into the query-string token of the API.
pub trait ToRequestString {
    /// The token, as characters.
    spec fn request_token(&self) -> Seq<char>;

    fn to_request_string(&self) -> (r: String)
        ensures
            r@ == self.request_token(),
    ;
}

#[derive(Debug, Clone, Copy, PartialEq, Eq, Structural)]
pub enum Difficulty {
    All,
    Unranked,
    Beginner,
    LEVEL1,
    LEVEL2,
    LEVEL3,
    LEVEL4,
    LEVEL5,
    LEVEL6,
    LEVEL7,
    LEVEL8,
    LEVEL9,
    LEVEL10,
}

/// The selectable difficulties, in popup order; the wildcard comes first.
pub open spec fn difficulty_variants() -> Seq<Difficulty> {
    seq![
        Difficulty::All,
        Difficulty::LEVEL1,
        Difficulty::LEVEL2,
        Difficulty::LEVEL3,
        Difficulty::LEVEL4,
        Difficulty::LEVEL5,
        Difficulty::LEVEL6,
        Difficulty::LEVEL7,
        Difficulty::LEVEL8,
        Difficulty::LEVEL9,
        Difficulty::LEVEL10,
    ]
}

/// The difficulty for a popup index; out-of-range indices give the wildcard.
pub open spec fn difficulty_from_index(i: int) -> Difficulty {
    if 0 <= i < difficulty_variants().len() {
        difficulty_variants()[i]
    } else {
        Difficulty::All
    }
}

/// The difficulty for a numeric level reported by the server (0 to 10).
pub open spec fn difficulty_from_level(n: int) -> Difficulty {
    if n == 0 {
        Difficulty::Unranked
    } else if 1 <= n <= 10 {
        difficulty_variants()[n]
    } else {
        Difficulty::All
    }
}

impl Difficulty {
    /// Position of `self` in the popup order, or -1 for the variants that
    /// are not offered there (`Unranked`, `Beginner`).
    pub open spec fn index_of(self) -> int {
        match self {
            Difficulty::All => 0,
            Difficulty::LEVEL1 => 1,
            Difficulty::LEVEL2 => 2,
            Difficulty::LEVEL3 => 3,
            Difficulty::LEVEL4 => 4,
            Difficulty::LEVEL5 => 5,
            Difficulty::LEVEL6 => 6,
            Difficulty::LEVEL7 => 7,
            Difficulty::LEVEL8 => 8,
            Difficulty::LEVEL9 => 9,
            Difficulty::LEVEL10 => 10,
            Difficulty::Unranked => -1,
            Difficulty::Beginner => -1,
        }
    }

    /// The numeric level sent to the server; none for the wildcard.
    pub open spec fn level_spec(self) -> Option<u64> {
        match self {
            Difficulty::All => None,
            Difficulty::Unranked => Some(0),
            Difficulty::Beginner => Some(1),
            Difficulty::LEVEL1 => Some(1),
            Difficulty::LEVEL2 => Some(2),
            Difficulty::LEVEL3 => Some(3),
            Difficulty::LEVEL4 => Some(4),
            Difficulty::LEVEL5 => Some(5),
            Difficulty::LEVEL6 => Some(6),
            Difficulty::LEVEL7 => Some(7),
            Difficulty::LEVEL8 => Some(8),
            Difficulty::LEVEL9 => Some(9),
            Difficulty::LEVEL10 => Some(10),
        }
    }

    /// The display name of the level.
    pub open spec fn name_spec(self) -> Seq<char> {
        match self {
            Difficulty::All => "All"@,
            Difficulty::Unranked => "Unranked"@,
            Difficulty::Beginner => "Beginner"@,
            Difficulty::LEVEL1 => "LEVEL 1"@,
            Difficulty::LEVEL2 => "LEVEL 2"@,
            Difficulty::LEVEL3 => "LEVEL 3"@,
            Difficulty::LEVEL4 => "LEVEL 4"@,
            Difficulty::LEVEL5 => "LEVEL 5"@,
            Difficulty::LEVEL6 => "LEVEL 6"@,
            Difficulty::LEVEL7 => "LEVEL 7"@,
            Difficulty::LEVEL8 => "LEVEL 8"@,
            Difficulty::LEVEL9 => "LEVEL 9"@,
            Difficulty::LEVEL10 => "LEVEL 10"@,
        }
    }

    /// The display colour of the level, as a `#rrggbb` string.
    pub open spec fn color_spec(self) -> Seq<char> {
        match self {
            Difficulty::All => "#696969"@,
            Difficulty::Unranked => "#696969"@,
            Difficulty::Beginner => "#7FFF00"@,
            Difficulty::LEVEL1 => "#58d68d"@,
            Difficulty::LEVEL2 => "#2ecc71"@,
            Difficulty::LEVEL3 => "#28b463"@,
            Difficulty::LEVEL4 => "#5dade2"@,
            Difficulty::LEVEL5 => "#3498db"@,
            Difficulty::LEVEL6 => "#2e86c1"@,
            Difficulty::LEVEL7 => "#0000CD"@,
            Difficulty::LEVEL8 => "#00008B"@,
            Difficulty::LEVEL9 => "#FF0000"@,
            Difficulty::LEVEL10 => "#DC143C"@,
        }
    }

    pub fn variants() -> (r: Vec<Difficulty>)
        ensures
            r@ == difficulty_variants(),
    {
        let r = vec![
            Difficulty::All,
            Difficulty::LEVEL1,
            Difficulty::LEVEL2,
            Difficulty::LEVEL3,
            Difficulty::LEVEL4,
            Difficulty::LEVEL5,
            Difficulty::LEVEL6,
            Difficulty::LEVEL7,
            Difficulty::LEVEL8,
            Difficulty::LEVEL9,
            Difficulty::LEVEL10,
        ];
        assert(r@ =~= difficulty_variants());
        r
    }

    pub fn from_index(index: usize) -> (r: Difficulty)
        ensures
            r == difficulty_from_index(index as int),
    {
        match index {
            0 => Difficulty::All,
            1 => Difficulty::LEVEL1,
            2 => Difficulty::LEVEL2,
            3 => Difficulty::LEVEL3,
            4 => Difficulty::LEVEL4,
            5 => Difficulty::LEVEL5,
            6 => Difficulty::LEVEL6,
            7 => Difficulty::LEVEL7,
            8 => Difficulty::LEVEL8,
            9 => Difficulty::LEVEL9,
            10 => Difficulty::LEVEL10,
            _ => Difficulty::All,
        }
    }

    /// The difficulty for a level reported by the server.
    pub fn from_level(level: u64) -> (r: Difficulty)
        ensures
            r == difficulty_from_level(level as int),
    {
        match level {
            0 => Difficulty::Unranked,
            1 => Difficulty::LEVEL1,
            2 => Difficulty::LEVEL2,
            3 => Difficulty::LEVEL3,
            4 => Difficulty::LEVEL4,
            5 => Difficulty::LEVEL5,
            6 => Difficulty::LEVEL6,
            7 => Difficulty::LEVEL7,
            8 => Difficulty::LEVEL8,
            9 => Difficulty::LEVEL9,
            10 => Difficulty::LEVEL10,
            _ => Difficulty::All,
        }
    }

    /// The level sent to the server for this difficulty.
    pub fn level(&self) -> (r: Option<u64>)
        ensures
            r == self.level_spec(),
    {
        match self {
            Difficulty::All => None,
            Difficulty::Unranked => Some(0),
            Difficulty::Beginner => Some(1),
            Difficulty::LEVEL1 => Some(1),
            Difficulty::LEVEL2 => Some(2),
            Difficulty::LEVEL3 => Some(3),
            Difficulty::LEVEL4 => Some(4),
            Difficulty::LEVEL5 => Some(5),
            Difficulty::LEVEL6 => Some(6),
            Difficulty::LEVEL7 => Some(7),
            Difficulty::LEVEL8 => Some(8),
            Difficulty::LEVEL9 => Some(9),
            Difficulty::LEVEL10 => Some(10),
        }
    }

    pub fn to_string(&self) -> (r: String)
        ensures
            r@ == self.name_spec(),
    {
        match self {
            Difficulty::All => owned("All"),
            Difficulty::Unranked => owned("Unranked"),
            Difficulty::Beginner => owned("Beginner"),
            Difficulty::LEVEL1 => owned("LEVEL 1"),
            Difficulty::LEVEL2 => owned("LEVEL 2"),
            Difficulty::LEVEL3 => owned("LEVEL 3"),
            Difficulty::LEVEL4 => owned("LEVEL 4"),
            Difficulty::LEVEL5 => owned("LEVEL 5"),
            Difficulty::LEVEL6 => owned("LEVEL 6"),
            Difficulty::LEVEL7 => owned("LEVEL 7"),
            Difficulty::LEVEL8 => owned("LEVEL 8"),
            Difficulty::LEVEL9 => owned("LEVEL 9"),
            Difficulty::LEVEL10 => owned("LEVEL 10"),
        }
    }

    /// The display colour of the level, as a `#rrggbb` string.
    pub fn color(&self) -> (r: String)
        ensures
            r@ == self.color_spec(),
    {
        match self {
            Difficulty::All => owned("#696969"),
            Difficulty::Unranked => owned("#696969"),
            Difficulty::Beginner => owned("#7FFF00"),
            Difficulty::LEVEL1 => owned("#58d68d"),
            Difficulty::LEVEL2 => owned("#2ecc71"),
            Difficulty::LEVEL3 => owned("#28b463"),
            Difficulty::LEVEL4 => owned("#5dade2"),
            Difficulty::LEVEL5 => owned("#3498db"),
            Difficulty::LEVEL6 => owned("#2e86c1"),
            Difficulty::LEVEL7 => owned("#0000CD"),
            Difficulty::LEVEL8 => owned("#00008B"),
            Difficulty::LEVEL9 => owned("#FF0000"),
            Difficulty::LEVEL10 => owned("#DC143C"),
        }
    }
}

impl From<u64> for Difficulty {
    fn from(value: u64) -> (r: Difficulty) {
        Difficulty::from_level(value)
    }
}

impl vstd::std_specs::convert::FromSpecImpl<u64> for Difficulty {
    open spec fn obeys_from_spec() -> bool {
        true
    }

    open spec fn from_spec(v: u64) -> Difficulty {
        difficulty_from_level(v as int)
    }
}

impl From<Difficulty> for Option<u64> {
    fn from(value: Difficulty) -> (r: Option<u64>) {
        value.level()
    }
}

impl vstd::std_specs::convert::FromSpecImpl<Difficulty> for Option<u64> {
    open spec fn obeys_from_spec() -> bool {
        true
    }

    open spec fn from_spec(v: Difficulty) -> Option<u64> {
        v.level_spec()
    }
}

impl ToRequestString for Difficulty {
    open spec fn request_token(&self) -> Seq<char> {
        match *self {
            Difficulty::All => ""@,
            Difficulty::Unranked => "0"@,
            Difficulty::Beginner => "1"@,
            Difficulty::LEVEL1 => "1"@,
            Difficulty::LEVEL2 => "2"@,
            Difficulty::LEVEL3 => "3"@,
            Difficulty::LEVEL4 => "4"@,
            Difficulty::LEVEL5 => "5"@,
            Difficulty::LEVEL6 => "6"@,
            Difficulty::LEVEL7 => "7"@,
            Difficulty::LEVEL8 => "8"@,
            Difficulty::LEVEL9 => "9"@,
            Difficulty::LEVEL10 => "10"@,
        }
    }

    fn to_request_string(&self) -> (r: String) {
        match self {
            Difficulty::All => owned(""),
            Difficulty::Unranked => owned("0"),
            Difficulty::Beginner => owned("1"),
            Difficulty::LEVEL1 => owned("1"),
            Difficulty::LEVEL2 => owned("2"),
            Difficulty::LEVEL3 => owned("3"),
            Difficulty::LEVEL4 => owned("4"),
            Difficulty::LEVEL5 => owned("5"),
            Difficulty::LEVEL6 => owned("6"),
            Difficulty::LEVEL7 => owned("7"),
            Difficulty::LEVEL8 => owned("8"),
            Difficulty::LEVEL9 => owned("9"),
            Difficulty::LEVEL10 => owned("10"),
        }
    }
}

#[derive(Debug, Clone, Copy, PartialEq, Eq, Structural)]
pub enum Category {
    All,
    Pwnable,
    Reversing,
    Web,
    Crypto,
}

/// The selectable categories, in popup order; the wildcard comes first.
pub open spec fn category_variants() -> Seq<Category> {
    seq![Category::All, Category::Pwnable, Category::Reversing, Category::Web, Category::Crypto]
}

pub open spec fn category_from_index(i: int) -> Category {
    if 0 <= i < category_variants().len() {
        category_variants()[i]
    } else {
        Category::All
    }
}

impl Category {
    /// Position of `self` in the popup order.
    pub open spec fn index_of(self) -> int {
        match self {
            Category::All => 0,
            Category::Pwnable => 1,
            Category::Reversing => 2,
            Category::Web => 3,
            Category::Crypto => 4,
        }
    }

    pub open spec fn name_spec(self) -> Seq<char> {
        match self {
            Category::All => "All"@,
            Category::Pwnable => "Pwnable"@,
            Category::Reversing => "Reversing"@,
            Category::Web => "Web"@,
            Category::Crypto => "Crypto"@,
        }
    }

    pub fn variants() -> (r: Vec<Category>)
        ensures
            r@ == category_variants(),
    {
        let r = vec![Category::All, Category::Pwnable, Category::Reversing, Category::Web, Category::Crypto];
        assert(r@ =~= category_variants());
        r
    }

    pub fn from_index(index: usize) -> (r: Category)
        ensures
            r == category_from_index(index as int),
    {
        match index {
            0 => Category::All,
            1 => Category::Pwnable,
            2 => Category::Reversing,
            3 => Category::Web,
            4 => Category::Crypto,
            _ => Category::All,
        }
    }

    pub fn to_string(&self) -> (r: String)
        ensures
            r@ == self.name_spec(),
    {
        match self {
            Category::All => owned("All"),
            Category::Pwnable => owned("Pwnable"),
            Category::Reversing => owned("Reversing"),
            Category::Web => owned("Web"),
            Category::Crypto => owned("Crypto"),
        }
    }
}

impl ToRequestString for Category {
    open spec fn request_token(&self) -> Seq<char> {
        match *self {
            Category::All => ""@,
            Category::Pwnable => "pwnable"@,
            Category::Reversing => "reversing"@,
            Category::Web => "web"@,
            Category::Crypto => "crypto"@,
        }
    }

    fn to_request_string(&self) -> (r: String) {
        match self {
            Category::All => owned(""),
            Category::Pwnable => owned("pwnable"),
            Category::Reversing => owned("reversing"),
            Category::Web => owned("web"),
            Category::Crypto => owned("crypto"),
        }
    }
}

#[derive(Debug, Clone, Copy, PartialEq, Eq, Structural)]
pub enum Status {
    ToDo,
    All,
    Attempted,
    Solved,
}

/// The selectable statuses, in popup order. Here the wildcard is second.
pub open spec fn status_variants() -> Seq<Status> {
    seq![Status::ToDo, Status::All, Status::Attempted, Status::Solved]
}

pub open spec fn status_from_index(i: int) -> Status {
    if 0 <= i < status_variants().len() {
        status_variants()[i]
    } else {
        Status::All
    }
}

impl Status {
    pub open spec fn index_of(self) -> int {
        match self {
            Status::ToDo => 0,
            Status::All => 1,
            Status::Attempted => 2,
            Status::Solved => 3,
        }
    }

    pub open spec fn name_spec(self) -> Seq<char> {
        match self {
            Status::ToDo => "To Do"@,
            Status::All => "All"@,
            Status::Attempted => "Attempted"@,
            Status::Solved => "Solved"@,
        }
    }

    pub fn variants() -> (r: Vec<Status>)
        ensures
            r@ == status_variants(),
    {
        let r = vec![Status::ToDo, Status::All, Status::Attempted, Status::Solved];
        assert(r@ =~= status_variants());
        r
    }

    pub fn from_index(index: usize) -> (r: Status)
        ensures
            r == status_from_index(index as int),
    {
        match index {
            0 => Status::ToDo,
            1 => Status::All,
            2 => Status::Attempted,
            3 => Status::Solved,
            _ => Status::All,
        }
    }

    pub fn to_string(&self) -> (r: String)
        ensures
            r@ == self.name_spec(),
    {
        match self {
            Status::ToDo => owned("To Do"),
            Status::All => owned("All"),
            Status::Attempted => owned("Attempted"),
            Status::Solved => owned("Solved"),
        }
    }
}

impl ToRequestString for Status {
    open spec fn request_token(&self) -> Seq<char> {
        match *self {
            Status::ToDo => "todo"@,
            Status::All => ""@,
            Status::Attempted => "attempted"@,
            Status::Solved => "solved"@,
        }
    }

    fn to_request_string(&self) -> (r: String) {
        match self {
            Status::ToDo => owned("todo"),
            Status::All => owned(""),
            Status::Attempted => owned("attempted"),
            Status::Solved => owned("solved"),
        }
    }
}

#[derive(Debug, Clone, Copy, PartialEq, Eq, Structural)]
pub enum Orderings {
    Newist,
    MostSolved,
    LeastSolved,
}

/// The selectable orderings; the default (newest first) comes first.
pub open spec fn ordering_variants() -> Seq<Orderings> {
    seq![Orderings::Newist, Orderings::MostSolved, Orderings::LeastSolved]
}

pub open spec fn ordering_from_index(i: int) -> Orderings {
    if 0 <= i < ordering_variants().len() {
        ordering_variants()[i]
    } else {
        Orderings::Newist
    }
}

impl Orderings {
    pub open spec fn index_of(self) -> int {
        match self {
            Orderings::Newist => 0,
            Orderings::MostSolved => 1,
            Orderings::LeastSolved => 2,
        }
    }

    pub open spec fn name_spec(self) -> Seq<char> {
        match self {
            Orderings::Newist => "Newist"@,
            Orderings::MostSolved => "Most Solved"@,
            Orderings::LeastSolved => "Least Solved"@,
        }
    }

    pub fn variants() -> (r: Vec<Orderings>)
        ensures
            r@ == ordering_variants(),
    {
        let r = vec![Orderings::Newist, Orderings::MostSolved, Orderings::LeastSolved];
        assert(r@ =~= ordering_variants());
        r
    }

    pub fn from_index(index: usize) -> (r: Orderings)
        ensures
            r == ordering_from_index(index as int),
    {
        match index {
            0 => Orderings::Newist,
            1 => Orderings::MostSolved,
            2 => Orderings::LeastSolved,
            _ => Orderings::Newist,
        }
    }

    pub fn to_string(&self) -> (r: String)
        ensures
            r@ == self.name_spec(),
    {
        match self {
            Orderings::Newist => owned("Newist"),
            Orderings::MostSolved => owned("Most Solved"),
            Orderings::LeastSolved => owned("Least Solved"),
        }
    }
}

impl ToRequestString for Orderings {
    open spec fn request_token(&self) -> Seq<char> {
        match *self {
            Orderings::Newist => ""@,
            Orderings::MostSolved => "-cnt_solvers"@,
            Orderings::LeastSolved => "cnt_solvers"@,
        }
    }

    fn to_request_string(&self) -> (r: String) {
        match self {
            Orderings::Newist => owned(""),
            Orderings::MostSolved => owned("-cnt_solvers"),
            Orderings::LeastSolved => owned("cnt_solvers"),
        }
    }
}

impl PopupItem for Difficulty {
    open spec fn item_list() -> Seq<Difficulty> {
        difficulty_variants()
    }

    open spec fn item_at(index: int) -> Difficulty {
        difficulty_from_index(index)
    }

    open spec fn item_name(&self) -> Seq<char> {
        self.name_spec()
    }

    fn variants() -> (r: Vec<Difficulty>) {
        Difficulty::variants()
    }

    fn from_index(index: usize) -> (r: Difficulty) {
        Difficulty::from_index(index)
    }

    fn name(&self) -> (r: String) {
        self.to_string()
    }
}

impl PopupItem for Category {
    open spec fn item_list() -> Seq<Category> {
        category_variants()
    }

    open spec fn item_at(index: int) -> Category {
        category_from_index(index)
    }

    open spec fn item_name(&self) -> Seq<char> {
        self.name_spec()
    }

    fn variants() -> (r: Vec<Category>) {
        Category::variants()
    }

    fn from_index(index: usize) -> (r: Category) {
        Category::from_index(index)
    }

    fn name(&self) -> (r: String) {
        self.to_string()
    }
}

impl PopupItem for Status {
    open spec fn item_list() -> Seq<Status> {
        status_variants()
    }

    open spec fn item_at(index: int) -> Status {
        status_from_index(index)
    }

    open spec fn item_name(&self) -> Seq<char> {
        self.name_spec()
    }

    fn variants() -> (r: Vec<Status>) {
        Status::variants()
    }

    fn from_index(index: usize) -> (r: Status) {
        Status::from_index(index)
    }

    fn name(&self) -> (r: String) {
        self.to_string()
    }
}

impl PopupItem for Orderings {
    open spec fn item_list() -> Seq<Orderings> {
        ordering_variants()
    }

    open spec fn item_at(index: int) -> Orderings {
        ordering_from_index(index)
    }

    open spec fn item_name(&self) -> Seq<char> {
        self.name_spec()
    }

    fn variants() -> (r: Vec<Orderings>) {
        Orderings::variants()
    }

    fn from_index(index: usize) -> (r: Orderings) {
        Orderings::from_index(index)
    }

    fn name(&self) -> (r: String) {
        self.to_string()
    }
}

/// Every difficulty offered in the popup comes back from its own index, and an
/// index past the list gives the wildcard.
pub proof fn lemma_difficulty_index_round_trip(d: Difficulty, i: int)
    ensures
        difficulty_variants().contains(d) ==> 0 <= d.index_of() < difficulty_variants().len()
            && difficulty_from_index(d.index_of()) == d,
        i >= difficulty_variants().len() ==> difficulty_from_index(i) == Difficulty::All,
{
    if difficulty_variants().contains(d) {
        let k = choose|k: int| 0 <= k < difficulty_variants().len() && difficulty_variants()[k] == d;
        assert(0 <= k < 11);
    }
}

/// The index round trip holds for the other three filters too, on every value.
pub proof fn lemma_other_index_round_trips(c: Category, s: Status, o: Orderings)
    ensures
        category_from_index(c.index_of()) == c,
        status_from_index(s.index_of()) == s,
        ordering_from_index(o.index_of()) == o,
{
}

/// Wildcard values serialise to the empty token, every other value to a
/// non-empty one.
pub proof fn lemma_request_tokens(d: Difficulty, c: Category, s: Status, o: Orderings)
    ensures
        (d.request_token().len() == 0) == (d == Difficulty::All),
        (c.request_token().len() == 0) == (c == Category::All),
        (s.request_token().len() == 0) == (s == Status::All),
        (o.request_token().len() == 0) == (o == Orderings::Newist),
{
    reveal_strlit("");
    reveal_strlit("0");
    reveal_strlit("1");
    reveal_strlit("2");
    reveal_strlit("3");
    reveal_strlit("4");
    reveal_strlit("5");
    reveal_strlit("6");
    reveal_strlit("7");
    reveal_strlit("8");
    reveal_strlit("9");
    reveal_strlit("10");
    reveal_strlit("pwnable");
    reveal_strlit("reversing");
    reveal_strlit("web");
    reveal_strlit("crypto");
    reveal_strlit("todo");
    reveal_strlit("attempted");
    reveal_strlit("solved");
    reveal_strlit("-cnt_solvers");
    reveal_strlit("cnt_solvers");
}

} // verus!
