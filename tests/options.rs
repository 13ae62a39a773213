use creamhack::options::{Category, Difficulty, Orderings, PopupItem, Status, ToRequestString};

#[test]
fn difficulty_index_round_trip() {
    let variants = Difficulty::variants();
    assert_eq!(variants.len(), 11);
    for (i, d) in variants.iter().enumerate() {
        assert_eq!(Difficulty::from_index(i), *d);
    }
    assert_eq!(Difficulty::from_index(11), Difficulty::All);
    assert_eq!(Difficulty::from_index(usize::MAX), Difficulty::All);
}

#[test]
fn other_index_round_trips() {
    for (i, c) in Category::variants().iter().enumerate() {
        assert_eq!(Category::from_index(i), *c);
    }
    for (i, s) in Status::variants().iter().enumerate() {
        assert_eq!(Status::from_index(i), *s);
    }
    for (i, o) in Orderings::variants().iter().enumerate() {
        assert_eq!(Orderings::from_index(i), *o);
    }
    assert_eq!(Category::from_index(5), Category::All);
    assert_eq!(Status::from_index(4), Status::All);
    assert_eq!(Orderings::from_index(3), Orderings::Newist);
}

#[test]
fn wildcards_serialise_empty() {
    assert_eq!(Difficulty::All.to_request_string(), "");
    assert_eq!(Category::All.to_request_string(), "");
    assert_eq!(Status::All.to_request_string(), "");
    assert_eq!(Orderings::Newist.to_request_string(), "");
}

#[test]
fn request_tokens_table() {
    assert_eq!(Category::Pwnable.to_request_string(), "pwnable");
    assert_eq!(Category::Reversing.to_request_string(), "reversing");
    assert_eq!(Category::Web.to_request_string(), "web");
    assert_eq!(Category::Crypto.to_request_string(), "crypto");
    assert_eq!(Status::ToDo.to_request_string(), "todo");
    assert_eq!(Status::Attempted.to_request_string(), "attempted");
    assert_eq!(Status::Solved.to_request_string(), "solved");
    assert_eq!(Orderings::MostSolved.to_request_string(), "-cnt_solvers");
    assert_eq!(Orderings::LeastSolved.to_request_string(), "cnt_solvers");
    assert_eq!(Difficulty::Unranked.to_request_string(), "0");
    assert_eq!(Difficulty::Beginner.to_request_string(), "1");
    assert_eq!(Difficulty::LEVEL1.to_request_string(), "1");
    assert_eq!(Difficulty::LEVEL10.to_request_string(), "10");
}

#[test]
fn difficulty_levels() {
    assert_eq!(Difficulty::from_level(0), Difficulty::Unranked);
    assert_eq!(Difficulty::from_level(3), Difficulty::LEVEL3);
    assert_eq!(Difficulty::from_level(10), Difficulty::LEVEL10);
    assert_eq!(Difficulty::from_level(11), Difficulty::All);
    assert_eq!(Difficulty::Beginner.level(), Some(1));
    assert_eq!(Difficulty::LEVEL1.level(), Some(1));
    assert_eq!(Difficulty::Unranked.level(), Some(0));
    assert_eq!(Difficulty::All.level(), None);
}

#[test]
fn display_names() {
    assert_eq!(Difficulty::LEVEL3.to_string(), "LEVEL 3");
    assert_eq!(Difficulty::LEVEL10.to_string(), "LEVEL 10");
    assert_eq!(Difficulty::Beginner.color(), "#7FFF00");
    assert_eq!(Status::ToDo.to_string(), "To Do");
    assert_eq!(Orderings::MostSolved.to_string(), "Most Solved");
    assert_eq!(Category::Web.to_string(), "Web");
}

#[test]
fn popup_items_and_conversions() {
    let names: Vec<String> = <Status as PopupItem>::variants().iter().map(|s| s.name()).collect();
    assert_eq!(names, vec!["To Do", "All", "Attempted", "Solved"]);
    assert_eq!(<Orderings as PopupItem>::from_index(2), Orderings::LeastSolved);
    assert_eq!(<Category as PopupItem>::from_index(9), Category::All);
    assert_eq!(Difficulty::from(7u64), Difficulty::LEVEL7);
    assert_eq!(Difficulty::from(99u64), Difficulty::All);
    assert_eq!(Option::<u64>::from(Difficulty::Beginner), Some(1));
    assert_eq!(Option::<u64>::from(Difficulty::All), None);
}
