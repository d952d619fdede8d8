use bops_rank::item::{copy_items, Item, Mode, BASELINE_SCORE};
use bops_rank::queue::{pick_pair, select_pair, select_with, ComparisonQueue, SelectError};
use rand::rngs::StdRng;
use rand::SeedableRng;

fn item(id: &str) -> Item {
    Item::new(id.to_string(), format!("Song {}", id), None)
}

fn items(ids: &[&str]) -> Vec<Item> {
    ids.iter().map(|id| item(id)).collect()
}

fn sorted_ids(list: &[&Item]) -> Vec<String> {
    let mut ids: Vec<String> = list.iter().map(|i| i.id.clone()).collect();
    ids.sort();
    ids
}

#[test]
fn new_item_starts_at_baseline() {
    let i = Item::new("x".to_string(), "X".to_string(), Some("frame".to_string()));
    assert_eq!(i.wins, 0);
    assert_eq!(i.losses, 0);
    assert_eq!(i.score, 1500);
    assert_eq!(BASELINE_SCORE, 1500);
    assert_eq!(i.iframe.as_deref(), Some("frame"));
}

#[test]
fn mode_param_selects_round_only_for_rounds() {
    assert_eq!(Mode::from_param(None), Mode::Match);
    assert_eq!(Mode::from_param(Some("rounds")), Mode::Round);
    assert_eq!(Mode::from_param(Some("match")), Mode::Match);
    assert_eq!(Mode::from_param(Some("round")), Mode::Match);
    assert_eq!(Mode::from_param(Some("")), Mode::Match);
}

#[test]
fn copy_items_keeps_every_item() {
    let c = items(&["a", "b", "c"]);
    let d = copy_items(&c);
    let ids: Vec<&str> = d.iter().map(|i| i.id.as_str()).collect();
    assert_eq!(ids, vec!["a", "b", "c"]);
}

#[test]
fn match_pair_of_two_items_is_always_both() {
    let c = items(&["A", "B"]);
    let mut q = ComparisonQueue::new();
    let mut rng = StdRng::seed_from_u64(11);
    for _ in 0..20 {
        let pair = select_pair(Mode::Match, &c, &mut q, &mut rng).unwrap();
        assert_eq!(sorted_ids(&[&pair.left, &pair.right]), vec!["A", "B"]);
        assert_eq!(pair.query.len(), 2);
        assert_eq!(q.len(), 0);
    }
}

#[test]
fn round_of_three_carries_the_leftover() {
    let c = items(&["A", "B", "C"]);
    let mut q = ComparisonQueue::new();
    let mut rng = StdRng::seed_from_u64(3);
    let first = select_pair(Mode::Round, &c, &mut q, &mut rng).unwrap();
    assert_ne!(first.left.id, first.right.id);
    assert_eq!(q.len(), 1);
    let leftover = q.peek().unwrap().id.clone();
    let mut seen = vec![first.left.id.as_str(), first.right.id.as_str(), leftover.as_str()];
    seen.sort();
    assert_eq!(seen, vec!["A", "B", "C"]);

    let second = select_pair(Mode::Round, &c, &mut q, &mut rng).unwrap();
    assert_eq!(second.left.id, leftover);
    assert_eq!(q.len(), 2);
    let (top, below) = q.pop_pair();
    let rest: Vec<&Item> = vec![&second.right, &top, &below];
    assert_eq!(sorted_ids(&rest), vec!["A", "B", "C"]);
}

#[test]
fn round_shows_every_item_once_before_repeating() {
    let c = items(&["a", "b", "c", "d", "e", "f"]);
    let mut rng = StdRng::seed_from_u64(42);
    for _ in 0..10 {
        let mut q = ComparisonQueue::new();
        let mut shown: Vec<Item> = Vec::new();
        for _ in 0..3 {
            let pair = select_pair(Mode::Round, &c, &mut q, &mut rng).unwrap();
            assert_ne!(pair.left.id, pair.right.id);
            shown.push(pair.left);
            shown.push(pair.right);
        }
        assert_eq!(q.len(), 0);
        let refs: Vec<&Item> = shown.iter().collect();
        assert_eq!(sorted_ids(&refs), vec!["a", "b", "c", "d", "e", "f"]);
    }
}

#[test]
fn too_few_items_is_insufficient() {
    let mut rng = StdRng::seed_from_u64(1);
    let mut q = ComparisonQueue::new();
    let empty: Vec<Item> = Vec::new();
    assert_eq!(
        select_pair(Mode::Match, &empty, &mut q, &mut rng).unwrap_err(),
        SelectError::InsufficientItems
    );
    let one = items(&["solo"]);
    assert_eq!(
        select_pair(Mode::Round, &one, &mut q, &mut rng).unwrap_err(),
        SelectError::InsufficientItems
    );
    assert_eq!(q.len(), 0);
}

#[test]
fn select_with_round_from_empty_takes_the_top_two() {
    let c = items(&["A", "B", "C"]);
    let mut q = ComparisonQueue::new();
    let pair = select_with(Mode::Round, &c, &mut q, items(&["B", "A", "C"])).unwrap();
    assert_eq!(pair.left.id, "C");
    assert_eq!(pair.right.id, "A");
    assert_eq!(q.len(), 1);
    assert_eq!(q.peek().unwrap().id, "B");
    assert_eq!(pair.query.len(), 3);
}

#[test]
fn select_with_round_puts_leftover_on_top_of_refill() {
    let c = items(&["A", "B", "C"]);
    let mut q = ComparisonQueue::new();
    select_with(Mode::Round, &c, &mut q, items(&["B", "A", "C"])).unwrap();
    let pair = select_with(Mode::Round, &c, &mut q, items(&["C", "A", "B"])).unwrap();
    assert_eq!(pair.left.id, "B");
    assert_eq!(pair.right.id, "B");
    assert_eq!(q.len(), 2);
    assert_eq!(q.peek().unwrap().id, "A");
}

#[test]
fn select_with_round_keeps_a_long_queue() {
    let c = items(&["A", "B", "C", "D"]);
    let mut q = ComparisonQueue::new();
    select_with(Mode::Round, &c, &mut q, items(&["D", "C", "B", "A"])).unwrap();
    assert_eq!(q.len(), 2);
    let pair = select_with(Mode::Round, &c, &mut q, items(&["A", "B", "C", "D"])).unwrap();
    assert_eq!(pair.left.id, "C");
    assert_eq!(pair.right.id, "D");
    assert_eq!(q.len(), 0);
}

#[test]
fn select_with_match_ignores_the_queue() {
    let c = items(&["A", "B", "C"]);
    let mut q = ComparisonQueue::new();
    select_with(Mode::Round, &c, &mut q, items(&["A", "B", "C"])).unwrap();
    let pair = select_with(Mode::Match, &c, &mut q, items(&["C", "A", "B"])).unwrap();
    assert_eq!(pair.left.id, "B");
    assert_eq!(pair.right.id, "A");
    assert_eq!(q.len(), 1);
    assert_eq!(q.peek().unwrap().id, "A");
}

#[test]
fn refill_only_when_short() {
    let mut q = ComparisonQueue::new();
    q.refill(items(&["x", "y"]));
    assert_eq!(q.len(), 2);
    q.refill(items(&["p", "q", "r"]));
    assert_eq!(q.len(), 2);
    assert_eq!(q.peek().unwrap().id, "y");
}

#[test]
fn pick_pair_takes_last_two() {
    let (l, r) = pick_pair(items(&["a", "b", "c", "d"]));
    assert_eq!(l.id, "d");
    assert_eq!(r.id, "c");
}

#[test]
fn match_selection_is_shuffled() {
    let c = items(&["0", "1", "2", "3", "4", "5", "6", "7", "8", "9"]);
    let mut q = ComparisonQueue::new();
    let mut rng = StdRng::seed_from_u64(5);
    let mut other = false;
    for _ in 0..20 {
        let pair = select_pair(Mode::Match, &c, &mut q, &mut rng).unwrap();
        assert_ne!(pair.left.id, pair.right.id);
        if pair.left.id != "9" || pair.right.id != "8" {
            other = true;
        }
    }
    assert!(other);
}

#[test]
fn seeded_selections_repeat() {
    let c = items(&["a", "b", "c", "d", "e"]);
    let run = |seed: u64| -> Vec<String> {
        let mut q = ComparisonQueue::new();
        let mut rng = StdRng::seed_from_u64(seed);
        let mut out = Vec::new();
        for _ in 0..6 {
            let pair = select_pair(Mode::Round, &c, &mut q, &mut rng).unwrap();
            out.push(pair.left.id);
            out.push(pair.right.id);
        }
        out
    };
    assert_eq!(run(9), run(9));
}
