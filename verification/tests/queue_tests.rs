use color_picker::colors::Color;
use color_picker::queue::Queue;

fn grey() -> Color {
    Color::new(128, 128, 128, 50, 50, 0)
}

fn red() -> Color {
    Color::new(255, 0, 0, 10, 20, 0)
}

fn blue() -> Color {
    Color::new(0, 0, 255, 30, 40, 0)
}

#[test]
fn new_queue_is_empty_without_room() {
    let q: Queue<u32> = Queue::new();
    assert_eq!(q.len(), 0);
    assert_eq!(q.into_vec(), Vec::<u32>::new());
}

#[test]
fn default_queue_is_empty_without_room() {
    let mut q: Queue<u32> = Queue::default();
    assert_eq!(q.len(), 0);
    q.push(4);
    assert_eq!(q.len(), 0);
}

#[test]
fn with_capacity_starts_empty() {
    let q: Queue<u32> = Queue::new().with_capacity(5);
    assert_eq!(q.len(), 0);
    assert!(q.into_vec().is_empty());
}

#[test]
fn with_capacity_drops_what_was_held() {
    let q = Queue::new().with_capacity(2).with_default_values(9u8).with_capacity(3);
    assert_eq!(q.len(), 0);
    let q = q.with_default_values(1u8);
    assert_eq!(q.into_vec(), vec![1u8, 1, 1]);
}

#[test]
fn push_appends_while_there_is_room() {
    let mut q = Queue::new().with_capacity(3);
    q.push(1u32);
    assert_eq!(q.len(), 1);
    q.push(2);
    assert_eq!(q.len(), 2);
    assert_eq!(q.into_vec(), vec![1, 2]);
}

#[test]
fn push_on_full_queue_evicts_oldest() {
    let mut q = Queue::new().with_capacity(3);
    q.push(1u32);
    q.push(2);
    q.push(3);
    assert_eq!(q.clone().into_vec(), vec![1, 2, 3]);
    q.push(4);
    assert_eq!(q.len(), 3);
    assert_eq!(q.into_vec(), vec![2, 3, 4]);
}

#[test]
fn overflow_keeps_last_pushed_in_order() {
    for capacity in 1usize..=6 {
        for extra in 1usize..=9 {
            let pushed: Vec<usize> = (0..capacity + extra).map(|i| 100 + i).collect();
            let mut q = Queue::new().with_capacity(capacity).with_default_values(7usize);
            for v in pushed.iter() {
                q.push(*v);
                assert!(q.len() <= capacity);
            }
            assert_eq!(q.len(), capacity);
            assert_eq!(q.into_vec(), pushed[pushed.len() - capacity..].to_vec());
        }
    }
}

#[test]
fn overflow_from_empty_keeps_last_pushed() {
    let mut q = Queue::new().with_capacity(3);
    for v in 1u32..=7 {
        q.push(v);
    }
    assert_eq!(q.into_vec(), vec![5, 6, 7]);
}

#[test]
fn default_values_fill_every_slot() {
    let q = Queue::new().with_capacity(5).with_default_values(grey());
    assert_eq!(q.len(), 5);
    assert_eq!(q.into_vec(), vec![grey(); 5]);
}

#[test]
fn default_values_without_room_hold_nothing() {
    let q = Queue::new().with_default_values(grey());
    assert_eq!(q.len(), 0);
    assert!(q.into_vec().is_empty());
}

#[test]
fn default_values_replace_what_was_held() {
    let mut q = Queue::new().with_capacity(2);
    q.push(1u8);
    let q = q.with_default_values(9);
    assert_eq!(q.into_vec(), vec![9, 9]);
}

#[test]
fn push_without_room_changes_nothing() {
    let mut q: Queue<u32> = Queue::new().with_capacity(0);
    q.push(1);
    q.push(2);
    assert_eq!(q.len(), 0);
    assert!(q.into_vec().is_empty());
}

#[test]
fn capacity_one_keeps_only_newest() {
    let mut q = Queue::new().with_capacity(1);
    q.push(1u32);
    q.push(2);
    q.push(3);
    assert_eq!(q.into_vec(), vec![3]);
}

#[test]
fn saved_colors_follow_defaults() {
    let mut q = Queue::new().with_capacity(5).with_default_values(grey());
    q.push(red());
    q.push(blue());
    assert_eq!(q.len(), 5);
    assert_eq!(q.into_vec(), vec![grey(), grey(), grey(), red(), blue()]);
}

#[test]
fn clone_holds_same_items_and_capacity() {
    let mut q = Queue::new().with_capacity(2);
    q.push(1u32);
    let mut c = q.clone();
    assert_eq!(c.len(), 1);
    c.push(2);
    c.push(3);
    assert_eq!(c.into_vec(), vec![2, 3]);
    assert_eq!(q.into_vec(), vec![1]);
}

#[test]
fn iteration_goes_oldest_first() {
    let mut q = Queue::new().with_capacity(3);
    for v in 1u32..=5 {
        q.push(v);
    }
    let forward: Vec<u32> = q.clone().into_iter().collect();
    assert_eq!(forward, vec![3, 4, 5]);
    let newest_first: Vec<(usize, u32)> = q.into_iter().rev().enumerate().collect();
    assert_eq!(newest_first, vec![(0, 5), (1, 4), (2, 3)]);
}

#[test]
fn holds_items_that_are_cloned_not_copied() {
    let mut q = Queue::new().with_capacity(3).with_default_values(String::from("none"));
    q.push(String::from("a"));
    q.push(String::from("b"));
    let kept = q.clone();
    q.push(String::from("c"));
    q.push(String::from("d"));
    assert_eq!(q.into_vec(), vec!["b", "c", "d"]);
    assert_eq!(kept.into_vec(), vec!["none", "a", "b"]);
}
