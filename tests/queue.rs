use image_organizer::image_queue::{Direction, ImageInfo, ImageQueueState, TagFilter};
use image_organizer::navigation::GetWhere;

fn queue_of(names: &[&str]) -> ImageQueueState {
    ImageQueueState::new(names.iter().map(|n| n.to_string()).collect())
}

fn paths(q: &ImageQueueState) -> Vec<String> {
    q.image_infos.iter().map(|i| i.path.clone()).collect()
}

#[test]
fn new_sorts_names_and_selects_first() {
    let q = queue_of(&["c.png", "a.png", "b.png"]);
    assert_eq!(paths(&q), vec!["a.png", "b.png", "c.png"]);
    assert_eq!(q.selected_image_index, 0);
    assert!(q.image_infos.iter().all(|i| i.tags.is_empty()));
}

#[test]
fn new_of_nothing_is_empty() {
    let q = queue_of(&[]);
    assert!(q.image_infos.is_empty());
}

#[test]
fn next_and_prev_on_vec() {
    let v = vec![1, 2, 3, 4, 5, 6];
    assert_eq!(v.next(0, |x| x % 2 == 0), Some(1));
    assert_eq!(v.next(1, |x| x % 2 == 0), Some(3));
    assert_eq!(v.next(5, |_| true), None);
    assert_eq!(v.prev(5, |x| x % 2 == 1), Some(4));
    assert_eq!(v.prev(0, |_| true), None);
    assert_eq!(v.prev(3, |x| *x > 10), None);
}

#[test]
fn navigate_right_then_left_returns() {
    let mut q = queue_of(&["a", "b", "c"]);
    for i in 0..2 {
        q.selected_image_index = i;
        assert_eq!(q.navigate(Direction::Forward, TagFilter::Any), Some(i + 1));
        assert_eq!(q.navigate(Direction::Backward, TagFilter::Any), Some(i));
        assert_eq!(q.selected_image_index, i);
    }
}

#[test]
fn navigate_stops_at_the_boundary() {
    let mut q = queue_of(&["a", "b", "c"]);
    q.selected_image_index = 2;
    assert_eq!(q.navigate(Direction::Forward, TagFilter::Any), None);
    assert_eq!(q.selected_image_index, 2);
    q.selected_image_index = 0;
    assert_eq!(q.navigate(Direction::Backward, TagFilter::Any), None);
    assert_eq!(q.selected_image_index, 0);
}

#[test]
fn navigate_by_tag_filter() {
    let mut q = queue_of(&["a", "b", "c", "d", "e"]);
    q.selected_image_index = 1;
    q.toggle_tag('x');
    q.selected_image_index = 3;
    q.toggle_tag('y');
    q.selected_image_index = 0;
    assert_eq!(q.navigate(Direction::Forward, TagFilter::Tagged), Some(1));
    assert_eq!(q.navigate(Direction::Forward, TagFilter::Untagged), Some(2));
    assert_eq!(q.navigate(Direction::Forward, TagFilter::Tagged), Some(3));
    assert_eq!(q.navigate(Direction::Forward, TagFilter::Tagged), None);
    assert_eq!(q.selected_image_index, 3);
    assert_eq!(q.navigate(Direction::Backward, TagFilter::Untagged), Some(2));
    assert_eq!(q.navigate(Direction::Backward, TagFilter::Tagged), Some(1));
    q.selected_image_index = 4;
    assert_eq!(q.navigate(Direction::Backward, TagFilter::Untagged), Some(2));
}

#[test]
fn toggle_twice_restores_tags() {
    let mut q = queue_of(&["a", "b"]);
    q.toggle_tag('k');
    assert_eq!(q.image_infos[0].tags, vec!['k']);
    q.toggle_tag('m');
    q.toggle_tag('z');
    q.toggle_tag('z');
    assert_eq!(q.image_infos[0].tags, vec!['k', 'm']);
    q.toggle_tag('k');
    assert_eq!(q.image_infos[0].tags, vec!['m']);
    q.toggle_tag('k');
    let mut tags = q.image_infos[0].tags.clone();
    tags.sort();
    assert_eq!(tags, vec!['k', 'm']);
    assert!(q.image_infos[1].tags.is_empty());
}

#[test]
fn toggle_on_empty_queue_does_nothing() {
    let mut q = queue_of(&[]);
    q.toggle_tag('a');
    assert!(q.image_infos.is_empty());
}

#[test]
fn current_is_the_selected_image() {
    let mut q = queue_of(&["b", "a"]);
    assert_eq!(q.current().map(|i| i.path.clone()), Some("a".to_string()));
    q.selected_image_index = 1;
    assert_eq!(q.current().map(|i| i.path.clone()), Some("b".to_string()));
    assert!(queue_of(&[]).current().is_none());
}

#[test]
fn delete_current_in_the_middle() {
    let mut q = queue_of(&["a", "b", "c"]);
    q.selected_image_index = 1;
    q.delete_current();
    assert_eq!(paths(&q), vec!["a", "c"]);
    assert_eq!(q.selected_image_index, 1);
}

#[test]
fn delete_current_at_the_end_moves_back() {
    let mut q = queue_of(&["a", "b", "c"]);
    q.selected_image_index = 2;
    q.delete_current();
    assert_eq!(paths(&q), vec!["a", "b"]);
    assert_eq!(q.selected_image_index, 1);
}

#[test]
fn delete_current_down_to_empty() {
    let mut q = queue_of(&["a", "b"]);
    q.delete_current();
    assert_eq!(paths(&q), vec!["b"]);
    assert_eq!(q.selected_image_index, 0);
    q.delete_current();
    assert!(q.image_infos.is_empty());
    q.delete_current();
    assert!(q.image_infos.is_empty());
}

#[test]
fn delete_keeps_length_and_selection_in_range() {
    for n in 1..6usize {
        for sel in 0..n {
            let names: Vec<String> = (0..n).map(|i| format!("f{}", i)).collect();
            let mut q = ImageQueueState::new(names);
            q.selected_image_index = sel;
            q.delete_current();
            assert_eq!(q.image_infos.len(), n - 1);
            assert!(q.image_infos.is_empty() || q.selected_image_index < n - 1);
        }
    }
}

#[test]
fn filters_judge_tags() {
    let tagged = ImageInfo { path: "a".to_string(), tags: vec!['x'] };
    let bare = ImageInfo { path: "b".to_string(), tags: vec![] };
    assert!(TagFilter::Any.holds(&tagged) && TagFilter::Any.holds(&bare));
    assert!(TagFilter::Tagged.holds(&tagged) && !TagFilter::Tagged.holds(&bare));
    assert!(!TagFilter::Untagged.holds(&tagged) && TagFilter::Untagged.holds(&bare));
}

#[test]
fn window_around_the_selection() {
    let names: Vec<String> = (0..20).map(|i| format!("f{:02}", i)).collect();
    let mut q = ImageQueueState::new(names);
    assert_eq!(q.window(), (0, 10));
    q.selected_image_index = 2;
    assert_eq!(q.window(), (0, 12));
    q.selected_image_index = 5;
    assert_eq!(q.window(), (3, 15));
    q.selected_image_index = 15;
    assert_eq!(q.window(), (13, 20));
    assert_eq!(queue_of(&[]).window(), (0, 0));
}
