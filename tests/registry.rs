use image_organizer::app_view::AppView;
use image_organizer::image_display::ImageDisplayState;
use image_organizer::image_queue::{ImageInfo, ImageQueueState};
use image_organizer::organize_mode::OrganizeMode;
use image_organizer::side_panel::SidePanelState;
use image_organizer::tag_input::TagInputState;

#[test]
fn insert_and_look_up() {
    let mut r = SidePanelState::new("Tags".to_string());
    assert!(!r.contains('x'));
    r.insert('x', "cats".to_string());
    r.insert('y', "dogs".to_string());
    assert!(r.contains('x'));
    assert!(r.contains('y'));
    assert!(!r.contains('z'));
    assert_eq!(r.get('x'), Some(&"cats".to_string()));
    assert_eq!(r.get('y'), Some(&"dogs".to_string()));
    assert_eq!(r.get('z'), None);
    assert_eq!(r.label, "Tags");
}

#[test]
fn insert_overwrites_a_label() {
    let mut r = SidePanelState::new("Tags".to_string());
    r.insert('x', "cats".to_string());
    r.insert('x', "kittens".to_string());
    assert_eq!(r.get('x'), Some(&"kittens".to_string()));
    assert_eq!(r.tags.len(), 1);
}

#[test]
fn tag_input_commit_registers_and_clears() {
    let mut r = SidePanelState::new("Tags".to_string());
    let mut input = TagInputState::new('q');
    assert_eq!(input.tag_input_value, "");
    input.set("quokkas".to_string());
    assert_eq!(input.tag_input_value, "quokkas");
    input.commit(&mut r);
    assert_eq!(input.tag_input_value, "");
    assert_eq!(input.tag, 'q');
    assert_eq!(r.get('q'), Some(&"quokkas".to_string()));
}

#[test]
fn organize_mode_cycles() {
    let mut m = OrganizeMode::Copy;
    m.next();
    assert_eq!(m, OrganizeMode::Move);
    m.next();
    assert_eq!(m, OrganizeMode::Link);
    m.next();
    assert_eq!(m, OrganizeMode::Copy);
}

#[test]
fn display_shows_an_image() {
    let mut d = ImageDisplayState::new("/pics".to_string());
    assert_eq!(d.current_image_path, "");
    assert!(d.current_image_tags.is_none());
    d.show(&ImageInfo { path: "a.png".to_string(), tags: vec!['x', 'y'] });
    assert_eq!(d.current_image_path, "a.png");
    assert_eq!(d.current_image_tags, Some(vec!['x', 'y']));
    assert_eq!(d.image_path(), "/pics/a.png");
}

#[test]
fn app_view_accessors_match_variant() {
    let mut v = AppView::SidePanel(SidePanelState::new("Tags".to_string()));
    assert!(v.side_panel().is_some());
    assert!(v.image_queue().is_none());
    assert!(v.tag_input().is_none());
    assert!(v.image_queue_mut().is_none());
    assert!(v.tag_input_mut().is_none());
    assert!(v.image_display_mut().is_none());
    v.side_panel_mut().unwrap().insert('x', "cats".to_string());
    assert!(v.side_panel().unwrap().contains('x'));

    let mut q = AppView::ImageQueue(ImageQueueState::new(vec!["a".to_string(), "b".to_string()]));
    assert!(q.side_panel().is_none());
    assert!(q.side_panel_mut().is_none());
    q.image_queue_mut().unwrap().selected_image_index = 1;
    assert_eq!(q.image_queue().unwrap().selected_image_index, 1);

    let mut t = AppView::TagInput(TagInputState::new('t'));
    t.tag_input_mut().unwrap().set("trees".to_string());
    assert_eq!(t.tag_input().unwrap().tag_input_value, "trees");

    let mut d = AppView::ImageDisplay(ImageDisplayState::new(".".to_string()));
    d.image_display_mut().unwrap().current_image_path = "b".to_string();
    assert!(d.image_queue().is_none());
}
