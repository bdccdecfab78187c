use wry::registry::WindowRegistry;
use wry::window::{Attributes, GeometryHints, Icon, SizeRequest};
use wry::event_loop::{loop_step, new_size, LoopStep};
use wry::message::{Message, WindowMessage};

#[test]
fn default_attributes() {
    let a = Attributes::default();
    assert!(a.resizable && a.visible && a.decorations);
    assert!(!a.maximized && !a.transparent && !a.always_on_top && !a.fullscreen && !a.skip_taskbar);
    assert_eq!(a.title, "wry");
    assert_eq!((a.width, a.height), (800, 600));
    assert!(a.min_width.is_none() && a.max_height.is_none() && a.x.is_none());
    assert!(a.icon.is_none() && a.url.is_none() && a.initialization_scripts.is_empty());
}

#[test]
fn geometry_hints_turn_on_what_was_given() {
    let mut a = Attributes::default();
    let h = a.geometry_hints();
    assert!(!h.min_size && !h.max_size);
    assert_eq!((h.min_width, h.min_height, h.max_width, h.max_height), (0, 0, 0, 0));
    a.min_height = Some(200);
    a.max_width = Some(1000);
    let h = a.geometry_hints();
    assert!(h.min_size && h.max_size);
    assert_eq!((h.min_width, h.min_height, h.max_width, h.max_height), (0, 200, 1000, 0));
}

#[test]
fn inner_sizes_and_position_need_both_values() {
    let mut a = Attributes::default();
    a.min_width = Some(100);
    assert_eq!(a.min_inner_size(), None);
    a.min_height = Some(50);
    assert_eq!(a.min_inner_size(), Some((100, 50)));
    a.max_width = Some(900);
    a.max_height = Some(700);
    assert_eq!(a.max_inner_size(), Some((900, 700)));
    a.y = Some(-10);
    assert_eq!(a.outer_position(), None);
    a.x = Some(5);
    assert_eq!(a.outer_position(), Some((5, -10)));
}

#[test]
fn later_limits_set_one_side_only() {
    let h = GeometryHints::min_only(10, 20);
    assert!(h.min_size && !h.max_size);
    assert_eq!((h.min_width, h.min_height, h.max_width, h.max_height), (10, 20, 0, 0));
    let h = GeometryHints::max_only(30, 40);
    assert!(!h.min_size && h.max_size);
    assert_eq!((h.min_width, h.min_height, h.max_width, h.max_height), (0, 0, 30, 40));
}

#[test]
fn icon_keeps_its_bytes() {
    assert_eq!(Icon::from_bytes(vec![1, 2, 3]).0, vec![1, 2, 3]);
}

#[test]
fn registry_exits_when_the_last_window_closes() {
    let mut r: WindowRegistry<&str> = WindowRegistry::new();
    assert!(r.is_empty());
    r.insert(1, "one");
    r.insert(2, "two");
    assert_eq!(r.get(1), Some(&"one"));
    assert_eq!(r.get(3), None);
    assert!(!r.close(1));
    assert_eq!(r.get(1), None);
    assert!(!r.close(7));
    assert!(r.close(2));
    assert!(r.is_empty());
}

#[test]
fn registry_insert_replaces() {
    let mut r: WindowRegistry<u8> = WindowRegistry::new();
    r.insert(4, 1);
    r.insert(4, 2);
    assert_eq!(r.get(4), Some(&2));
    assert!(r.close(4));
}

#[test]
fn resizable_windows_get_a_default_size_others_a_fixed_one() {
    let mut a = Attributes::default();
    assert!(matches!(a.size_request(), SizeRequest::Default { width: 800, height: 600 }));
    a.resizable = false;
    a.width = 300;
    assert!(matches!(a.size_request(), SizeRequest::Fixed { width: 300, height: 600 }));
}

#[test]
fn loop_step_routes_changes_to_kept_windows_only() {
    let mut r: WindowRegistry<u8> = WindowRegistry::new();
    r.insert(3, 0);
    let m: Message<(), ()> = Message::Window(3, WindowMessage::Maximize);
    assert!(matches!(loop_step(&r, m), LoopStep::Apply(3, WindowMessage::Maximize)));
    let m: Message<(), ()> = Message::Window(4, WindowMessage::Maximize);
    assert!(matches!(loop_step(&r, m), LoopStep::Ignore));
    let (tx, _rx) = std::sync::mpsc::channel();
    let mut a = Attributes::default();
    a.title = "t".to_string();
    let m: Message<u8, ()> = Message::NewWindow(a, tx, Some(1), None);
    match loop_step(&r, m) {
        LoopStep::Create(a, _, h, p) => {
            assert_eq!(a.title, "t");
            assert_eq!(h, Some(1));
            assert!(p.is_none());
        }
        _ => panic!("expected a window to create"),
    }
}

#[test]
fn size_changes_keep_the_other_side() {
    assert_eq!(new_size(&WindowMessage::SetWidth(10), (800, 600)), Some((10, 600)));
    assert_eq!(new_size(&WindowMessage::SetHeight(20), (800, 600)), Some((800, 20)));
    assert_eq!(new_size(&WindowMessage::Resize { width: 1, height: 2 }, (800, 600)), Some((1, 2)));
    assert_eq!(new_size(&WindowMessage::Show, (800, 600)), None);
}
