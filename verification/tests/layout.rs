use kidar::element::Element;
use kidar::layout::Layout;

#[test]
fn element_keeps_its_fields() {
    let e = Element::new(-10, 20, 300, 400, [1, 2, 3, 4]);
    assert_eq!(e.x, -10);
    assert_eq!(e.y, 20);
    assert_eq!(e.width, 300);
    assert_eq!(e.height, 400);
    assert_eq!(e.bg_color, [1, 2, 3, 4]);
}

#[test]
fn new_layout_starts_empty_at_its_own_size() {
    let l = Layout::new(640, 480, 2);
    assert_eq!(l.width, 640);
    assert_eq!(l.height, 480);
    assert_eq!(l.depth, 2);
    assert_eq!(l.max_width, 640);
    assert_eq!(l.min_width, 640);
    assert_eq!(l.max_height, 480);
    assert_eq!(l.min_height, 480);
    assert!(l.elements.is_empty());
}

#[test]
fn elements_flow_from_the_running_corner() {
    let mut l = Layout::new(640, 480, 0);
    l.add_element(100, 50);
    l.add_element(30, 40);
    assert_eq!(l.elements.len(), 2);
    assert_eq!((l.elements[0].x, l.elements[0].y), (0, 0));
    assert_eq!((l.elements[1].x, l.elements[1].y), (100, 50));
    assert_eq!(l.elements[1].width, 30);
    assert_eq!(l.elements[1].height, 40);
    assert_eq!(l.elements[0].bg_color, [0, 0, 0, 100]);
}
