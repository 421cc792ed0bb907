use flexcol::geometry::{Size, Point, Length, Padding};
use flexcol::limits::Limits;
use flexcol::widget::{Element, Leaf};
use flexcol::column::Column;
use flexcol::tree::{Tree, Tag};
use flexcol::event::{Event, Status, Shell};
use flexcol::render::Frame;
use flexcol::interact::{Interaction, Operation};

fn plain(w: u32, h: u32) -> Element {
    Element::Leaf(Leaf::new(Length::Shrink, Length::Shrink, Size::new(w, h)))
}

fn button(w: u32, h: u32, message: u64) -> Element {
    Element::Leaf(Leaf::interactive(Length::Shrink, Length::Shrink, Size::new(w, h), message))
}

#[test]
fn status_merge_is_left_biased_capture() {
    assert_eq!(Status::Ignored.merge(Status::Ignored), Status::Ignored);
    assert_eq!(Status::Ignored.merge(Status::Captured), Status::Captured);
    assert_eq!(Status::Captured.merge(Status::Ignored), Status::Captured);
    assert_eq!(Status::Captured.merge(Status::Captured), Status::Captured);
}

#[test]
fn new_state_tree_mirrors_the_widget_tree() {
    let c = Column::with_children(vec![plain(1, 1), Element::Column(Column::with_children(vec![plain(2, 2)]))]);
    let t = Tree::new(&Element::Column(c));
    assert_eq!(t.tag, Tag::Column);
    assert_eq!(t.state, 0);
    assert_eq!(t.children.len(), 2);
    assert_eq!(t.children[0].tag, Tag::Leaf);
    assert_eq!(t.children[1].tag, Tag::Column);
    assert_eq!(t.children[1].children.len(), 1);
}

#[test]
fn diff_discards_trailing_excess() {
    let old_widget = Column::with_children(vec![plain(1, 1), plain(1, 1), plain(1, 1)]);
    let mut t = Tree::new(&Element::Column(old_widget));
    t.children[0].state = 7;
    t.children[1].state = 8;
    t.children[2].state = 9;
    let new_widget = Column::with_children(vec![plain(1, 1), plain(1, 1)]);
    new_widget.diff(&mut t);
    assert_eq!(t.children.len(), 2);
    assert_eq!(t.children[0].state, 7);
    assert_eq!(t.children[1].state, 8);
}

#[test]
fn diff_default_constructs_missing_entries() {
    let old_widget = Column::with_children(vec![plain(1, 1)]);
    let mut t = Tree::new(&Element::Column(old_widget));
    t.children[0].state = 5;
    let new_widget = Column::with_children(vec![plain(1, 1), plain(1, 1), plain(1, 1)]);
    new_widget.diff(&mut t);
    assert_eq!(t.children.len(), 3);
    assert_eq!(t.children[0].state, 5);
    assert_eq!(t.children[1].state, 0);
    assert_eq!(t.children[2].state, 0);
}

#[test]
fn diff_resets_state_of_a_different_kind() {
    let old_widget = Column::with_children(vec![plain(1, 1)]);
    let mut t = Tree::new(&Element::Column(old_widget));
    t.children[0].state = 5;
    let swapped = Column::with_children(vec![Element::Column(Column::new())]);
    swapped.diff(&mut t);
    assert_eq!(t.children.len(), 1);
    assert_eq!(t.children[0].tag, Tag::Column);
    assert_eq!(t.children[0].state, 0);
}

#[test]
fn pointer_press_is_captured_by_the_child_under_the_cursor() {
    let e = Element::Column(Column::with_children(vec![button(50, 10, 41), button(50, 10, 42)]));
    let node = e.layout(&Limits::new(Size::new(0, 0), Size::new(100, 100)));
    let mut t = Tree::new(&e);
    let mut shell = Shell::new();
    let status = e.on_event(
        &mut t,
        &Event::PointerPressed,
        &node,
        Point::new(0, 0),
        Point::new(5, 15),
        &mut shell,
    );
    assert_eq!(status, Status::Captured);
    assert_eq!(shell.messages, vec![42]);
    assert!(shell.redraw);
    assert_eq!(t.children[0].state, 0);
    assert_eq!(t.children[1].state, 1);
}

#[test]
fn pointer_press_outside_is_ignored() {
    let e = Element::Column(Column::with_children(vec![button(50, 10, 41)]));
    let node = e.layout(&Limits::new(Size::new(0, 0), Size::new(100, 100)));
    let mut t = Tree::new(&e);
    let mut shell = Shell::new();
    let status = e.on_event(
        &mut t,
        &Event::PointerPressed,
        &node,
        Point::new(0, 0),
        Point::new(90, 90),
        &mut shell,
    );
    assert_eq!(status, Status::Ignored);
    assert_eq!(shell.messages.len(), 0);
    assert!(!shell.redraw);
    let moved = e.on_event(
        &mut t,
        &Event::PointerMoved,
        &node,
        Point::new(0, 0),
        Point::new(5, 5),
        &mut shell,
    );
    assert_eq!(moved, Status::Ignored);
    assert_eq!(t.children[0].state, 0);
}

#[test]
fn draw_emits_one_quad_per_leaf_in_order() {
    let e = Element::Column(
        Column::with_children(vec![plain(10, 10), plain(10, 20)]).padding(Padding::uniform(2)),
    );
    let node = e.layout(&Limits::new(Size::new(0, 0), Size::new(100, 100)));
    let t = Tree::new(&e);
    let mut frame = Frame::new();
    e.draw(&t, &node, Point::new(100, 100), &mut frame);
    assert_eq!(frame.primitives.len(), 2);
    let first = frame.primitives[0].bounds;
    assert_eq!((first.x, first.y, first.width, first.height), (102, 102, 10, 10));
    let second = frame.primitives[1].bounds;
    assert_eq!((second.x, second.y, second.width, second.height), (102, 112, 10, 20));
}

#[test]
fn mouse_hint_is_pointer_over_an_interactive_leaf() {
    let e = Element::Column(Column::with_children(vec![plain(20, 10), button(20, 10, 1)]));
    let node = e.layout(&Limits::new(Size::new(0, 0), Size::new(100, 100)));
    let t = Tree::new(&e);
    let over = e.mouse_interaction(&t, &node, Point::new(0, 0), Point::new(5, 15));
    assert_eq!(over, Interaction::Pointer);
    let off = e.mouse_interaction(&t, &node, Point::new(0, 0), Point::new(5, 5));
    assert_eq!(off, Interaction::Idle);
}

#[test]
fn operate_visits_every_node_once() {
    let inner = Column::with_children(vec![plain(1, 1)]);
    let e = Element::Column(
        Column::with_children(vec![plain(1, 1), plain(1, 1), Element::Column(inner)]),
    );
    let node = e.layout(&Limits::new(Size::new(0, 0), Size::new(100, 100)));
    let mut t = Tree::new(&e);
    let mut op = Operation::new();
    e.operate(&mut t, &node, Point::new(0, 0), &mut op);
    assert_eq!(op.containers, 2);
    assert_eq!(op.leaves, 3);
    assert_eq!(op.found, None);
    assert_eq!(t.children[0].state, 0);
}

#[test]
fn focus_operation_writes_the_sought_leaf() {
    let e = Element::Column(Column::with_children(vec![plain(10, 10), plain(10, 20), plain(10, 5)]));
    let node = e.layout(&Limits::new(Size::new(0, 0), Size::new(100, 100)));
    let mut t = Tree::new(&e);
    let mut op = Operation::focus(1, 99);
    e.operate(&mut t, &node, Point::new(0, 0), &mut op);
    assert_eq!(t.children[0].state, 0);
    assert_eq!(t.children[1].state, 99);
    assert_eq!(t.children[2].state, 0);
    assert_eq!(op.leaves, 3);
    let found = op.found.expect("the sought leaf is within range");
    assert_eq!((found.x, found.y, found.width, found.height), (0, 10, 10, 20));
}

#[test]
fn last_floating_child_wins_the_overlay() {
    let float_a = Element::Leaf(Leaf {
        width: Length::Shrink,
        height: Length::Shrink,
        intrinsic: Size::new(10, 10),
        interactive: false,
        message: 0,
        floating: true,
    });
    let float_b = Element::Leaf(Leaf {
        width: Length::Shrink,
        height: Length::Shrink,
        intrinsic: Size::new(10, 20),
        interactive: false,
        message: 0,
        floating: true,
    });
    let c = Column::with_children(vec![float_a, plain(10, 5), float_b]);
    let node = c.layout(&Limits::new(Size::new(0, 0), Size::new(100, 100)));
    let overlay = c.overlay(&node, Point::new(0, 0));
    assert_eq!(overlay, Some(Point::new(0, 15)));
    let bare = Column::with_children(vec![plain(10, 5)]);
    let bare_node = bare.layout(&Limits::new(Size::new(0, 0), Size::new(100, 100)));
    assert_eq!(bare.overlay(&bare_node, Point::new(0, 0)), None);
}

#[test]
fn reconciling_an_empty_tree_builds_the_default_shape() {
    let c = Column::with_children(vec![plain(1, 1), plain(2, 2)]);
    let mut t = Tree::empty();
    c.diff(&mut t);
    assert_eq!(t.tag, Tag::Column);
    assert_eq!(t.state, 0);
    assert_eq!(t.children.len(), 2);
    assert_eq!(t.children[0].tag, Tag::Leaf);
}

#[test]
fn shell_collects_messages_and_redraws() {
    let mut shell = Shell::new();
    shell.publish(3);
    shell.publish(4);
    assert_eq!(shell.messages, vec![3, 4]);
    assert!(!shell.redraw);
    shell.request_redraw();
    assert!(shell.redraw);
}
