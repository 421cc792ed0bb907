use flexcol::geometry::{Size, Point, Padding, Alignment, Length, Axis, sat_add, sat_sub};
use flexcol::limits::Limits;
use flexcol::node::Node;
use flexcol::widget::{Element, Leaf};
use flexcol::column::Column;

fn leaf(width: Length, height: Length, w: u32, h: u32) -> Element {
    Element::Leaf(Leaf::new(width, height, Size::new(w, h)))
}

fn node_eq(a: &Node, b: &Node) -> bool {
    if a.bounds != b.bounds || a.children.len() != b.children.len() {
        return false;
    }
    a.children.iter().zip(b.children.iter()).all(|(x, y)| node_eq(x, y))
}

#[test]
fn resolve_stays_within_limits() {
    let l = Limits::new(Size::new(10, 20), Size::new(50, 60));
    let r = l.resolve(Length::Shrink, Length::Shrink, Size::new(100, 5));
    assert_eq!(r, Size::new(50, 20));
    assert!(l.min.width <= r.width && r.width <= l.max.width);
    assert!(l.min.height <= r.height && r.height <= l.max.height);
    let f = l.resolve(Length::FillPortion(3), Length::FillMax(7), Size::new(0, 0));
    assert_eq!(f, Size::new(50, 60));
}

#[test]
fn limits_narrowing() {
    let l = Limits::new(Size::new(0, 0), Size::new(100, 200));
    let fixed = l.width(Length::Fixed(30));
    assert_eq!(fixed.min.width, 30);
    assert_eq!(fixed.max.width, 30);
    let fill = l.width(Length::FillPortion(2));
    assert_eq!(fill.min.width, 100);
    assert_eq!(fill.max.width, 100);
    let bounded = l.width(Length::FillMax(60));
    assert_eq!(bounded.min.width, 0);
    assert_eq!(bounded.max.width, 60);
    let shrink = l.width(Length::Shrink);
    assert_eq!(shrink.min.width, 0);
    assert_eq!(shrink.max.width, 100);
    let padded = l.pad(Padding::uniform(5));
    assert_eq!(padded.max, Size::new(90, 190));
}

#[test]
fn builders_configure_the_column() {
    let c = Column::new()
        .spacing(4)
        .padding(Padding::uniform(2))
        .width(Length::Fixed(80))
        .height(Length::Shrink)
        .max_width(120)
        .align_items(Alignment::End);
    assert_eq!(c.spacing, 4);
    assert_eq!(c.padding, Padding::uniform(2));
    assert_eq!(c.width, Length::Fixed(80));
    assert_eq!(c.height, Length::Shrink);
    assert_eq!(c.max_width, 120);
    assert_eq!(c.align_items, Alignment::End);
    assert_eq!(c.children.len(), 0);
    let c = c.push(leaf(Length::Shrink, Length::Shrink, 1, 1));
    assert_eq!(c.children.len(), 1);
    let d = Column::default();
    assert_eq!(d.spacing, 0);
    assert_eq!(d.width, Length::Shrink);
    assert!(matches!(Element::from(Column::new()), Element::Column(_)));
}

#[test]
fn equal_fill_portions_split_exactly() {
    let c = Column::with_children(vec![
        leaf(Length::Shrink, Length::FillPortion(1), 0, 0),
        leaf(Length::Shrink, Length::FillPortion(1), 0, 0),
        leaf(Length::Shrink, Length::FillPortion(1), 0, 0),
    ]);
    let n = c.layout(&Limits::new(Size::new(0, 0), Size::new(50, 100)));
    let heights: Vec<u32> = n.children.iter().map(|k| k.bounds.height).collect();
    assert_eq!(heights, vec![33, 33, 34]);
    assert_eq!(heights.iter().sum::<u32>(), 100);
    let ys: Vec<u32> = n.children.iter().map(|k| k.bounds.y).collect();
    assert_eq!(ys, vec![0, 33, 66]);
    assert_eq!(n.bounds.height, 100);
}

#[test]
fn layout_is_deterministic() {
    let inner = Column::with_children(vec![
        leaf(Length::Shrink, Length::Shrink, 10, 10),
        leaf(Length::FillMax(40), Length::FillPortion(2), 0, 0),
    ])
    .spacing(3);
    let c = Column::with_children(vec![
        Element::Column(inner),
        leaf(Length::Shrink, Length::Fixed(7), 5, 0),
    ])
    .padding(Padding::uniform(1))
    .align_items(Alignment::Center);
    let l = Limits::new(Size::new(0, 0), Size::new(90, 80));
    let a = c.layout(&l);
    let b = c.layout(&l);
    assert!(node_eq(&a, &b));
}

#[test]
fn fixed_shrink_and_fill_share_the_height() {
    let c = Column::with_children(vec![
        leaf(Length::Shrink, Length::Shrink, 0, 10),
        leaf(Length::Shrink, Length::Shrink, 0, 20),
        leaf(Length::Shrink, Length::FillPortion(2), 0, 0),
    ]);
    let n = c.layout(&Limits::new(Size::new(0, 0), Size::new(100, 100)));
    let heights: Vec<u32> = n.children.iter().map(|k| k.bounds.height).collect();
    assert_eq!(heights, vec![10, 20, 70]);
    let ys: Vec<u32> = n.children.iter().map(|k| k.bounds.y).collect();
    assert_eq!(ys, vec![0, 10, 30]);
    assert_eq!(n.bounds.height, 100);
}

#[test]
fn padding_alone_sizes_an_empty_column() {
    let c = Column::new().padding(Padding::uniform(5));
    let n = c.layout(&Limits::new(Size::new(0, 0), Size::new(200, 300)));
    assert_eq!(n.size(), Size::new(10, 10));
    assert_eq!(n.children.len(), 0);
    let m = c.layout(&Limits::new(Size::new(0, 0), Size::new(50, 12)));
    assert_eq!(m.size(), Size::new(10, 10));
}

#[test]
fn centered_child_sits_in_the_middle() {
    let c = Column::with_children(vec![leaf(Length::Shrink, Length::Shrink, 40, 10)])
        .width(Length::FillPortion(1))
        .align_items(Alignment::Center);
    let n = c.layout(&Limits::new(Size::new(0, 0), Size::new(100, 200)));
    assert_eq!(n.bounds.width, 100);
    assert_eq!(n.children[0].bounds.x, 30);
    assert_eq!(n.children[0].bounds.width, 40);
}

#[test]
fn end_alignment_uses_all_the_slack() {
    let c = Column::with_children(vec![leaf(Length::Shrink, Length::Shrink, 40, 10)])
        .width(Length::Fixed(100))
        .align_items(Alignment::End);
    let n = c.layout(&Limits::new(Size::new(0, 0), Size::new(100, 200)));
    assert_eq!(n.children[0].bounds.x, 60);
}

#[test]
fn spacing_separates_consecutive_children() {
    let c = Column::with_children(vec![
        leaf(Length::Shrink, Length::Shrink, 5, 10),
        leaf(Length::Shrink, Length::Shrink, 5, 20),
    ])
    .spacing(5);
    let n = c.layout(&Limits::new(Size::new(0, 0), Size::new(50, 100)));
    let ys: Vec<u32> = n.children.iter().map(|k| k.bounds.y).collect();
    assert_eq!(ys, vec![0, 15]);
    assert_eq!(n.bounds.height, 35);
}

#[test]
fn bounded_fill_stops_at_its_bound() {
    let e = leaf(Length::FillMax(60), Length::Shrink, 0, 10);
    let s = e.measure(&Limits::new(Size::new(0, 0), Size::new(100, 50)));
    assert_eq!(s, Size::new(60, 10));
    let tight = e.measure(&Limits::new(Size::new(0, 0), Size::new(40, 50)));
    assert_eq!(tight, Size::new(40, 10));
}

#[test]
fn zero_weight_portions_receive_nothing() {
    let c = Column::with_children(vec![
        leaf(Length::Shrink, Length::FillPortion(0), 0, 0),
        leaf(Length::Shrink, Length::FillPortion(0), 0, 0),
    ]);
    let n = c.layout(&Limits::new(Size::new(0, 0), Size::new(50, 100)));
    let heights: Vec<u32> = n.children.iter().map(|k| k.bounds.height).collect();
    assert_eq!(heights, vec![0, 0]);
    let mixed = Column::with_children(vec![
        leaf(Length::Shrink, Length::FillPortion(1), 0, 0),
        leaf(Length::Shrink, Length::FillPortion(0), 0, 0),
    ]);
    let m = mixed.layout(&Limits::new(Size::new(0, 0), Size::new(50, 100)));
    let heights: Vec<u32> = m.children.iter().map(|k| k.bounds.height).collect();
    assert_eq!(heights, vec![100, 0]);
}

#[test]
fn measure_agrees_with_layout() {
    let c = Column::with_children(vec![
        leaf(Length::Shrink, Length::Shrink, 12, 10),
        leaf(Length::Shrink, Length::FillPortion(3), 8, 0),
    ])
    .spacing(2)
    .padding(Padding::uniform(4));
    let l = Limits::new(Size::new(0, 0), Size::new(80, 90));
    assert_eq!(c.measure(&l), c.layout(&l).size());
}

#[test]
fn max_width_caps_the_column() {
    let c = Column::with_children(vec![leaf(Length::FillPortion(1), Length::Shrink, 0, 10)])
        .width(Length::FillPortion(1))
        .max_width(70);
    let n = c.layout(&Limits::new(Size::new(0, 0), Size::new(100, 100)));
    assert_eq!(n.bounds.width, 70);
}

#[test]
fn saturating_geometry_helpers() {
    assert_eq!(sat_add(u32::MAX - 1, 5), u32::MAX);
    assert_eq!(sat_add(2, 3), 5);
    assert_eq!(sat_sub(3, 5), 0);
    assert_eq!(sat_sub(5, 3), 2);
    assert_eq!(Point::new(1, 2).translate(Point::new(10, 20)), Point::new(11, 22));
    assert_eq!(Axis::Vertical.pack(7, 9), Size::new(9, 7));
    assert_eq!(Axis::Horizontal.pack(7, 9), Size::new(7, 9));
}
