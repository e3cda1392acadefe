use drawing_gl::display_list::{DisplayListBuilder, DrawStyle, Primitive};

fn leaves(list: &Vec<Primitive<u32, &'static str>>) -> Vec<u32> {
    let mut out = Vec::new();
    for p in list {
        match p {
            Primitive::Draw(l) => out.push(*l),
            Primitive::Group { primitives, .. } => out.extend(leaves(primitives)),
        }
    }
    out
}

#[test]
fn new_builder_has_one_frame_and_builds_empty() {
    let mut b: DisplayListBuilder<u32, &'static str> = DisplayListBuilder::new();
    assert_eq!(b.get_save_count(), 1);
    let list = b.build().unwrap();
    assert!(list.display_list.is_empty());
}

#[test]
fn draws_go_to_the_bottom_frame_in_order() {
    let mut b: DisplayListBuilder<u32, &'static str> = DisplayListBuilder::new();
    b.draw(1);
    b.draw(2);
    b.draw(3);
    assert_eq!(b.get_save_count(), 1);
    let list = b.build().unwrap();
    assert_eq!(leaves(&list.display_list), vec![1, 2, 3]);
    assert!(matches!(list.display_list[0], Primitive::Draw(1)));
}

#[test]
fn save_then_restore_is_transparent() {
    let mut b: DisplayListBuilder<u32, &'static str> = DisplayListBuilder::new();
    b.draw(1);
    b.save();
    assert_eq!(b.get_save_count(), 2);
    b.draw(2);
    b.draw(3);
    b.restore();
    assert_eq!(b.get_save_count(), 1);
    let list = b.build().unwrap();
    assert_eq!(list.display_list.len(), 3);
    assert_eq!(leaves(&list.display_list), vec![1, 2, 3]);
}

#[test]
fn restore_wraps_transform_frames_into_groups() {
    let mut b: DisplayListBuilder<u32, &'static str> = DisplayListBuilder::new();
    b.save();
    b.push_group("translate");
    b.push_group("clip");
    b.draw(7);
    assert_eq!(b.get_save_count(), 4);
    b.restore();
    assert_eq!(b.get_save_count(), 1);
    let list = b.build().unwrap();
    assert_eq!(list.display_list.len(), 1);
    match &list.display_list[0] {
        Primitive::Group { attr, primitives } => {
            assert_eq!(*attr, "translate");
            assert_eq!(primitives.len(), 1);
            match &primitives[0] {
                Primitive::Group { attr, primitives } => {
                    assert_eq!(*attr, "clip");
                    assert!(matches!(primitives[0], Primitive::Draw(7)));
                }
                _ => panic!("expected the clip group"),
            }
        }
        _ => panic!("expected the translate group"),
    }
}

#[test]
fn restore_without_restore_point_folds_into_start() {
    let mut b: DisplayListBuilder<u32, &'static str> = DisplayListBuilder::new();
    b.draw(1);
    b.push_group("scale");
    b.draw(2);
    b.restore();
    assert_eq!(b.get_save_count(), 1);
    let list = b.build().unwrap();
    assert_eq!(list.display_list.len(), 2);
    assert!(matches!(list.display_list[1], Primitive::Group { attr: "scale", .. }));
    assert_eq!(leaves(&list.display_list), vec![1, 2]);
}

#[test]
fn restore_on_the_start_frame_does_nothing() {
    let mut b: DisplayListBuilder<u32, &'static str> = DisplayListBuilder::new();
    b.draw(4);
    b.restore();
    b.restore();
    assert_eq!(b.get_save_count(), 1);
    let list = b.build().unwrap();
    assert_eq!(leaves(&list.display_list), vec![4]);
}

#[test]
fn save_layer_then_restore_appends_one_group() {
    let mut b: DisplayListBuilder<u32, &'static str> = DisplayListBuilder::new();
    b.draw(1);
    b.save_layer("layer");
    assert_eq!(b.get_save_count(), 3);
    b.draw(2);
    b.draw(3);
    b.restore();
    assert_eq!(b.get_save_count(), 1);
    let list = b.build().unwrap();
    assert_eq!(list.display_list.len(), 2);
    match &list.display_list[1] {
        Primitive::Group { attr, primitives } => {
            assert_eq!(*attr, "layer");
            assert_eq!(leaves(primitives), vec![2, 3]);
        }
        _ => panic!("expected the layer group"),
    }
}

#[test]
fn restore_stops_at_the_topmost_restore_point() {
    let mut b: DisplayListBuilder<u32, &'static str> = DisplayListBuilder::new();
    b.save();
    b.push_group("outer");
    b.save();
    b.push_group("inner");
    b.draw(9);
    assert_eq!(b.get_save_count(), 5);
    b.restore();
    assert_eq!(b.get_save_count(), 3);
    b.restore();
    assert_eq!(b.get_save_count(), 1);
    let list = b.build().unwrap();
    assert_eq!(leaves(&list.display_list), vec![9]);
}

#[test]
fn build_returns_the_innermost_open_frame() {
    let mut b: DisplayListBuilder<u32, &'static str> = DisplayListBuilder::new();
    b.draw(1);
    b.push_group("clip");
    b.draw(2);
    let list = b.build().unwrap();
    assert_eq!(leaves(&list.display_list), vec![2]);
}

#[test]
fn draw_path_follows_the_draw_style() {
    let mut b: DisplayListBuilder<u32, &'static str> = DisplayListBuilder::new();
    b.draw_path(DrawStyle::Fill, 10, 11);
    b.draw_path(DrawStyle::Stroke, 20, 21);
    b.draw_path(DrawStyle::StrokeAndFill, 30, 31);
    let list = b.build().unwrap();
    assert_eq!(leaves(&list.display_list), vec![10, 21, 30, 31]);
}
