//! Shape records, byte-exact serialization, layers, and the group
//! composition protocol.

use shape_layers::circle::{Circle, CirclesLayer};
use shape_layers::color::Color;
use shape_layers::gpu_data::{gpu_serialize, GpuSerializable};
use shape_layers::hairline::{Hairline, HairlinesLayer, Orientation};
use shape_layers::layer::{
    BufferInit, DrawCommand, DrawContext, Drawable, GenericLayer, GroupLayer, Layer, ShapeKind,
};
use shape_layers::line::{Line, LinesLayer};
use shape_layers::rectangle::{Rectangle, RectanglesLayer};

fn ctx() -> DrawContext {
    DrawContext { width: 600, height: 600 }
}

#[test]
fn color_packs_little_endian_rgba() {
    assert_eq!(Color::from_rgba(0x01, 0x02, 0x03, 0x04), Color(0x04030201));
    assert_eq!(Color::from_rgb(0x10, 0x20, 0x30), Color(0xff302010));
    assert_eq!(Color::from_rgba(0, 0, 0, 0), Color(0));
}

#[test]
fn circle_encodes_fields_in_order() {
    let c = Circle {
        position: [f32::to_bits(1.5), f32::to_bits(-2.0)],
        color: Color(0x11223344),
        radius: f32::to_bits(0.25),
    };
    let mut expected: Vec<u8> = Vec::new();
    expected.extend_from_slice(&1.5f32.to_le_bytes());
    expected.extend_from_slice(&(-2.0f32).to_le_bytes());
    expected.extend_from_slice(&0x11223344u32.to_le_bytes());
    expected.extend_from_slice(&0.25f32.to_le_bytes());
    assert_eq!(c.encode_one(), expected);
    assert_eq!(Circle::record_size(), 16);
}

#[test]
fn line_encodes_fields_in_order() {
    let l = Line {
        start: [f32::to_bits(0.0), f32::to_bits(1.0)],
        end: [f32::to_bits(2.0), f32::to_bits(3.0)],
        color: Color(0xdeadbeef),
        width: f32::to_bits(0.1),
    };
    let mut expected: Vec<u8> = Vec::new();
    for v in [0.0f32, 1.0, 2.0, 3.0] {
        expected.extend_from_slice(&v.to_le_bytes());
    }
    expected.extend_from_slice(&0xdeadbeefu32.to_le_bytes());
    expected.extend_from_slice(&0.1f32.to_le_bytes());
    assert_eq!(l.encode_one(), expected);
    assert_eq!(Line::record_size(), 24);
}

#[test]
fn rectangle_encodes_fields_in_order() {
    let r = Rectangle {
        upper_left: [f32::to_bits(-1.0), f32::to_bits(1.0)],
        bottom_right: [f32::to_bits(1.0), f32::to_bits(-1.0)],
        color: Color(0x01020304),
    };
    let mut expected: Vec<u8> = Vec::new();
    for v in [-1.0f32, 1.0, 1.0, -1.0] {
        expected.extend_from_slice(&v.to_le_bytes());
    }
    expected.extend_from_slice(&0x01020304u32.to_le_bytes());
    assert_eq!(r.encode_one(), expected);
    assert_eq!(Rectangle::record_size(), 20);
}

#[test]
fn hairline_encodes_orientation_code() {
    let h = Hairline {
        location: f32::to_bits(120.0),
        color: Color(0xff0000ff),
        width: f32::to_bits(0.004),
        orientation: Orientation::Horizontal,
    };
    let mut expected: Vec<u8> = Vec::new();
    expected.extend_from_slice(&120.0f32.to_le_bytes());
    expected.extend_from_slice(&0xff0000ffu32.to_le_bytes());
    expected.extend_from_slice(&0.004f32.to_le_bytes());
    expected.extend_from_slice(&1u32.to_le_bytes());
    assert_eq!(h.encode_one(), expected);
    let v = Hairline { orientation: Orientation::Vertical, ..h };
    assert_eq!(&v.encode_one()[12..16], &0u32.to_le_bytes());
}

#[test]
fn batch_serialization_concatenates() {
    let a = Circle { position: [1, 2], color: Color(3), radius: 4 };
    let b = Circle { position: [5, 6], color: Color(7), radius: 8 };
    let batch = vec![a, b];
    let mut expected = a.encode_one();
    expected.extend(b.encode_one());
    assert_eq!(gpu_serialize(&batch), expected);
}

#[test]
fn layer_realization_plans_one_buffer() {
    let circles = vec![
        Circle { position: [1, 2], color: Color(3), radius: 4 },
        Circle { position: [5, 6], color: Color(7), radius: 8 },
    ];
    let layer = CirclesLayer::new(circles.clone());
    let mut inits: Vec<BufferInit> = Vec::new();
    let drawable = layer.init_drawable(&ctx(), &mut inits);
    assert_eq!(inits.len(), 1);
    assert_eq!(inits[0].kind, ShapeKind::Circle);
    assert_eq!(inits[0].bytes, gpu_serialize(&circles));
    let mut commands: Vec<DrawCommand> = Vec::new();
    drawable.draw(&mut commands);
    assert_eq!(
        commands,
        vec![DrawCommand { kind: ShapeKind::Circle, buffer: 0, vertices: 6, instances: 2 }]
    );
}

#[test]
fn group_realizes_and_draws_in_insertion_order() {
    let circles = CirclesLayer::new(vec![Circle { position: [1, 2], color: Color(3), radius: 4 }]);
    let lines = LinesLayer::new(vec![
        Line { start: [1, 2], end: [3, 4], color: Color(5), width: 6 },
        Line { start: [7, 8], end: [9, 10], color: Color(11), width: 12 },
    ]);
    let rects = RectanglesLayer::new(vec![
        Rectangle { upper_left: [1, 2], bottom_right: [3, 4], color: Color(5) },
        Rectangle { upper_left: [6, 7], bottom_right: [8, 9], color: Color(10) },
        Rectangle { upper_left: [11, 12], bottom_right: [13, 14], color: Color(15) },
    ]);
    let hairs = HairlinesLayer::new(vec![Hairline {
        location: 1,
        color: Color(2),
        width: 3,
        orientation: Orientation::Vertical,
    }]);
    let group = GroupLayer::new(vec![
        GenericLayer::Circles(circles),
        GenericLayer::Lines(lines),
        GenericLayer::Rectangles(rects),
        GenericLayer::Hairlines(hairs),
    ]);
    let mut inits: Vec<BufferInit> = Vec::new();
    let mut drawable = group.init_drawable(&ctx(), &mut inits);
    let kinds: Vec<ShapeKind> = inits.iter().map(|b| b.kind).collect();
    assert_eq!(
        kinds,
        vec![ShapeKind::Circle, ShapeKind::Line, ShapeKind::Rectangle, ShapeKind::Hairline]
    );
    drawable.update();
    let mut commands: Vec<DrawCommand> = Vec::new();
    drawable.draw(&mut commands);
    assert_eq!(
        commands,
        vec![
            DrawCommand { kind: ShapeKind::Circle, buffer: 0, vertices: 6, instances: 1 },
            DrawCommand { kind: ShapeKind::Line, buffer: 1, vertices: 6, instances: 2 },
            DrawCommand { kind: ShapeKind::Rectangle, buffer: 2, vertices: 6, instances: 3 },
            DrawCommand { kind: ShapeKind::Hairline, buffer: 3, vertices: 6, instances: 1 },
        ]
    );
}

#[test]
fn realization_appends_after_existing_buffers() {
    let first = CirclesLayer::new(vec![Circle { position: [0, 0], color: Color(1), radius: 2 }]);
    let second = HairlinesLayer::new(vec![Hairline {
        location: 9,
        color: Color(8),
        width: 7,
        orientation: Orientation::Horizontal,
    }]);
    let mut inits: Vec<BufferInit> = Vec::new();
    let d1 = first.init_drawable(&ctx(), &mut inits);
    let d2 = second.init_drawable(&ctx(), &mut inits);
    let mut commands: Vec<DrawCommand> = Vec::new();
    d1.draw(&mut commands);
    d2.draw(&mut commands);
    assert_eq!(commands[0].buffer, 0);
    assert_eq!(commands[1].buffer, 1);
    assert_eq!(commands[1].kind, ShapeKind::Hairline);
}
