//! Axis-aligned rectangle shape batches.

use vstd::prelude::*;

use crate::color::Color;
use crate::gpu_data::{batch_encoding, u32_le, push_u32_le, GpuBuffer, GpuSerializable};
use crate::layer::{
    inits_model, BufferInit, BufferInitModel, DrawCommand, DrawContext, Drawable, Layer,
    ShapeKind, VERTICES_PER_INSTANCE,
};

verus! {

/// One rectangle instance: two opposite corners and a packed color.  The
/// geometry fields hold 32-bit float bit patterns; this crate stores and
/// serializes them without interpreting them.
#[derive(Clone, Copy, Debug, PartialEq, Eq)]
pub struct Rectangle {
    /// Upper-left corner, as two float bit patterns.
    pub upper_left: [u32; 2],
    /// Bottom-right corner, as two float bit patterns.
    pub bottom_right: [u32; 2],
    /// Packed RGBA color.
    pub color: Color,
}

impl GpuSerializable for Rectangle {
    open spec fn size_spec() -> nat {
        20
    }

    open spec fn encoding(self) -> Seq<u8> {
        u32_le(self.upper_left[0]) + u32_le(self.upper_left[1]) + u32_le(self.bottom_right[0])
            + u32_le(self.bottom_right[1]) + u32_le(self.color.0)
    }

    proof fn encoding_len(self) {
    }

    fn record_size() -> (n: u32) {
        20
    }

    fn encode_one(&self) -> (b: Vec<u8>) {
        let mut b: Vec<u8> = Vec::new();
        push_u32_le(&mut b, self.upper_left[0]);
        push_u32_le(&mut b, self.upper_left[1]);
        push_u32_le(&mut b, self.bottom_right[0]);
        push_u32_le(&mut b, self.bottom_right[1]);
        push_u32_le(&mut b, self.color.0);
        b
    }
}

/// An immutable batch of rectangles.
#[derive(Debug)]
pub struct RectanglesLayer {
    data: Vec<Rectangle>,
}

impl RectanglesLayer {
    /// The rectangles in the batch, in draw order.
    pub closed spec fn shapes(&self) -> Seq<Rectangle> {
        self.data@
    }

    /// Wrap a batch of rectangles.
    pub fn new(data: Vec<Rectangle>) -> (r: RectanglesLayer)
        requires
            data@.len() <= u32::MAX,
        ensures
            r.shapes() == data@,
            r.wf(),
    {
        RectanglesLayer { data }
    }
}

/// The realized form of a `RectanglesLayer`.
pub struct RectanglesLayerDrawable {
    /// Bookkeeping for the owned instance buffer.
    pub buffer: GpuBuffer<Rectangle>,
    /// Index of that buffer among the host's created buffers.
    pub buffer_id: usize,
}

impl Drawable for RectanglesLayerDrawable {
    open spec fn commands(&self) -> Seq<DrawCommand> {
        seq![
            DrawCommand {
                kind: ShapeKind::Rectangle,
                buffer: self.buffer_id,
                vertices: VERTICES_PER_INSTANCE,
                instances: self.buffer.model().num_items as u32,
            },
        ]
    }

    fn update(&mut self) {
    }

    fn draw(&self, out: &mut Vec<DrawCommand>) {
        out.push(
            DrawCommand {
                kind: ShapeKind::Rectangle,
                buffer: self.buffer_id,
                vertices: VERTICES_PER_INSTANCE,
                instances: self.buffer.len(),
            },
        );
        proof {
            assert(out@ =~= old(out)@ + self.commands());
        }
    }
}

impl Layer for RectanglesLayer {
    type D = RectanglesLayerDrawable;

    open spec fn wf(&self) -> bool {
        self.shapes().len() <= u32::MAX
    }

    open spec fn planned_commands(&self, ctx: DrawContext, first_buffer: int) -> Seq<
        DrawCommand,
    > {
        seq![
            DrawCommand {
                kind: ShapeKind::Rectangle,
                buffer: first_buffer as usize,
                vertices: VERTICES_PER_INSTANCE,
                instances: self.shapes().len() as u32,
            },
        ]
    }

    open spec fn planned_inits(&self, ctx: DrawContext) -> Seq<BufferInitModel> {
        seq![
            BufferInitModel { kind: ShapeKind::Rectangle, bytes: batch_encoding(self.shapes()) },
        ]
    }

    open spec fn realized(&self, ctx: DrawContext, d: RectanglesLayerDrawable, first_buffer: int) -> bool {
        &&& d.buffer.wf()
        &&& d.buffer.model().contents == self.shapes()
        &&& d.buffer.model().num_items == self.shapes().len()
        &&& d.buffer.model().capacity == self.shapes().len()
        &&& d.buffer_id == first_buffer as usize
    }

    fn init_drawable(&self, ctx: &DrawContext, inits: &mut Vec<BufferInit>) -> (d:
        RectanglesLayerDrawable) {
        let id = inits.len();
        let (buffer, bytes) = GpuBuffer::new(self.data.as_slice());
        inits.push(BufferInit { kind: ShapeKind::Rectangle, bytes });
        proof {
            assert(inits_model(inits@) =~= inits_model(old(inits)@) + self.planned_inits(*ctx));
        }
        RectanglesLayerDrawable { buffer, buffer_id: id }
    }
}

} // verus!
