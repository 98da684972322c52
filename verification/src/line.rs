//! Line-segment shape batches.

use vstd::prelude::*;

use crate::color::Color;
use crate::gpu_data::{batch_encoding, u32_le, push_u32_le, GpuBuffer, GpuSerializable};
use crate::layer::{
    inits_model, BufferInit, BufferInitModel, DrawCommand, DrawContext, Drawable, Layer,
    ShapeKind, VERTICES_PER_INSTANCE,
};

verus! {

/// One line-segment instance: endpoints, packed color, width.  The
/// geometry fields hold 32-bit float bit patterns; this crate stores and
/// serializes them without interpreting them.
#[derive(Clone, Copy, Debug, PartialEq, Eq)]
pub struct Line {
    /// Start point, as two float bit patterns.
    pub start: [u32; 2],
    /// End point, as two float bit patterns.
    pub end: [u32; 2],
    /// Packed RGBA color.
    pub color: Color,
    /// Stroke width, as a float bit pattern.
    pub width: u32,
}

impl GpuSerializable for Line {
    open spec fn size_spec() -> nat {
        24
    }

    open spec fn encoding(self) -> Seq<u8> {
        u32_le(self.start[0]) + u32_le(self.start[1]) + u32_le(self.end[0]) + u32_le(self.end[1])
            + u32_le(self.color.0) + u32_le(self.width)
    }

    proof fn encoding_len(self) {
    }

    fn record_size() -> (n: u32) {
        24
    }

    fn encode_one(&self) -> (b: Vec<u8>) {
        let mut b: Vec<u8> = Vec::new();
        push_u32_le(&mut b, self.start[0]);
        push_u32_le(&mut b, self.start[1]);
        push_u32_le(&mut b, self.end[0]);
        push_u32_le(&mut b, self.end[1]);
        push_u32_le(&mut b, self.color.0);
        push_u32_le(&mut b, self.width);
        b
    }
}

/// An immutable batch of line segments.
#[derive(Debug)]
pub struct LinesLayer {
    data: Vec<Line>,
}

impl LinesLayer {
    /// The segments in the batch, in draw order.
    pub closed spec fn shapes(&self) -> Seq<Line> {
        self.data@
    }

    /// Wrap a batch of line segments.
    pub fn new(data: Vec<Line>) -> (r: LinesLayer)
        requires
            data@.len() <= u32::MAX,
        ensures
            r.shapes() == data@,
            r.wf(),
    {
        LinesLayer { data }
    }
}

/// The realized form of a `LinesLayer`.
pub struct LinesLayerDrawable {
    /// Bookkeeping for the owned instance buffer.
    pub buffer: GpuBuffer<Line>,
    /// Index of that buffer among the host's created buffers.
    pub buffer_id: usize,
}

impl Drawable for LinesLayerDrawable {
    open spec fn commands(&self) -> Seq<DrawCommand> {
        seq![
            DrawCommand {
                kind: ShapeKind::Line,
                buffer: self.buffer_id,
                vertices: VERTICES_PER_INSTANCE,
                instances: self.buffer.model().num_items as u32,
            },
        ]
    }

    fn update(&mut self) {
    }

    fn draw(&self, out: &mut Vec<DrawCommand>) {
        out.push(
            DrawCommand {
                kind: ShapeKind::Line,
                buffer: self.buffer_id,
                vertices: VERTICES_PER_INSTANCE,
                instances: self.buffer.len(),
            },
        );
        proof {
            assert(out@ =~= old(out)@ + self.commands());
        }
    }
}

impl Layer for LinesLayer {
    type D = LinesLayerDrawable;

    open spec fn wf(&self) -> bool {
        self.shapes().len() <= u32::MAX
    }

    open spec fn planned_commands(&self, ctx: DrawContext, first_buffer: int) -> Seq<
        DrawCommand,
    > {
        seq![
            DrawCommand {
                kind: ShapeKind::Line,
                buffer: first_buffer as usize,
                vertices: VERTICES_PER_INSTANCE,
                instances: self.shapes().len() as u32,
            },
        ]
    }

    open spec fn planned_inits(&self, ctx: DrawContext) -> Seq<BufferInitModel> {
        seq![
            BufferInitModel { kind: ShapeKind::Line, bytes: batch_encoding(self.shapes()) },
        ]
    }

    open spec fn realized(&self, ctx: DrawContext, d: LinesLayerDrawable, first_buffer: int) -> bool {
        &&& d.buffer.wf()
        &&& d.buffer.model().contents == self.shapes()
        &&& d.buffer.model().num_items == self.shapes().len()
        &&& d.buffer.model().capacity == self.shapes().len()
        &&& d.buffer_id == first_buffer as usize
    }

    fn init_drawable(&self, ctx: &DrawContext, inits: &mut Vec<BufferInit>) -> (d:
        LinesLayerDrawable) {
        let id = inits.len();
        let (buffer, bytes) = GpuBuffer::new(self.data.as_slice());
        inits.push(BufferInit { kind: ShapeKind::Line, bytes });
        proof {
            assert(inits_model(inits@) =~= inits_model(old(inits)@) + self.planned_inits(*ctx));
        }
        LinesLayerDrawable { buffer, buffer_id: id }
    }
}

} // verus!
