//! Axis-aligned hairline shape batches.

use vstd::prelude::*;

use crate::color::Color;
use crate::gpu_data::{batch_encoding, u32_le, push_u32_le, GpuBuffer, GpuSerializable};
use crate::layer::{
    inits_model, BufferInit, BufferInitModel, DrawCommand, DrawContext, Drawable, Layer,
    ShapeKind, VERTICES_PER_INSTANCE,
};

verus! {

/// Which axis a hairline runs along.
#[derive(Clone, Copy, Debug, PartialEq, Eq, Structural)]
pub enum Orientation {
    Vertical,
    Horizontal,
}

/// The 32-bit code a hairline's orientation is serialized as.
pub open spec fn orientation_code(o: Orientation) -> u32 {
    match o {
        Orientation::Vertical => 0,
        Orientation::Horizontal => 1,
    }
}

/// One hairline instance: a full-viewport-length axis-aligned line at a
/// fixed device coordinate.  The `location` and `width` fields hold
/// 32-bit float bit patterns; this crate stores and serializes them
/// without interpreting them.
#[derive(Clone, Copy, Debug, PartialEq, Eq, Structural)]
pub struct Hairline {
    /// Position along the crossing axis, as a float bit pattern.
    pub location: u32,
    /// Packed RGBA color.
    pub color: Color,
    /// Stroke width, as a float bit pattern.
    pub width: u32,
    /// Which axis the line runs along.
    pub orientation: Orientation,
}

impl GpuSerializable for Hairline {
    open spec fn size_spec() -> nat {
        16
    }

    open spec fn encoding(self) -> Seq<u8> {
        u32_le(self.location) + u32_le(self.color.0) + u32_le(self.width) + u32_le(
            orientation_code(self.orientation),
        )
    }

    proof fn encoding_len(self) {
    }

    fn record_size() -> (n: u32) {
        16
    }

    fn encode_one(&self) -> (b: Vec<u8>) {
        let mut b: Vec<u8> = Vec::new();
        push_u32_le(&mut b, self.location);
        push_u32_le(&mut b, self.color.0);
        push_u32_le(&mut b, self.width);
        let code: u32 = match self.orientation {
            Orientation::Vertical => 0,
            Orientation::Horizontal => 1,
        };
        push_u32_le(&mut b, code);
        b
    }
}

/// An immutable batch of hairlines.
#[derive(Debug)]
pub struct HairlinesLayer {
    data: Vec<Hairline>,
}

impl HairlinesLayer {
    /// The hairlines in the batch, in draw order.
    pub closed spec fn shapes(&self) -> Seq<Hairline> {
        self.data@
    }

    /// Wrap a batch of hairlines.
    pub fn new(data: Vec<Hairline>) -> (r: HairlinesLayer)
        requires
            data@.len() <= u32::MAX,
        ensures
            r.shapes() == data@,
            r.wf(),
    {
        HairlinesLayer { data }
    }
}

/// The realized form of a `HairlinesLayer`.
pub struct HairlinesLayerDrawable {
    /// Bookkeeping for the owned instance buffer.
    pub buffer: GpuBuffer<Hairline>,
    /// Index of that buffer among the host's created buffers.
    pub buffer_id: usize,
}

impl Drawable for HairlinesLayerDrawable {
    open spec fn commands(&self) -> Seq<DrawCommand> {
        seq![
            DrawCommand {
                kind: ShapeKind::Hairline,
                buffer: self.buffer_id,
                vertices: VERTICES_PER_INSTANCE,
                instances: self.buffer.model().num_items as u32,
            },
        ]
    }

    fn update(&mut self) {
    }

    fn draw(&self, out: &mut Vec<DrawCommand>) {
        out.push(
            DrawCommand {
                kind: ShapeKind::Hairline,
                buffer: self.buffer_id,
                vertices: VERTICES_PER_INSTANCE,
                instances: self.buffer.len(),
            },
        );
        proof {
            assert(out@ =~= old(out)@ + self.commands());
        }
    }
}

impl Layer for HairlinesLayer {
    type D = HairlinesLayerDrawable;

    open spec fn wf(&self) -> bool {
        self.shapes().len() <= u32::MAX
    }

    open spec fn planned_commands(&self, ctx: DrawContext, first_buffer: int) -> Seq<
        DrawCommand,
    > {
        seq![
            DrawCommand {
                kind: ShapeKind::Hairline,
                buffer: first_buffer as usize,
                vertices: VERTICES_PER_INSTANCE,
                instances: self.shapes().len() as u32,
            },
        ]
    }

    open spec fn planned_inits(&self, ctx: DrawContext) -> Seq<BufferInitModel> {
        seq![
            BufferInitModel { kind: ShapeKind::Hairline, bytes: batch_encoding(self.shapes()) },
        ]
    }

    open spec fn realized(&self, ctx: DrawContext, d: HairlinesLayerDrawable, first_buffer: int) -> bool {
        &&& d.buffer.wf()
        &&& d.buffer.model().contents == self.shapes()
        &&& d.buffer.model().num_items == self.shapes().len()
        &&& d.buffer.model().capacity == self.shapes().len()
        &&& d.buffer_id == first_buffer as usize
    }

    fn init_drawable(&self, ctx: &DrawContext, inits: &mut Vec<BufferInit>) -> (d:
        HairlinesLayerDrawable) {
        let id = inits.len();
        let (buffer, bytes) = GpuBuffer::new(self.data.as_slice());
        inits.push(BufferInit { kind: ShapeKind::Hairline, bytes });
        proof {
            assert(inits_model(inits@) =~= inits_model(old(inits)@) + self.planned_inits(*ctx));
        }
        HairlinesLayerDrawable { buffer, buffer_id: id }
    }
}

} // verus!
