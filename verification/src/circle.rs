//! Circle shape batches.

use vstd::prelude::*;

use crate::color::Color;
use crate::gpu_data::{batch_encoding, u32_le, push_u32_le, GpuBuffer, GpuSerializable};
use crate::layer::{
    inits_model, BufferInit, BufferInitModel, DrawCommand, DrawContext, Drawable, Layer,
    ShapeKind, VERTICES_PER_INSTANCE,
};

verus! {

/// One circle instance: center position, packed color, radius.  The
/// geometry fields hold 32-bit float bit patterns; this crate stores and
/// serializes them without interpreting them.
#[derive(Clone, Copy, Debug, PartialEq, Eq)]
pub struct Circle {
    /// Center, as two float bit patterns.
    pub position: [u32; 2],
    /// Packed RGBA color.
    pub color: Color,
    /// Radius, as a float bit pattern.
    pub radius: u32,
}

impl GpuSerializable for Circle {
    open spec fn size_spec() -> nat {
        16
    }

    open spec fn encoding(self) -> Seq<u8> {
        u32_le(self.position[0]) + u32_le(self.position[1]) + u32_le(self.color.0) + u32_le(
            self.radius,
        )
    }

    proof fn encoding_len(self) {
    }

    fn record_size() -> (n: u32) {
        16
    }

    fn encode_one(&self) -> (b: Vec<u8>) {
        let mut b: Vec<u8> = Vec::new();
        push_u32_le(&mut b, self.position[0]);
        push_u32_le(&mut b, self.position[1]);
        push_u32_le(&mut b, self.color.0);
        push_u32_le(&mut b, self.radius);
        b
    }
}

/// An immutable batch of circles; realizing it creates one instance
/// buffer and one pipeline on the host.
#[derive(Debug)]
pub struct CirclesLayer {
    data: Vec<Circle>,
}

impl CirclesLayer {
    /// The circles in the batch, in draw order.
    pub closed spec fn shapes(&self) -> Seq<Circle> {
        self.data@
    }

    /// Wrap a batch of circles.
    pub fn new(data: Vec<Circle>) -> (r: CirclesLayer)
        requires
            data@.len() <= u32::MAX,
        ensures
            r.shapes() == data@,
            r.wf(),
    {
        CirclesLayer { data }
    }
}

/// The realized form of a `CirclesLayer`: it owns one instance buffer
/// (the matching pipeline lives with the host, keyed by the same buffer
/// index).
pub struct CirclesLayerDrawable {
    /// Bookkeeping for the owned instance buffer.
    pub buffer: GpuBuffer<Circle>,
    /// Index of that buffer among the host's created buffers.
    pub buffer_id: usize,
}

impl Drawable for CirclesLayerDrawable {
    open spec fn commands(&self) -> Seq<DrawCommand> {
        seq![
            DrawCommand {
                kind: ShapeKind::Circle,
                buffer: self.buffer_id,
                vertices: VERTICES_PER_INSTANCE,
                instances: self.buffer.model().num_items as u32,
            },
        ]
    }

    fn update(&mut self) {
    }

    fn draw(&self, out: &mut Vec<DrawCommand>) {
        out.push(
            DrawCommand {
                kind: ShapeKind::Circle,
                buffer: self.buffer_id,
                vertices: VERTICES_PER_INSTANCE,
                instances: self.buffer.len(),
            },
        );
        proof {
            assert(out@ =~= old(out)@ + self.commands());
        }
    }
}

impl Layer for CirclesLayer {
    type D = CirclesLayerDrawable;

    open spec fn wf(&self) -> bool {
        self.shapes().len() <= u32::MAX
    }

    open spec fn planned_commands(&self, ctx: DrawContext, first_buffer: int) -> Seq<
        DrawCommand,
    > {
        seq![
            DrawCommand {
                kind: ShapeKind::Circle,
                buffer: first_buffer as usize,
                vertices: VERTICES_PER_INSTANCE,
                instances: self.shapes().len() as u32,
            },
        ]
    }

    open spec fn planned_inits(&self, ctx: DrawContext) -> Seq<BufferInitModel> {
        seq![
            BufferInitModel { kind: ShapeKind::Circle, bytes: batch_encoding(self.shapes()) },
        ]
    }

    open spec fn realized(&self, ctx: DrawContext, d: CirclesLayerDrawable, first_buffer: int) -> bool {
        &&& d.buffer.wf()
        &&& d.buffer.model().contents == self.shapes()
        &&& d.buffer.model().num_items == self.shapes().len()
        &&& d.buffer.model().capacity == self.shapes().len()
        &&& d.buffer_id == first_buffer as usize
    }

    fn init_drawable(&self, ctx: &DrawContext, inits: &mut Vec<BufferInit>) -> (d:
        CirclesLayerDrawable) {
        let id = inits.len();
        let (buffer, bytes) = GpuBuffer::new(self.data.as_slice());
        inits.push(BufferInit { kind: ShapeKind::Circle, bytes });
        proof {
            assert(inits_model(inits@) =~= inits_model(old(inits)@) + self.planned_inits(
                *ctx,
            ));
        }
        CirclesLayerDrawable { buffer, buffer_id: id }
    }
}

} // verus!
