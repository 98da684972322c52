//! The layer/drawable composition protocol.
//!
//! A `Layer` is an immutable shape-batch descriptor; realizing it yields a
//! `Drawable` that owns GPU resources.  Realization and drawing are split
//! from the device: realizing returns the list of instance buffers the
//! host must create (with their initial bytes), and drawing records an
//! ordered list of draw commands the host replays against its pipelines
//! and buffers.  A group variant composes heterogeneous children behind
//! the same interface, forwarding update and draw to every child in
//! insertion order, with no early termination and no reordering.

use vstd::prelude::*;

use crate::circle::{CirclesLayer, CirclesLayerDrawable};
use crate::hairline::{HairlinesLayer, HairlinesLayerDrawable};
use crate::line::{LinesLayer, LinesLayerDrawable};
use crate::rectangle::{RectanglesLayer, RectanglesLayerDrawable};

verus! {

/// Every instanced shape is drawn as one six-vertex quad per instance.
pub const VERTICES_PER_INSTANCE: u32 = 6;

/// Which fixed pipeline a buffer or command belongs to.
#[derive(Clone, Copy, Debug, PartialEq, Eq, Structural)]
pub enum ShapeKind {
    Circle,
    Line,
    Rectangle,
    Hairline,
}

/// What a layer needs to realize itself: the current swap-target size in
/// pixels.
#[derive(Clone, Copy, Debug, PartialEq, Eq, Structural)]
pub struct DrawContext {
    pub width: u32,
    pub height: u32,
}

/// One instance buffer the host must create while realizing a layer: its
/// pipeline kind and its initial contents, already serialized.
#[derive(Debug)]
pub struct BufferInit {
    /// The pipeline family that will read this buffer.
    pub kind: ShapeKind,
    /// The bytes to upload at creation.
    pub bytes: Vec<u8>,
}

/// The specification-level content of a `BufferInit`.
pub ghost struct BufferInitModel {
    pub kind: ShapeKind,
    pub bytes: Seq<u8>,
}

/// The specification-level content of one `BufferInit`.
pub open spec fn init_model(b: BufferInit) -> BufferInitModel {
    BufferInitModel { kind: b.kind, bytes: b.bytes@ }
}

/// The specification-level contents of a buffer-init list.
pub open spec fn inits_model(s: Seq<BufferInit>) -> Seq<BufferInitModel> {
    s.map_values(|b: BufferInit| init_model(b))
}

/// One instanced draw call: bind the pipeline for `kind`, bind buffer
/// number `buffer`, and draw `vertices` vertices replicated `instances`
/// times.
#[derive(Clone, Copy, Debug, PartialEq, Eq, Structural)]
pub struct DrawCommand {
    /// The pipeline family to bind.
    pub kind: ShapeKind,
    /// Index of the instance buffer to bind, in creation order.
    pub buffer: usize,
    /// Vertices per instance.
    pub vertices: u32,
    /// Number of instances to draw.
    pub instances: u32,
}

/// A realized GPU-resource owner with a per-frame update hook and a
/// mandatory draw.
pub trait Drawable: Sized {
    /// The ordered draw commands this drawable records each frame.
    spec fn commands(&self) -> Seq<DrawCommand>;

    /// Optional per-frame hook, called once before `draw`; it never
    /// changes what the drawable draws.
    fn update(&mut self)
        ensures
            final(self).commands() == old(self).commands(),
    ;

    /// Record this drawable's commands, in order, after what `out`
    /// already holds.
    fn draw(&self, out: &mut Vec<DrawCommand>)
        ensures
            final(out)@ == old(out)@ + self.commands(),
    ;
}

/// An immutable shape-batch descriptor that can be realized into a
/// drawable.
pub trait Layer: Sized {
    /// The drawable this layer realizes into.
    type D: Drawable;

    /// Validity of the descriptor (batch sizes fit the instance counter).
    spec fn wf(&self) -> bool;

    /// The draw commands the realized drawable will record, given the
    /// index its first created buffer receives.
    spec fn planned_commands(&self, ctx: DrawContext, first_buffer: int) -> Seq<DrawCommand>;

    /// The instance buffers realization creates, in creation order.
    spec fn planned_inits(&self, ctx: DrawContext) -> Seq<BufferInitModel>;

    /// What realization guarantees of the returned drawable itself,
    /// given the index its first created buffer receives; each
    /// implementation states this openly (for a shape layer: its buffer
    /// is well formed, holds exactly the batch at full capacity, and is
    /// bound to the allotted index).
    spec fn realized(&self, ctx: DrawContext, d: Self::D, first_buffer: int) -> bool;

    /// Realize the layer: append the instance buffers to create to
    /// `inits` and return the drawable, whose commands refer to those
    /// buffers by their position in `inits`.
    fn init_drawable(&self, ctx: &DrawContext, inits: &mut Vec<BufferInit>) -> (d: Self::D)
        requires
            self.wf(),
        ensures
            inits_model(final(inits)@) == inits_model(old(inits)@) + self.planned_inits(*ctx),
            d.commands() == self.planned_commands(*ctx, old(inits)@.len() as int),
            self.realized(*ctx, d, old(inits)@.len() as int),
    ;
}

// ---------------------------------------------------------------------------
// Heterogeneous layers and drawables.
// ---------------------------------------------------------------------------

/// A shape-batch descriptor of any kind, behind one flat interface.
#[derive(Debug)]
pub enum GenericLayer {
    Circles(CirclesLayer),
    Lines(LinesLayer),
    Rectangles(RectanglesLayer),
    Hairlines(HairlinesLayer),
}

/// A realized drawable of any kind, behind one flat interface.
pub enum GenericDrawable {
    Circles(CirclesLayerDrawable),
    Lines(LinesLayerDrawable),
    Rectangles(RectanglesLayerDrawable),
    Hairlines(HairlinesLayerDrawable),
}

impl Drawable for GenericDrawable {
    open spec fn commands(&self) -> Seq<DrawCommand> {
        match self {
            GenericDrawable::Circles(d) => d.commands(),
            GenericDrawable::Lines(d) => d.commands(),
            GenericDrawable::Rectangles(d) => d.commands(),
            GenericDrawable::Hairlines(d) => d.commands(),
        }
    }

    fn update(&mut self) {
        match self {
            GenericDrawable::Circles(d) => d.update(),
            GenericDrawable::Lines(d) => d.update(),
            GenericDrawable::Rectangles(d) => d.update(),
            GenericDrawable::Hairlines(d) => d.update(),
        }
    }

    fn draw(&self, out: &mut Vec<DrawCommand>) {
        match self {
            GenericDrawable::Circles(d) => d.draw(out),
            GenericDrawable::Lines(d) => d.draw(out),
            GenericDrawable::Rectangles(d) => d.draw(out),
            GenericDrawable::Hairlines(d) => d.draw(out),
        }
    }
}

impl Layer for GenericLayer {
    type D = GenericDrawable;

    open spec fn wf(&self) -> bool {
        match self {
            GenericLayer::Circles(l) => l.wf(),
            GenericLayer::Lines(l) => l.wf(),
            GenericLayer::Rectangles(l) => l.wf(),
            GenericLayer::Hairlines(l) => l.wf(),
        }
    }

    open spec fn planned_commands(&self, ctx: DrawContext, first_buffer: int) -> Seq<DrawCommand> {
        match self {
            GenericLayer::Circles(l) => l.planned_commands(ctx, first_buffer),
            GenericLayer::Lines(l) => l.planned_commands(ctx, first_buffer),
            GenericLayer::Rectangles(l) => l.planned_commands(ctx, first_buffer),
            GenericLayer::Hairlines(l) => l.planned_commands(ctx, first_buffer),
        }
    }

    open spec fn planned_inits(&self, ctx: DrawContext) -> Seq<BufferInitModel> {
        match self {
            GenericLayer::Circles(l) => l.planned_inits(ctx),
            GenericLayer::Lines(l) => l.planned_inits(ctx),
            GenericLayer::Rectangles(l) => l.planned_inits(ctx),
            GenericLayer::Hairlines(l) => l.planned_inits(ctx),
        }
    }

    open spec fn realized(&self, ctx: DrawContext, d: GenericDrawable, first_buffer: int) -> bool {
        match self {
            GenericLayer::Circles(l) => match d {
                GenericDrawable::Circles(dd) => l.realized(ctx, dd, first_buffer),
                _ => false,
            },
            GenericLayer::Lines(l) => match d {
                GenericDrawable::Lines(dd) => l.realized(ctx, dd, first_buffer),
                _ => false,
            },
            GenericLayer::Rectangles(l) => match d {
                GenericDrawable::Rectangles(dd) => l.realized(ctx, dd, first_buffer),
                _ => false,
            },
            GenericLayer::Hairlines(l) => match d {
                GenericDrawable::Hairlines(dd) => l.realized(ctx, dd, first_buffer),
                _ => false,
            },
        }
    }

    fn init_drawable(&self, ctx: &DrawContext, inits: &mut Vec<BufferInit>) -> (d:
        GenericDrawable) {
        match self {
            GenericLayer::Circles(l) => GenericDrawable::Circles(l.init_drawable(ctx, inits)),
            GenericLayer::Lines(l) => GenericDrawable::Lines(l.init_drawable(ctx, inits)),
            GenericLayer::Rectangles(l) => GenericDrawable::Rectangles(
                l.init_drawable(ctx, inits),
            ),
            GenericLayer::Hairlines(l) => GenericDrawable::Hairlines(l.init_drawable(ctx, inits)),
        }
    }
}

// ---------------------------------------------------------------------------
// The group composite.
// ---------------------------------------------------------------------------

/// The commands of a drawable sequence, concatenated in order.
pub open spec fn group_commands(ds: Seq<GenericDrawable>) -> Seq<DrawCommand>
    decreases ds.len(),
{
    if ds.len() == 0 {
        Seq::empty()
    } else {
        ds.first().commands() + group_commands(ds.drop_first())
    }
}

/// The planned commands of a layer sequence realized in order, with
/// buffer indices starting at `first_buffer`.
pub open spec fn group_planned_commands(
    layers: Seq<GenericLayer>,
    ctx: DrawContext,
    first_buffer: int,
) -> Seq<DrawCommand>
    decreases layers.len(),
{
    if layers.len() == 0 {
        Seq::empty()
    } else {
        layers.first().planned_commands(ctx, first_buffer) + group_planned_commands(
            layers.drop_first(),
            ctx,
            first_buffer + layers.first().planned_inits(ctx).len(),
        )
    }
}

/// The planned buffer creations of a layer sequence realized in order.
pub open spec fn group_planned_inits(layers: Seq<GenericLayer>, ctx: DrawContext) -> Seq<
    BufferInitModel,
>
    decreases layers.len(),
{
    if layers.len() == 0 {
        Seq::empty()
    } else {
        layers.first().planned_inits(ctx) + group_planned_inits(layers.drop_first(), ctx)
    }
}

/// Appending a drawable appends its commands.
proof fn lemma_group_commands_push(ds: Seq<GenericDrawable>, x: GenericDrawable)
    ensures
        group_commands(ds.push(x)) == group_commands(ds) + x.commands(),
    decreases ds.len(),
{
    if ds.len() == 0 {
        assert(ds.push(x).first() == x);
        assert(ds.push(x).drop_first() =~= Seq::<GenericDrawable>::empty());
        assert(group_commands(ds.push(x).drop_first()) =~= Seq::<DrawCommand>::empty());
        assert(group_commands(ds) =~= Seq::<DrawCommand>::empty());
        assert(group_commands(ds.push(x)) == ds.push(x).first().commands() + group_commands(
            ds.push(x).drop_first(),
        ));
        assert(group_commands(ds.push(x)) =~= group_commands(ds) + x.commands());
    } else {
        assert(ds.push(x).first() == ds.first());
        assert(ds.push(x).drop_first() =~= ds.drop_first().push(x));
        lemma_group_commands_push(ds.drop_first(), x);
        assert(group_commands(ds.push(x)) =~= group_commands(ds) + x.commands());
    }
}

/// Realization guarantees of a layer sequence realized in order: the
/// drawables correspond one to one, and each child is realized at the
/// buffer index following its predecessors' buffers.
pub open spec fn group_realized(
    layers: Seq<GenericLayer>,
    ds: Seq<GenericDrawable>,
    ctx: DrawContext,
    first_buffer: int,
) -> bool
    decreases layers.len(),
{
    if layers.len() == 0 {
        ds.len() == 0
    } else {
        &&& ds.len() == layers.len()
        &&& layers.first().realized(ctx, ds.first(), first_buffer)
        &&& group_realized(
            layers.drop_first(),
            ds.drop_first(),
            ctx,
            first_buffer + layers.first().planned_inits(ctx).len(),
        )
    }
}

/// Appending a layer appends its planned buffer creations.
proof fn lemma_group_planned_inits_push(layers: Seq<GenericLayer>, l: GenericLayer, ctx: DrawContext)
    ensures
        group_planned_inits(layers.push(l), ctx) == group_planned_inits(layers, ctx)
            + l.planned_inits(ctx),
    decreases layers.len(),
{
    if layers.len() == 0 {
        assert(layers.push(l).first() == l);
        assert(layers.push(l).drop_first() =~= Seq::<GenericLayer>::empty());
        assert(group_planned_inits(layers.push(l).drop_first(), ctx) =~= Seq::<
            BufferInitModel,
        >::empty());
        assert(group_planned_inits(layers, ctx) =~= Seq::<BufferInitModel>::empty());
        assert(group_planned_inits(layers.push(l), ctx) == layers.push(l).first().planned_inits(
            ctx,
        ) + group_planned_inits(layers.push(l).drop_first(), ctx));
        assert(group_planned_inits(layers.push(l), ctx) =~= group_planned_inits(layers, ctx)
            + l.planned_inits(ctx));
    } else {
        assert(layers.push(l).first() == layers.first());
        assert(layers.push(l).drop_first() =~= layers.drop_first().push(l));
        lemma_group_planned_inits_push(layers.drop_first(), l, ctx);
        assert(group_planned_inits(layers.push(l), ctx) == layers.first().planned_inits(ctx) + (
        group_planned_inits(layers.drop_first(), ctx) + l.planned_inits(ctx)));
        assert(group_planned_inits(layers, ctx) == layers.first().planned_inits(ctx)
            + group_planned_inits(layers.drop_first(), ctx));
        assert(group_planned_inits(layers.push(l), ctx) =~= group_planned_inits(layers, ctx)
            + l.planned_inits(ctx));
    }
}

/// Extending a realized prefix with one more realized child keeps the
/// whole prefix realized.
proof fn lemma_group_realized_push(
    layers: Seq<GenericLayer>,
    ds: Seq<GenericDrawable>,
    l: GenericLayer,
    d: GenericDrawable,
    ctx: DrawContext,
    first_buffer: int,
)
    requires
        group_realized(layers, ds, ctx, first_buffer),
        l.realized(ctx, d, first_buffer + group_planned_inits(layers, ctx).len()),
    ensures
        group_realized(layers.push(l), ds.push(d), ctx, first_buffer),
    decreases layers.len(),
{
    if layers.len() == 0 {
        assert(layers.push(l).first() == l);
        assert(ds.push(d).first() == d);
        assert(layers.push(l).drop_first() =~= Seq::<GenericLayer>::empty());
        assert(ds.push(d).drop_first() =~= Seq::<GenericDrawable>::empty());
        assert(group_planned_inits(layers, ctx) =~= Seq::<BufferInitModel>::empty());
        assert(l.realized(ctx, d, first_buffer));
        assert(group_realized(
            layers.push(l).drop_first(),
            ds.push(d).drop_first(),
            ctx,
            first_buffer + layers.push(l).first().planned_inits(ctx).len(),
        ));
    } else {
        assert(layers.push(l).first() == layers.first());
        assert(ds.push(d).first() == ds.first());
        assert(layers.push(l).drop_first() =~= layers.drop_first().push(l));
        assert(ds.push(d).drop_first() =~= ds.drop_first().push(d));
        lemma_group_realized_push(
            layers.drop_first(),
            ds.drop_first(),
            l,
            d,
            ctx,
            first_buffer + layers.first().planned_inits(ctx).len(),
        );
    }
}

/// Two drawable sequences whose elements draw the same commands draw the
/// same commands as a whole.
proof fn lemma_group_commands_pointwise(a: Seq<GenericDrawable>, b: Seq<GenericDrawable>)
    requires
        a.len() == b.len(),
        forall|j: int| 0 <= j < a.len() ==> (#[trigger] a[j]).commands() == b[j].commands(),
    ensures
        group_commands(a) == group_commands(b),
    decreases a.len(),
{
    if a.len() == 0 {
        assert(group_commands(a) =~= group_commands(b));
    } else {
        assert(a.first().commands() == b.first().commands());
        assert(forall|j: int|
            0 <= j < a.drop_first().len() ==> (#[trigger] a.drop_first()[j]).commands()
                == b.drop_first()[j].commands()) by {
            assert(forall|j: int|
                0 <= j < a.drop_first().len() ==> #[trigger] a.drop_first()[j] == a[j + 1]
                    && b.drop_first()[j] == b[j + 1]);
        }
        lemma_group_commands_pointwise(a.drop_first(), b.drop_first());
    }
}

/// An ordered collection of heterogeneous layers behind the layer
/// interface.
#[derive(Debug)]
pub struct GroupLayer {
    layers: Vec<GenericLayer>,
}

impl GroupLayer {
    /// The children, in insertion order.
    pub closed spec fn children(&self) -> Seq<GenericLayer> {
        self.layers@
    }

    /// Wrap an ordered collection of layers.
    pub fn new(layers: Vec<GenericLayer>) -> (r: GroupLayer)
        ensures
            r.children() == layers@,
    {
        GroupLayer { layers }
    }
}

/// The realized form of a `GroupLayer`: the children's drawables, in
/// insertion order.
pub struct GroupLayerDrawable {
    drawables: Vec<GenericDrawable>,
}

impl GroupLayerDrawable {
    /// The children's drawables, in insertion order.
    pub closed spec fn children(&self) -> Seq<GenericDrawable> {
        self.drawables@
    }
}

impl Drawable for GroupLayerDrawable {
    open spec fn commands(&self) -> Seq<DrawCommand> {
        group_commands(self.children())
    }

    /// Forward the update hook to every child, in insertion order.
    fn update(&mut self) {
        let n = self.drawables.len();
        let mut i: usize = 0;
        while i < n
            invariant
                i <= n,
                n == self.drawables@.len(),
                self.drawables@.len() == old(self).drawables@.len(),
                forall|j: int|
                    0 <= j < n ==> (#[trigger] self.drawables@[j]).commands() == old(
                        self,
                    ).drawables@[j].commands(),
            decreases n - i,
        {
            let d = &mut self.drawables[i];
            d.update();
            i = i + 1;
        }
        proof {
            lemma_group_commands_pointwise(self.drawables@, old(self).drawables@);
        }
    }

    /// Forward draw to every child, in insertion order, with no early
    /// termination and no reordering.
    fn draw(&self, out: &mut Vec<DrawCommand>) {
        let n = self.drawables.len();
        let mut i: usize = 0;
        proof {
            assert(self.drawables@.skip(0) =~= self.drawables@);
        }
        while i < n
            invariant
                i <= n,
                n == self.drawables@.len(),
                out@ + group_commands(self.drawables@.skip(i as int)) == old(out)@ + group_commands(
                    self.drawables@,
                ),
            decreases n - i,
        {
            let ghost rest = self.drawables@.skip(i as int);
            proof {
                assert(rest.first() == self.drawables@[i as int]);
                assert(rest.drop_first() =~= self.drawables@.skip(i as int + 1));
            }
            self.drawables[i].draw(out);
            proof {
                assert(out@ + group_commands(self.drawables@.skip(i as int + 1)) =~= old(out)@
                    + group_commands(self.drawables@));
            }
            i = i + 1;
        }
        proof {
            assert(self.drawables@.skip(n as int) =~= Seq::<GenericDrawable>::empty());
            assert(out@ =~= old(out)@ + group_commands(self.drawables@));
        }
    }
}

impl Layer for GroupLayer {
    type D = GroupLayerDrawable;

    open spec fn wf(&self) -> bool {
        forall|i: int| 0 <= i < self.children().len() ==> (#[trigger] self.children()[i]).wf()
    }

    open spec fn planned_commands(&self, ctx: DrawContext, first_buffer: int) -> Seq<DrawCommand> {
        group_planned_commands(self.children(), ctx, first_buffer)
    }

    open spec fn planned_inits(&self, ctx: DrawContext) -> Seq<BufferInitModel> {
        group_planned_inits(self.children(), ctx)
    }

    open spec fn realized(&self, ctx: DrawContext, d: GroupLayerDrawable, first_buffer: int) -> bool {
        group_realized(self.children(), d.children(), ctx, first_buffer)
    }

    /// Realize every child, in insertion order; buffer indices are
    /// assigned in the same order.
    fn init_drawable(&self, ctx: &DrawContext, inits: &mut Vec<BufferInit>) -> (d:
        GroupLayerDrawable) {
        let n = self.layers.len();
        let mut drawables: Vec<GenericDrawable> = Vec::new();
        let mut i: usize = 0;
        proof {
            assert(self.layers@.skip(0) =~= self.layers@);
            assert(self.layers@.take(0) =~= Seq::<GenericLayer>::empty());
        }
        while i < n
            invariant
                i <= n,
                n == self.layers@.len(),
                self.wf(),
                drawables@.len() == i as int,
                inits_model(inits@) + group_planned_inits(self.layers@.skip(i as int), *ctx)
                    == inits_model(old(inits)@) + group_planned_inits(self.layers@, *ctx),
                inits@.len() as int == old(inits)@.len() + group_planned_inits(
                    self.layers@.take(i as int),
                    *ctx,
                ).len(),
                group_commands(drawables@) + group_planned_commands(
                    self.layers@.skip(i as int),
                    *ctx,
                    inits@.len() as int,
                ) == group_planned_commands(self.layers@, *ctx, old(inits)@.len() as int),
                group_realized(
                    self.layers@.take(i as int),
                    drawables@,
                    *ctx,
                    old(inits)@.len() as int,
                ),
            decreases n - i,
        {
            let ghost rest = self.layers@.skip(i as int);
            let ghost done = self.layers@.take(i as int);
            let ghost before = inits@;
            proof {
                assert(self.children()[i as int].wf());
                assert(rest.first() == self.layers@[i as int]);
                assert(rest.drop_first() =~= self.layers@.skip(i as int + 1));
                assert(self.layers@.take(i as int + 1) =~= done.push(self.layers@[i as int]));
            }
            let d = self.layers[i].init_drawable(ctx, inits);
            proof {
                lemma_group_commands_push(drawables@, d);
                assert(inits@.len() == before.len() + self.layers@[i as int].planned_inits(
                    *ctx,
                ).len()) by {
                    assert(inits_model(inits@).len() == inits@.len());
                    assert(inits_model(before).len() == before.len());
                }
                assert(inits_model(inits@) + group_planned_inits(
                    self.layers@.skip(i as int + 1),
                    *ctx,
                ) =~= inits_model(old(inits)@) + group_planned_inits(self.layers@, *ctx));
                assert(group_commands(drawables@.push(d)) + group_planned_commands(
                    self.layers@.skip(i as int + 1),
                    *ctx,
                    inits@.len() as int,
                ) =~= group_planned_commands(self.layers@, *ctx, old(inits)@.len() as int));
                lemma_group_planned_inits_push(done, self.layers@[i as int], *ctx);
                lemma_group_realized_push(
                    done,
                    drawables@,
                    self.layers@[i as int],
                    d,
                    *ctx,
                    old(inits)@.len() as int,
                );
            }
            drawables.push(d);
            i = i + 1;
        }
        proof {
            assert(self.layers@.skip(n as int) =~= Seq::<GenericLayer>::empty());
            assert(self.layers@.take(n as int) =~= self.layers@);
            assert(inits_model(inits@) =~= inits_model(old(inits)@) + group_planned_inits(
                self.layers@,
                *ctx,
            ));
            assert(group_commands(drawables@) =~= group_planned_commands(
                self.layers@,
                *ctx,
                old(inits)@.len() as int,
            ));
        }
        GroupLayerDrawable { drawables }
    }
}

} // verus!
