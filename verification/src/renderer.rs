//! One batch for each category of shape, prepared and drawn together.
//!
//! The shapes of a frame are split by category, each category is batched on
//! its own, and the categories are drawn in one fixed order: rectangles
//! first, ellipses after them. Rounded rectangles are split off too, but
//! nothing draws them.

use vstd::prelude::*;
use crate::batch::{frame, Batch, BatchError, DrawCommand, GenericImageRenderer, MAX_QUADS};
use crate::shape::Shape;

verus! {

/// The kind of a shape, which decides the batch that draws it.
#[derive(Clone, Copy, Debug, PartialEq, Eq, Structural)]
pub enum Category {
    Ellipse,
    Rectangle,
    RoundedRectangle,
}

/// The category of a shape.
pub open spec fn category_of(shape: Shape) -> Category {
    match shape {
        Shape::Ellipse(_, _) => Category::Ellipse,
        Shape::Rectangle(_, _) => Category::Rectangle,
        Shape::RoundedRectangle(_, _, _) => Category::RoundedRectangle,
    }
}

/// The quads of the shapes of one category, in the order of the shapes.
pub open spec fn of_category<V>(items: Seq<(Shape, [V; 4], u64)>, category: Category) -> Seq<
    ([V; 4], u64),
>
    decreases items.len(),
{
    if items.len() == 0 {
        Seq::empty()
    } else {
        let earlier = of_category(items.drop_last(), category);
        if category_of(items.last().0) == category {
            earlier.push((items.last().1, items.last().2))
        } else {
            earlier
        }
    }
}

/// The batch that preparing the quads leaves: theirs, or the empty one where
/// they are too many.
pub open spec fn prepared<V>(items: Seq<([V; 4], u64)>) -> Batch<V> {
    if items.len() <= MAX_QUADS {
        Batch::of(items)
    } else {
        Batch::empty()
    }
}

/// The commands, each marked with the category whose batch it belongs to.
pub open spec fn tagged(category: Category, commands: Seq<DrawCommand>) -> Seq<
    (Category, DrawCommand),
> {
    Seq::new(commands.len(), |k: int| (category, commands[k]))
}

/// The category of a shape.
pub fn category(shape: &Shape) -> (c: Category)
    ensures
        c == category_of(*shape),
{
    match shape {
        Shape::Ellipse(_, _) => Category::Ellipse,
        Shape::Rectangle(_, _) => Category::Rectangle,
        Shape::RoundedRectangle(_, _, _) => Category::RoundedRectangle,
    }
}

/// Splits the shapes of a frame by category. Each part keeps the order in
/// which its shapes came.
pub fn partition<V: Copy>(items: &Vec<(Shape, [V; 4], u64)>) -> (parts: (
    Vec<([V; 4], u64)>,
    Vec<([V; 4], u64)>,
    Vec<([V; 4], u64)>,
))
    ensures
        parts.0@ == of_category(items@, Category::Ellipse),
        parts.1@ == of_category(items@, Category::Rectangle),
        parts.2@ == of_category(items@, Category::RoundedRectangle),
{
    let mut ellipses: Vec<([V; 4], u64)> = Vec::new();
    let mut rectangles: Vec<([V; 4], u64)> = Vec::new();
    let mut rounded: Vec<([V; 4], u64)> = Vec::new();
    let mut i: usize = 0;
    while i < items.len()
        invariant
            i <= items.len(),
            ellipses@ == of_category(items@.take(i as int), Category::Ellipse),
            rectangles@ == of_category(items@.take(i as int), Category::Rectangle),
            rounded@ == of_category(items@.take(i as int), Category::RoundedRectangle),
        decreases items.len() - i,
    {
        let quad = (items[i].1, items[i].2);
        proof {
            let upto = items@.take(i + 1);
            assert(upto.drop_last() =~= items@.take(i as int));
            assert(upto.last() == items@[i as int]);
        }
        match category(&items[i].0) {
            Category::Ellipse => ellipses.push(quad),
            Category::Rectangle => rectangles.push(quad),
            Category::RoundedRectangle => rounded.push(quad),
        }
        i = i + 1;
    }
    assert(items@.take(items.len() as int) =~= items@);
    (ellipses, rectangles, rounded)
}

/// What the renderer holds, as a mathematical value.
pub struct Frame<V> {
    pub ellipses: Batch<V>,
    pub rectangles: Batch<V>,
}

/// The batches of a frame, one for each category that is drawn.
pub struct ImageRenderer<V> {
    ellipse_renderer: GenericImageRenderer<V>,
    rectangle_renderer: GenericImageRenderer<V>,
}

impl<V> View for ImageRenderer<V> {
    type V = Frame<V>;

    closed spec fn view(&self) -> Frame<V> {
        Frame { ellipses: self.ellipse_renderer@, rectangles: self.rectangle_renderer@ }
    }
}

impl<V: Copy> ImageRenderer<V> {
    /// A renderer whose batches are empty.
    pub fn new() -> (renderer: Self)
        ensures
            renderer@ == (Frame::<V> { ellipses: Batch::empty(), rectangles: Batch::empty() }),
    {
        ImageRenderer {
            ellipse_renderer: GenericImageRenderer::new(),
            rectangle_renderer: GenericImageRenderer::new(),
        }
    }

    /// Rebuilds both batches from the shapes of a frame. A category with too
    /// many quads is left empty and reported; the other is still built.
    pub fn prepare(&mut self, items: Vec<(Shape, [V; 4], u64)>) -> (r: Result<(), BatchError>)
        ensures
            final(self)@.rectangles == prepared(of_category(items@, Category::Rectangle)),
            final(self)@.ellipses == prepared(of_category(items@, Category::Ellipse)),
            r is Ok <==> of_category(items@, Category::Rectangle).len() <= MAX_QUADS
                && of_category(items@, Category::Ellipse).len() <= MAX_QUADS,
            r is Err ==> r == Err::<(), BatchError>(BatchError::TooManyQuads),
    {
        let (ellipses, rectangles, _) = partition(&items);
        let rectangles_done = self.rectangle_renderer.prepare(rectangles);
        let ellipses_done = self.ellipse_renderer.prepare(ellipses);
        if rectangles_done.is_err() {
            rectangles_done
        } else {
            ellipses_done
        }
    }

    /// The draw commands of the frame: those of the rectangles, then those
    /// of the ellipses.
    pub fn render(&self) -> (commands: Vec<(Category, DrawCommand)>)
        ensures
            commands@ == tagged(Category::Rectangle, frame(self@.rectangles.groups)) + tagged(
                Category::Ellipse,
                frame(self@.ellipses.groups),
            ),
    {
        let mut commands: Vec<(Category, DrawCommand)> = Vec::new();
        let rectangles = self.rectangle_renderer.render();
        let ellipses = self.ellipse_renderer.render();
        append_tagged(&mut commands, Category::Rectangle, &rectangles);
        append_tagged(&mut commands, Category::Ellipse, &ellipses);
        commands
    }

    /// The batch of the ellipses.
    pub fn ellipses(&self) -> (batch: &GenericImageRenderer<V>)
        ensures
            batch@ == self@.ellipses,
    {
        &self.ellipse_renderer
    }

    /// The batch of the rectangles.
    pub fn rectangles(&self) -> (batch: &GenericImageRenderer<V>)
        ensures
            batch@ == self@.rectangles,
    {
        &self.rectangle_renderer
    }
}

/// Appends the commands, each marked with the category.
fn append_tagged(
    out: &mut Vec<(Category, DrawCommand)>,
    category: Category,
    commands: &Vec<DrawCommand>,
)
    ensures
        final(out)@ == old(out)@ + tagged(category, commands@),
{
    let ghost before = out@;
    let mut k: usize = 0;
    assert(out@ =~= before + tagged(category, commands@.take(0)));
    while k < commands.len()
        invariant
            k <= commands.len(),
            out@ == before + tagged(category, commands@.take(k as int)),
        decreases commands.len() - k,
    {
        out.push((category, commands[k]));
        k = k + 1;
        assert(out@ =~= before + tagged(category, commands@.take(k as int)));
    }
    assert(commands@.take(commands.len() as int) =~= commands@);
}

} // verus!
