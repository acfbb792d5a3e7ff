//! A cache from a shape and its fill to the texture that holds the rasterised
//! shape.
//!
//! A shape and its fill are reduced to a key of 64 bits: the bytes that
//! describe them, hashed. The cache maps a key to the handle of a texture and
//! holds one entry for a key at most. It neither draws nor stores an image
//! itself. It says whether an image has to be built, and records the handle
//! under which the caller has stored it.

use vstd::prelude::*;
use vstd::bytes::{spec_u32_to_le_bytes, spec_u64_to_le_bytes, u32_to_le_bytes, u64_to_le_bytes};
use vstd::std_specs::hash::DefaultHasherAdditionalSpecFns;
use std::collections::HashMap;
use std::collections::hash_map::DefaultHasher;
use std::hash::Hasher;
use crate::pixels::Color;
use crate::shape::Shape;

verus! {

/// What a shape is filled with: one colour, or a source image known by its
/// identity.
#[derive(Clone, Copy, Debug, Hash)]
pub enum Fill {
    Solid(Color),
    Image(u64),
}

/// What the cache asks of its caller.
#[derive(Clone, Copy, Debug, PartialEq, Eq, Structural)]
pub enum AddStep {
    /// The key has a texture already: nothing is to be built.
    Cached(u64),
    /// The key has none: the shape is to be rasterised, stored, and the
    /// handle recorded under the key.
    Build(u64),
}

/// The bytes that describe a shape: one for its kind, then its stroke, its
/// width and its height, and for a rounded rectangle the radius of its
/// corners, each as four bytes with the lowest first.
pub open spec fn shape_bytes(shape: Shape) -> Seq<u8> {
    match shape {
        Shape::Ellipse(stroke, size) => seq![0u8] + spec_u32_to_le_bytes(stroke)
            + spec_u32_to_le_bytes(size.0) + spec_u32_to_le_bytes(size.1),
        Shape::Rectangle(stroke, size) => seq![1u8] + spec_u32_to_le_bytes(stroke)
            + spec_u32_to_le_bytes(size.0) + spec_u32_to_le_bytes(size.1),
        Shape::RoundedRectangle(stroke, size, radius) => seq![2u8] + spec_u32_to_le_bytes(stroke)
            + spec_u32_to_le_bytes(size.0) + spec_u32_to_le_bytes(size.1) + spec_u32_to_le_bytes(
            radius,
        ),
    }
}

/// The bytes that describe a fill: one for its kind, then the four channels
/// of the colour, or the identity of the image as eight bytes with the lowest
/// first.
pub open spec fn fill_bytes(fill: Fill) -> Seq<u8> {
    match fill {
        Fill::Solid(color) => seq![0u8, color.0, color.1, color.2, color.3],
        Fill::Image(id) => seq![1u8] + spec_u64_to_le_bytes(id),
    }
}

/// The key of a shape with its fill: the hash of the bytes that describe
/// them.
pub open spec fn shape_key(shape: Shape, fill: Fill) -> u64 {
    DefaultHasher::spec_finish(seq![shape_bytes(shape) + fill_bytes(fill)])
}

/// The cache after the handle was offered for the key: recorded where the key
/// had none, ignored where it had one.
pub open spec fn completed(entries: Map<u64, u64>, key: u64, handle: u64) -> Map<u64, u64> {
    if entries.contains_key(key) {
        entries
    } else {
        entries.insert(key, handle)
    }
}

/// What the cache answers when asked to add the key.
pub open spec fn step_for(entries: Map<u64, u64>, key: u64) -> AddStep {
    if entries.contains_key(key) {
        AddStep::Cached(key)
    } else {
        AddStep::Build(key)
    }
}

/// Different shapes or fills are described by different bytes: keys can only
/// coincide where the hash does.
pub proof fn law_description_is_faithful(shape: Shape, fill: Fill, other: Shape, other_fill: Fill)
    requires
        shape_bytes(shape) + fill_bytes(fill) == shape_bytes(other) + fill_bytes(other_fill),
    ensures
        shape == other,
        fill == other_fill,
{
    vstd::bytes::lemma_auto_spec_u32_to_from_le_bytes();
    vstd::bytes::lemma_auto_spec_u64_to_from_le_bytes();
    let a = shape_bytes(shape) + fill_bytes(fill);
    let b = shape_bytes(other) + fill_bytes(other_fill);
    assert(a[0] == b[0]);
    assert(a.len() == b.len());
    lemma_shape_bytes_shape(shape);
    lemma_shape_bytes_shape(other);
    lemma_fill_bytes_shape(fill);
    lemma_fill_bytes_shape(other_fill);
    let n = shape_bytes(shape).len() as int;
    assert(shape_bytes(other).len() == n) by {
        if shape_bytes(other).len() != n {
            // The kinds agree, so an ellipse or a rectangle would face a
            // rounded rectangle, which the first byte rules out.
            assert(a[0] == shape_bytes(shape)[0]);
            assert(b[0] == shape_bytes(other)[0]);
        }
    }
    assert(shape_bytes(shape) =~= a.subrange(0, n));
    assert(shape_bytes(other) =~= b.subrange(0, n));
    assert(fill_bytes(fill) =~= a.subrange(n, a.len() as int));
    assert(fill_bytes(other_fill) =~= b.subrange(n, b.len() as int));
    lemma_shape_from_bytes(shape, other);
    lemma_fill_from_bytes(fill, other_fill);
}

/// The words of a shape: its stroke, width and height, and the radius of its
/// corners, which is zero where it has none.
pub open spec fn shape_words(shape: Shape) -> (u32, u32, u32, u32) {
    match shape {
        Shape::Ellipse(stroke, size) => (stroke, size.0, size.1, 0),
        Shape::Rectangle(stroke, size) => (stroke, size.0, size.1, 0),
        Shape::RoundedRectangle(stroke, size, radius) => (stroke, size.0, size.1, radius),
    }
}

/// The description of a shape starts with the byte of its kind, and its
/// length goes by the kind.
proof fn lemma_shape_bytes_shape(shape: Shape)
    ensures
        shape_bytes(shape).len() == if shape is RoundedRectangle {
            17int
        } else {
            13int
        },
        shape_bytes(shape)[0] == match shape {
            Shape::Ellipse(_, _) => 0u8,
            Shape::Rectangle(_, _) => 1u8,
            Shape::RoundedRectangle(_, _, _) => 2u8,
        },
        shape_bytes(shape).subrange(1, 5) == spec_u32_to_le_bytes(shape_words(shape).0),
        shape_bytes(shape).subrange(5, 9) == spec_u32_to_le_bytes(shape_words(shape).1),
        shape_bytes(shape).subrange(9, 13) == spec_u32_to_le_bytes(shape_words(shape).2),
        shape is RoundedRectangle ==> shape_bytes(shape).subrange(13, 17) == spec_u32_to_le_bytes(
            shape_words(shape).3,
        ),
{
    vstd::bytes::lemma_auto_spec_u32_to_from_le_bytes();
    let words = shape_words(shape);
    let bytes = shape_bytes(shape);
    assert(bytes.subrange(1, 5) =~= spec_u32_to_le_bytes(words.0));
    assert(bytes.subrange(5, 9) =~= spec_u32_to_le_bytes(words.1));
    assert(bytes.subrange(9, 13) =~= spec_u32_to_le_bytes(words.2));
    if shape is RoundedRectangle {
        assert(bytes.subrange(13, 17) =~= spec_u32_to_le_bytes(words.3));
    }
}

/// The description of a fill starts with the byte of its kind, and its
/// length goes by the kind.
proof fn lemma_fill_bytes_shape(fill: Fill)
    ensures
        fill_bytes(fill).len() == if fill is Image {
            9int
        } else {
            5int
        },
        fill_bytes(fill)[0] == if fill is Image {
            1u8
        } else {
            0u8
        },
        fill matches Fill::Image(id) ==> fill_bytes(fill).subrange(1, 9) == spec_u64_to_le_bytes(id),
{
    vstd::bytes::lemma_auto_spec_u64_to_from_le_bytes();
    match fill {
        Fill::Image(id) => {
            assert(fill_bytes(fill).subrange(1, 9) =~= spec_u64_to_le_bytes(id));
        },
        Fill::Solid(_) => {},
    }
}

/// Shapes with the same description are the same.
proof fn lemma_shape_from_bytes(shape: Shape, other: Shape)
    requires
        shape_bytes(shape) == shape_bytes(other),
    ensures
        shape == other,
{
    vstd::bytes::lemma_auto_spec_u32_to_from_le_bytes();
    lemma_shape_bytes_shape(shape);
    lemma_shape_bytes_shape(other);
    let a = shape_words(shape);
    let b = shape_words(other);
    assert(a.0 == b.0) by {
        assert(vstd::bytes::spec_u32_from_le_bytes(spec_u32_to_le_bytes(a.0)) == a.0);
        assert(vstd::bytes::spec_u32_from_le_bytes(spec_u32_to_le_bytes(b.0)) == b.0);
    }
    assert(a.1 == b.1) by {
        assert(vstd::bytes::spec_u32_from_le_bytes(spec_u32_to_le_bytes(a.1)) == a.1);
        assert(vstd::bytes::spec_u32_from_le_bytes(spec_u32_to_le_bytes(b.1)) == b.1);
    }
    assert(a.2 == b.2) by {
        assert(vstd::bytes::spec_u32_from_le_bytes(spec_u32_to_le_bytes(a.2)) == a.2);
        assert(vstd::bytes::spec_u32_from_le_bytes(spec_u32_to_le_bytes(b.2)) == b.2);
    }
    if shape is RoundedRectangle {
        assert(a.3 == b.3) by {
            assert(vstd::bytes::spec_u32_from_le_bytes(spec_u32_to_le_bytes(a.3)) == a.3);
            assert(vstd::bytes::spec_u32_from_le_bytes(spec_u32_to_le_bytes(b.3)) == b.3);
        }
    }
}

/// Fills with the same description are the same.
proof fn lemma_fill_from_bytes(fill: Fill, other: Fill)
    requires
        fill_bytes(fill) == fill_bytes(other),
    ensures
        fill == other,
{
    vstd::bytes::lemma_auto_spec_u64_to_from_le_bytes();
    lemma_fill_bytes_shape(fill);
    lemma_fill_bytes_shape(other);
    match (fill, other) {
        (Fill::Solid(a), Fill::Solid(b)) => {
            assert(fill_bytes(fill)[1] == a.0 && fill_bytes(other)[1] == b.0);
            assert(fill_bytes(fill)[2] == a.1 && fill_bytes(other)[2] == b.1);
            assert(fill_bytes(fill)[3] == a.2 && fill_bytes(other)[3] == b.2);
            assert(fill_bytes(fill)[4] == a.3 && fill_bytes(other)[4] == b.3);
        },
        (Fill::Image(a), Fill::Image(b)) => {
            assert(vstd::bytes::spec_u64_from_le_bytes(spec_u64_to_le_bytes(a)) == a);
            assert(vstd::bytes::spec_u64_from_le_bytes(spec_u64_to_le_bytes(b)) == b);
        },
        _ => {},
    }
}

/// Equal shapes with equal fills have the same key.
pub proof fn law_key_is_deterministic(shape: Shape, fill: Fill, other: Shape, other_fill: Fill)
    requires
        shape == other,
        fill == other_fill,
    ensures
        shape_key(shape, fill) == shape_key(other, other_fill),
{
}

/// A shape is built once: after the handle of a build was recorded, asking
/// again for an equal shape with an equal fill finds it cached, recording
/// again changes nothing, and the handle found is the one recorded first.
pub proof fn law_built_once(
    entries: Map<u64, u64>,
    shape: Shape,
    fill: Fill,
    handle: u64,
    other: Shape,
    other_fill: Fill,
    later: u64,
)
    requires
        shape == other,
        fill == other_fill,
    ensures
        step_for(completed(entries, shape_key(shape, fill), handle), shape_key(other, other_fill))
            == AddStep::Cached(shape_key(shape, fill)),
        completed(
            completed(entries, shape_key(shape, fill), handle),
            shape_key(other, other_fill),
            later,
        ) == completed(entries, shape_key(shape, fill), handle),
        step_for(entries, shape_key(shape, fill)) == AddStep::Build(shape_key(shape, fill))
            ==> completed(entries, shape_key(shape, fill), handle)[shape_key(other, other_fill)]
            == handle,
{
}

/// The bytes that describe a shape.
pub fn describe_shape(shape: &Shape) -> (bytes: Vec<u8>)
    ensures
        bytes@ == shape_bytes(*shape),
{
    let mut bytes: Vec<u8> = Vec::new();
    match shape {
        Shape::Ellipse(stroke, size) => {
            bytes.push(0);
            append(&mut bytes, &u32_to_le_bytes(*stroke));
            append(&mut bytes, &u32_to_le_bytes(size.0));
            append(&mut bytes, &u32_to_le_bytes(size.1));
        },
        Shape::Rectangle(stroke, size) => {
            bytes.push(1);
            append(&mut bytes, &u32_to_le_bytes(*stroke));
            append(&mut bytes, &u32_to_le_bytes(size.0));
            append(&mut bytes, &u32_to_le_bytes(size.1));
        },
        Shape::RoundedRectangle(stroke, size, radius) => {
            bytes.push(2);
            append(&mut bytes, &u32_to_le_bytes(*stroke));
            append(&mut bytes, &u32_to_le_bytes(size.0));
            append(&mut bytes, &u32_to_le_bytes(size.1));
            append(&mut bytes, &u32_to_le_bytes(*radius));
        },
    }
    assert(bytes@ =~= shape_bytes(*shape));
    bytes
}

/// The bytes that describe a fill.
pub fn describe_fill(fill: &Fill) -> (bytes: Vec<u8>)
    ensures
        bytes@ == fill_bytes(*fill),
{
    let mut bytes: Vec<u8> = Vec::new();
    match fill {
        Fill::Solid(color) => {
            bytes.push(0);
            bytes.push(color.0);
            bytes.push(color.1);
            bytes.push(color.2);
            bytes.push(color.3);
        },
        Fill::Image(id) => {
            bytes.push(1);
            append(&mut bytes, &u64_to_le_bytes(*id));
        },
    }
    assert(bytes@ =~= fill_bytes(*fill));
    bytes
}

/// Appends the bytes of `tail` to `bytes`.
fn append(bytes: &mut Vec<u8>, tail: &Vec<u8>)
    ensures
        final(bytes)@ == old(bytes)@ + tail@,
{
    let ghost before = bytes@;
    let mut i: usize = 0;
    assert(bytes@ =~= before + tail@.take(0));
    while i < tail.len()
        invariant
            i <= tail.len(),
            bytes@ == before + tail@.take(i as int),
        decreases tail.len() - i,
    {
        bytes.push(tail[i]);
        i = i + 1;
        assert(bytes@ =~= before + tail@.take(i as int));
    }
    assert(tail@.take(tail.len() as int) =~= tail@);
}

/// The textures of the shapes rasterised so far, by key.
pub struct ShapeCache {
    handles: HashMap<u64, u64>,
}

impl View for ShapeCache {
    type V = Map<u64, u64>;

    closed spec fn view(&self) -> Map<u64, u64> {
        self.handles@
    }
}

impl ShapeCache {
    /// A cache without entries.
    pub fn new() -> (cache: ShapeCache)
        ensures
            cache@ == Map::<u64, u64>::empty(),
    {
        ShapeCache { handles: HashMap::new() }
    }

    /// The key of a shape with its fill.
    pub fn key(shape: &Shape, fill: &Fill) -> (key: u64)
        ensures
            key == shape_key(*shape, *fill),
    {
        let mut bytes = describe_shape(shape);
        let tail = describe_fill(fill);
        append(&mut bytes, &tail);
        let mut hasher = DefaultHasher::new();
        hasher.write(bytes.as_slice());
        assert(hasher@ =~= seq![shape_bytes(*shape) + fill_bytes(*fill)]);
        hasher.finish()
    }

    /// Asks for the shape to be in the cache. The answer carries its key, and
    /// says whether its texture is there or has to be built. The cache itself
    /// does not change: a build is recorded by `complete`.
    pub fn add(&self, shape: &Shape, fill: &Fill) -> (step: AddStep)
        ensures
            step == step_for(self@, shape_key(*shape, *fill)),
    {
        let key = Self::key(shape, fill);
        if self.handles.contains_key(&key) {
            AddStep::Cached(key)
        } else {
            AddStep::Build(key)
        }
    }

    /// Records the handle of the texture built for the key. Where the key has
    /// a texture already, that one stays.
    pub fn complete(&mut self, key: u64, handle: u64)
        ensures
            final(self)@ == completed(old(self)@, key, handle),
    {
        if !self.handles.contains_key(&key) {
            self.handles.insert(key, handle);
        }
    }

    /// Whether the key has a texture.
    pub fn contains(&self, key: u64) -> (found: bool)
        ensures
            found == self@.contains_key(key),
    {
        self.handles.contains_key(&key)
    }

    /// The handle of the key's texture. The key must have been added.
    pub fn get(&self, key: u64) -> (handle: u64)
        requires
            self@.contains_key(key),
        ensures
            handle == self@[key],
    {
        match self.handles.get(&key) {
            Some(handle) => *handle,
            None => vstd::pervasive::unreached(),
        }
    }

    /// Drops the entry of the key, if there is one. The texture itself is not
    /// touched.
    pub fn remove(&mut self, key: u64)
        ensures
            final(self)@ == old(self)@.remove(key),
    {
        self.handles.remove(&key);
    }
}

} // verus!
