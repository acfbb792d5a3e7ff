//! Batching quads that share a vertex layout into one vertex stream and one
//! index stream, with the index ranges of each texture kept together.
//!
//! Every quad contributes four vertices and six indices, the two triangles
//! that cover it. A texture owns one range of six indices for each of its
//! quads, in the order in which the quads came. Textures are kept in the
//! order in which they were first seen, so the draw calls of a batch come out
//! in one fixed order.

use vstd::prelude::*;
use std::collections::HashMap;

verus! {

/// The most quads one batch can hold: their vertices must be addressable by
/// sixteen-bit indices.
pub const MAX_QUADS: usize = 16384;

/// Why a batch was not built.
#[derive(Clone, Copy, Debug, PartialEq, Eq, Structural)]
pub enum BatchError {
    /// More quads than sixteen-bit indices can address.
    TooManyQuads,
}

/// One step of drawing a batch.
#[derive(Clone, Copy, Debug, PartialEq, Eq)]
pub enum DrawCommand {
    /// Bind the pipeline of the batch, its vertex stream and its index
    /// stream.
    Begin,
    /// Bind the texture with this handle.
    Bind(u64),
    /// Draw the indices from the first number up to, not including, the
    /// second.
    Draw(u32, u32),
}

/// The index ranges that one texture owns.
#[derive(Debug)]
pub struct TextureGroup {
    pub texture: u64,
    pub ranges: Vec<(u32, u32)>,
}

/// Which of a quad's four vertices the `k`-th of its six indices names: the
/// triangles are corners 0, 1, 2 and corners 1, 2, 3.
pub open spec fn corner(k: int) -> int {
    if k == 0 {
        0
    } else if k == 1 || k == 3 {
        1
    } else if k == 2 || k == 4 {
        2
    } else {
        3
    }
}

/// The vertices of all quads, four for each, in the order of the quads.
pub open spec fn vertex_stream<V>(items: Seq<([V; 4], u64)>) -> Seq<V> {
    Seq::new(4 * items.len(), |i: int| items[i / 4].0@[i % 4])
}

/// The indices of `count` quads, six for each.
pub open spec fn index_stream(count: nat) -> Seq<u16> {
    Seq::new(6 * count, |i: int| (4 * (i / 6) + corner(i % 6)) as u16)
}

/// The texture of each quad.
pub open spec fn textures_of<V>(items: Seq<([V; 4], u64)>) -> Seq<u64> {
    Seq::new(items.len(), |i: int| items[i].1)
}

/// The six indices of the `i`-th quad, as a half-open range.
pub open spec fn quad_range(i: int) -> (u32, u32) {
    ((6 * i) as u32, (6 * i + 6) as u32)
}

/// The ranges of the quads that use texture `t`, in the order of the quads.
pub open spec fn ranges_for(textures: Seq<u64>, t: u64) -> Seq<(u32, u32)>
    decreases textures.len(),
{
    if textures.len() == 0 {
        Seq::empty()
    } else {
        let earlier = ranges_for(textures.drop_last(), t);
        if textures.last() == t {
            earlier.push(quad_range(textures.len() - 1))
        } else {
            earlier
        }
    }
}

/// The textures in use, each once, in the order in which they first occur.
pub open spec fn first_seen(textures: Seq<u64>) -> Seq<u64>
    decreases textures.len(),
{
    if textures.len() == 0 {
        Seq::empty()
    } else {
        let earlier = first_seen(textures.drop_last());
        if earlier.contains(textures.last()) {
            earlier
        } else {
            earlier.push(textures.last())
        }
    }
}

/// Each texture in use with the ranges it owns.
pub open spec fn groups_of(textures: Seq<u64>) -> Seq<(u64, Seq<(u32, u32)>)> {
    Seq::new(
        first_seen(textures).len(),
        |j: int| (first_seen(textures)[j], ranges_for(textures, first_seen(textures)[j])),
    )
}

/// What a batch holds, as a mathematical value.
pub struct Batch<V> {
    pub vertices: Seq<V>,
    pub indices: Seq<u16>,
    pub groups: Seq<(u64, Seq<(u32, u32)>)>,
}

impl<V> Batch<V> {
    /// The batch without quads.
    pub open spec fn empty() -> Batch<V> {
        Batch { vertices: Seq::empty(), indices: Seq::empty(), groups: Seq::empty() }
    }

    /// The batch of the given quads.
    pub open spec fn of(items: Seq<([V; 4], u64)>) -> Batch<V> {
        Batch {
            vertices: vertex_stream(items),
            indices: index_stream(items.len()),
            groups: groups_of(textures_of(items)),
        }
    }
}

/// The draw commands of the groups: for each group in turn, one that binds
/// its texture, then one draw for each of its ranges.
pub open spec fn commands_of(groups: Seq<(u64, Seq<(u32, u32)>)>) -> Seq<DrawCommand>
    decreases groups.len(),
{
    if groups.len() == 0 {
        Seq::empty()
    } else {
        commands_of(groups.drop_last()).push(DrawCommand::Bind(groups.last().0)) + draws_of(
            groups.last().1,
        )
    }
}

/// Everything that drawing the groups takes: the pipeline and the streams
/// are bound once, and the commands of the groups follow.
pub open spec fn frame(groups: Seq<(u64, Seq<(u32, u32)>)>) -> Seq<DrawCommand> {
    seq![DrawCommand::Begin] + commands_of(groups)
}

/// One draw for each range.
pub open spec fn draws_of(ranges: Seq<(u32, u32)>) -> Seq<DrawCommand> {
    Seq::new(ranges.len(), |k: int| DrawCommand::Draw(ranges[k].0, ranges[k].1))
}

/// Appending a texture either adds a range to the group that already has it
/// or opens a new group with that one range.
pub proof fn lemma_groups_push(textures: Seq<u64>, t: u64)
    ensures
        first_seen(textures).no_duplicates(),
        first_seen(textures).contains(t) ==> {
            let j = first_seen(textures).index_of(t);
            groups_of(textures.push(t)) == groups_of(textures).update(
                j,
                (t, groups_of(textures)[j].1.push(quad_range(textures.len() as int))),
            )
        },
        !first_seen(textures).contains(t) ==> groups_of(textures.push(t)) == groups_of(
            textures,
        ).push((t, seq![quad_range(textures.len() as int)])),
{
    lemma_first_seen_distinct(textures);
    let more = textures.push(t);
    assert(more.drop_last() =~= textures);
    assert forall|u: u64| u != t implies ranges_for(more, u) == ranges_for(textures, u) by {}
    assert(ranges_for(more, t) == ranges_for(textures, t).push(quad_range(textures.len() as int)));
    if first_seen(textures).contains(t) {
        let j = first_seen(textures).index_of(t);
        assert(first_seen(more) == first_seen(textures));
        assert(groups_of(more) =~= groups_of(textures).update(
            j,
            (t, groups_of(textures)[j].1.push(quad_range(textures.len() as int))),
        ));
    } else {
        lemma_unseen_has_no_ranges(textures, t);
        assert(ranges_for(more, t) =~= seq![quad_range(textures.len() as int)]);
        assert(groups_of(more) =~= groups_of(textures).push(
            (t, seq![quad_range(textures.len() as int)]),
        ));
    }
}

/// No texture is listed twice, and a texture is listed exactly where some
/// quad uses it.
pub proof fn lemma_first_seen_distinct(textures: Seq<u64>)
    ensures
        first_seen(textures).no_duplicates(),
        forall|t: u64| first_seen(textures).contains(t) <==> textures.contains(t),
    decreases textures.len(),
{
    if textures.len() > 0 {
        let earlier = textures.drop_last();
        lemma_first_seen_distinct(earlier);
        let last = textures.last();
        assert(textures =~= earlier.push(last));
        assert forall|t: u64| first_seen(textures).contains(t) <==> textures.contains(t) by {
            if textures.contains(t) {
                let i = choose|i: int| 0 <= i < textures.len() && textures[i] == t;
                if i < earlier.len() {
                    assert(earlier[i] == t);
                    assert(earlier.contains(t));
                    assert(first_seen(earlier).contains(t));
                    let j = first_seen(earlier).index_of(t);
                    assert(first_seen(textures)[j] == t);
                } else {
                    if !first_seen(earlier).contains(last) {
                        assert(first_seen(textures)[first_seen(earlier).len() as int] == t);
                    }
                }
            }
            if first_seen(textures).contains(t) {
                let j = first_seen(textures).index_of(t);
                if j < first_seen(earlier).len() {
                    assert(first_seen(earlier)[j] == t);
                    assert(earlier.contains(t));
                    let i = earlier.index_of(t);
                    assert(textures[i] == t);
                } else {
                    assert(t == last);
                    assert(textures[textures.len() - 1] == t);
                }
            }
        }
    }
}

/// A texture that no quad uses owns no range.
pub proof fn lemma_unseen_has_no_ranges(textures: Seq<u64>, t: u64)
    requires
        !first_seen(textures).contains(t),
    ensures
        ranges_for(textures, t) == Seq::<(u32, u32)>::empty(),
    decreases textures.len(),
{
    lemma_first_seen_distinct(textures);
    if textures.len() > 0 {
        let earlier = textures.drop_last();
        lemma_first_seen_distinct(earlier);
        assert(!textures.contains(t));
        assert(textures.last() != t) by {
            if textures.last() == t {
                assert(textures[textures.len() - 1] == t);
            }
        }
        assert(!earlier.contains(t)) by {
            if earlier.contains(t) {
                let i = earlier.index_of(t);
                assert(textures[i] == t);
                assert(textures.contains(t));
            }
        }
        lemma_unseen_has_no_ranges(earlier, t);
    }
}

/// How many indices the commands draw.
pub open spec fn drawn(commands: Seq<DrawCommand>) -> int
    decreases commands.len(),
{
    if commands.len() == 0 {
        0
    } else {
        drawn(commands.drop_last()) + match commands.last() {
            DrawCommand::Draw(start, end) => end - start,
            DrawCommand::Begin | DrawCommand::Bind(_) => 0,
        }
    }
}

/// How many quads use texture `t`.
pub open spec fn uses(textures: Seq<u64>, t: u64) -> nat
    decreases textures.len(),
{
    if textures.len() == 0 {
        0
    } else {
        uses(textures.drop_last(), t) + if textures.last() == t {
            1nat
        } else {
            0nat
        }
    }
}

/// Commands one after the other draw the sum of what each part draws.
pub proof fn lemma_drawn_concat(a: Seq<DrawCommand>, b: Seq<DrawCommand>)
    ensures
        drawn(a + b) == drawn(a) + drawn(b),
    decreases b.len(),
{
    if b.len() == 0 {
        assert(a + b =~= a);
    } else {
        lemma_drawn_concat(a, b.drop_last());
        assert((a + b).drop_last() =~= a + b.drop_last());
        assert((a + b).last() == b.last());
    }
}

/// One more range draws as many indices more as it is long.
pub proof fn lemma_drawn_draws_push(ranges: Seq<(u32, u32)>, range: (u32, u32))
    ensures
        drawn(draws_of(ranges.push(range))) == drawn(draws_of(ranges)) + (range.1 - range.0),
{
    let more = draws_of(ranges.push(range));
    assert(more.drop_last() =~= draws_of(ranges));
    assert(more.last() == DrawCommand::Draw(range.0, range.1));
}

/// One more group draws what its ranges draw on top of the others.
pub proof fn lemma_drawn_group_push(
    groups: Seq<(u64, Seq<(u32, u32)>)>,
    group: (u64, Seq<(u32, u32)>),
)
    ensures
        drawn(commands_of(groups.push(group))) == drawn(commands_of(groups)) + drawn(
            draws_of(group.1),
        ),
{
    let more = groups.push(group);
    assert(more.drop_last() =~= groups);
    assert(more.last() == group);
    let head = commands_of(groups).push(DrawCommand::Bind(group.0));
    assert(head.drop_last() =~= commands_of(groups));
    lemma_drawn_concat(head, draws_of(group.1));
}

/// One more range in one of the groups draws as many indices more as it is
/// long.
pub proof fn lemma_drawn_group_grow(
    groups: Seq<(u64, Seq<(u32, u32)>)>,
    j: int,
    range: (u32, u32),
)
    requires
        0 <= j < groups.len(),
    ensures
        drawn(commands_of(groups.update(j, (groups[j].0, groups[j].1.push(range))))) == drawn(
            commands_of(groups),
        ) + (range.1 - range.0),
    decreases groups.len(),
{
    let grown = groups.update(j, (groups[j].0, groups[j].1.push(range)));
    let earlier = groups.drop_last();
    assert(groups =~= earlier.push(groups.last()));
    lemma_drawn_group_push(earlier, groups.last());
    if j == groups.len() - 1 {
        let last = (groups[j].0, groups[j].1.push(range));
        assert(grown =~= earlier.push(last));
        lemma_drawn_group_push(earlier, last);
        lemma_drawn_draws_push(groups[j].1, range);
    } else {
        lemma_drawn_group_grow(earlier, j, range);
        let earlier_grown = earlier.update(j, (earlier[j].0, earlier[j].1.push(range)));
        assert(grown =~= earlier_grown.push(groups.last()));
        lemma_drawn_group_push(earlier_grown, groups.last());
    }
}

/// The draw calls of a batch draw six indices for every quad, whatever the
/// order in which the quads' textures alternate.
pub proof fn law_index_accounting(textures: Seq<u64>)
    requires
        textures.len() <= MAX_QUADS,
    ensures
        drawn(commands_of(groups_of(textures))) == 6 * textures.len(),
        drawn(frame(groups_of(textures))) == 6 * textures.len(),
    decreases textures.len(),
{
    let begin = seq![DrawCommand::Begin];
    assert(begin.drop_last() =~= Seq::empty());
    assert(drawn(begin) == 0) by {
        assert(drawn(begin.drop_last()) == 0);
    }
    lemma_drawn_concat(begin, commands_of(groups_of(textures)));
    if textures.len() == 0 {
        assert(groups_of(textures) =~= Seq::empty());
    } else {
        let earlier = textures.drop_last();
        let t = textures.last();
        let range = quad_range(earlier.len() as int);
        assert(textures =~= earlier.push(t));
        law_index_accounting(earlier);
        lemma_groups_push(earlier, t);
        assert(range.1 - range.0 == 6);
        if first_seen(earlier).contains(t) {
            let j = first_seen(earlier).index_of(t);
            assert(groups_of(earlier)[j].0 == t);
            lemma_drawn_group_grow(groups_of(earlier), j, range);
        } else {
            let group = (t, seq![range]);
            lemma_drawn_group_push(groups_of(earlier), group);
            assert(group.1 =~= Seq::<(u32, u32)>::empty().push(range));
            lemma_drawn_draws_push(Seq::empty(), range);
            assert(draws_of(Seq::<(u32, u32)>::empty()) =~= Seq::empty());
        }
    }
}

/// Whether the range is that of one quad that uses texture `t`.
pub open spec fn covers_quad_of(textures: Seq<u64>, t: u64, range: (u32, u32)) -> bool {
    exists|i: int|
        0 <= i < textures.len() && textures[i] == t && #[trigger] quad_range(i) == range
}

/// The draws of one texture draw six indices for every quad that uses it.
pub proof fn law_texture_accounting(textures: Seq<u64>, t: u64)
    requires
        textures.len() <= MAX_QUADS,
    ensures
        ranges_for(textures, t).len() == uses(textures, t),
        drawn(draws_of(ranges_for(textures, t))) == 6 * uses(textures, t),
    decreases textures.len(),
{
    if textures.len() == 0 {
        assert(draws_of(ranges_for(textures, t)) =~= Seq::empty());
    } else {
        let earlier = textures.drop_last();
        law_texture_accounting(earlier, t);
        if textures.last() == t {
            let range = quad_range(textures.len() - 1);
            assert(range.1 - range.0 == 6);
            lemma_drawn_draws_push(ranges_for(earlier, t), range);
        }
    }
}

/// No draw crosses from one texture's quads into another's: every range of
/// a texture is the range of one quad that uses that texture, every quad has
/// its range among those of its texture, and the ranges of a texture follow
/// one another without overlap.
pub proof fn law_ranges_follow_quads(textures: Seq<u64>, t: u64)
    requires
        textures.len() <= MAX_QUADS,
    ensures
        forall|k: int|
            0 <= k < ranges_for(textures, t).len() ==> covers_quad_of(
                textures,
                t,
                #[trigger] ranges_for(textures, t)[k],
            ),
        forall|i: int|
            0 <= i < textures.len() && textures[i] == t ==> ranges_for(textures, t).contains(
                #[trigger] quad_range(i),
            ),
        forall|k: int, l: int|
            0 <= k < l < ranges_for(textures, t).len() ==> (#[trigger] ranges_for(
                textures,
                t,
            )[k]).1 <= (#[trigger] ranges_for(textures, t)[l]).0,
        forall|k: int|
            0 <= k < ranges_for(textures, t).len() ==> (#[trigger] ranges_for(textures, t)[k]).1
                <= 6 * textures.len(),
    decreases textures.len(),
{
    if textures.len() > 0 {
        let earlier = textures.drop_last();
        let before = ranges_for(earlier, t);
        let now = ranges_for(textures, t);
        let n = textures.len() - 1;
        law_ranges_follow_quads(earlier, t);
        assert forall|k: int| 0 <= k < now.len() implies covers_quad_of(
            textures,
            t,
            #[trigger] now[k],
        ) by {
            if k < before.len() {
                assert(covers_quad_of(earlier, t, before[k]));
                let i = choose|i: int|
                    0 <= i < earlier.len() && earlier[i] == t && #[trigger] quad_range(i)
                        == before[k];
                assert(textures[i] == t && quad_range(i) == now[k]);
            } else {
                assert(textures[n] == t && quad_range(n) == now[k]);
            }
        }
        assert forall|i: int| 0 <= i < textures.len() && textures[i] == t implies now.contains(
            #[trigger] quad_range(i),
        ) by {
            if i < n {
                assert(earlier[i] == t);
                assert(before.contains(quad_range(i)));
                let k = before.index_of(quad_range(i));
                assert(now[k] == quad_range(i));
            } else {
                assert(now[now.len() - 1] == quad_range(i));
            }
        }
    }
}

/// The groups as mathematical values.
pub open spec fn group_views(groups: Seq<TextureGroup>) -> Seq<(u64, Seq<(u32, u32)>)> {
    Seq::new(groups.len(), |j: int| (groups[j].texture, groups[j].ranges@))
}

/// The batch of one category of shapes: the streams to upload and the draw
/// ranges of each texture. It is rebuilt in full by every `prepare`.
pub struct GenericImageRenderer<V> {
    vertices: Vec<V>,
    indices: Vec<u16>,
    groups: Vec<TextureGroup>,
}

impl<V> View for GenericImageRenderer<V> {
    type V = Batch<V>;

    closed spec fn view(&self) -> Batch<V> {
        Batch {
            vertices: self.vertices@,
            indices: self.indices@,
            groups: group_views(self.groups@),
        }
    }
}

impl<V: Copy> GenericImageRenderer<V> {
    /// A renderer whose batch is empty.
    pub fn new() -> (renderer: Self)
        ensures
            renderer@ == Batch::<V>::empty(),
    {
        let renderer = GenericImageRenderer {
            vertices: Vec::new(),
            indices: Vec::new(),
            groups: Vec::new(),
        };
        assert(group_views(renderer.groups@) =~= Seq::empty());
        renderer
    }

    /// Replaces the batch by that of the given quads. More quads than
    /// sixteen-bit indices can address are refused, and the batch is then
    /// left empty.
    pub fn prepare(&mut self, image_vertices: Vec<([V; 4], u64)>) -> (r: Result<(), BatchError>)
        ensures
            image_vertices.len() <= MAX_QUADS ==> r is Ok && final(self)@ == Batch::of(
                image_vertices@,
            ),
            image_vertices.len() > MAX_QUADS ==> r == Err::<(), BatchError>(
                BatchError::TooManyQuads,
            ) && final(self)@ == Batch::<V>::empty(),
    {
        self.vertices.clear();
        self.indices.clear();
        self.groups.clear();
        assert(group_views(self.groups@) =~= Seq::empty());
        if image_vertices.len() > MAX_QUADS {
            return Err(BatchError::TooManyQuads);
        }
        let ghost items = image_vertices@;
        let ghost textures = textures_of(items);
        let mut slots: HashMap<u64, usize> = HashMap::new();
        let mut i: usize = 0;
        assert(self.vertices@ =~= vertex_stream(items.take(0)));
        assert(self.indices@ =~= index_stream(0));
        assert(group_views(self.groups@) =~= groups_of(textures.take(0)));
        while i < image_vertices.len()
            invariant
                i <= image_vertices.len() <= MAX_QUADS,
                items == image_vertices@,
                textures == textures_of(items),
                self.vertices@ == vertex_stream(items.take(i as int)),
                self.indices@ == index_stream(i as nat),
                group_views(self.groups@) == groups_of(textures.take(i as int)),
                forall|t: u64| #[trigger]
                    slots@.contains_key(t) ==> slots@[t] < self.groups.len()
                        && self.groups[slots@[t] as int].texture == t,
                forall|j: int|
                    0 <= j < self.groups.len() ==> slots@.contains_key(
                        (#[trigger] self.groups[j]).texture,
                    ),
            decreases image_vertices.len() - i,
        {
            let quad = image_vertices[i].0;
            let texture = image_vertices[i].1;
            let ghost seen = textures.take(i as int);
            let ghost before = group_views(self.groups@);
            let ghost vertices_before = self.vertices@;
            let ghost indices_before = self.indices@;
            let start: u32 = (6 * i) as u32;
            let range = (start, start + 6);
            let base: u16 = (4 * i) as u16;
            self.vertices.push(quad[0]);
            self.vertices.push(quad[1]);
            self.vertices.push(quad[2]);
            self.vertices.push(quad[3]);
            self.indices.push(base);
            self.indices.push(base + 1);
            self.indices.push(base + 2);
            self.indices.push(base + 1);
            self.indices.push(base + 2);
            self.indices.push(base + 3);
            proof {
                lemma_groups_push(seen, texture);
                assert(textures.take(i + 1) =~= seen.push(texture));
                assert(range == quad_range(i as int));
                assert(before.len() == first_seen(seen).len());
            }
            match slots.get(&texture) {
                Some(slot) => {
                    let j = *slot;
                    proof {
                        assert(before[j as int].0 == texture);
                        assert(first_seen(seen)[j as int] == texture);
                        assert(first_seen(seen).contains(texture));
                        assert(first_seen(seen).index_of(texture) == j);
                    }
                    self.groups[j].ranges.push(range);
                    assert(group_views(self.groups@) =~= before.update(
                        j as int,
                        (texture, before[j as int].1.push(range)),
                    ));
                },
                None => {
                    proof {
                        if first_seen(seen).contains(texture) {
                            let j = first_seen(seen).index_of(texture);
                            assert(before[j].0 == texture);
                            assert(self.groups[j].texture == texture);
                        }
                    }
                    let slot = self.groups.len();
                    let mut ranges: Vec<(u32, u32)> = Vec::new();
                    ranges.push(range);
                    assert(ranges@ =~= seq![range]);
                    self.groups.push(TextureGroup { texture, ranges });
                    slots.insert(texture, slot);
                    assert(group_views(self.groups@) =~= before.push((texture, seq![range])));
                },
            }
            i = i + 1;
            proof {
                assert(self.vertices@ =~= vertex_stream(items.take(i as int))) by {
                    assert(self.vertices@.len() == 4 * i);
                    assert forall|k: int| 0 <= k < 4 * i implies self.vertices@[k] == items.take(
                        i as int,
                    )[k / 4].0@[k % 4] by {
                        if k < 4 * (i - 1) {
                            assert(self.vertices@[k] == vertices_before[k]);
                            assert(items.take(i - 1)[k / 4] == items.take(i as int)[k / 4]);
                        } else {
                            assert(k / 4 == i - 1);
                        }
                    }
                }
                assert(self.indices@ =~= index_stream(i as nat)) by {
                    assert forall|k: int| 0 <= k < 6 * i implies self.indices@[k] == (4 * (k / 6)
                        + corner(k % 6)) as u16 by {
                        if k < 6 * (i - 1) {
                            assert(self.indices@[k] == indices_before[k]);
                        } else {
                            assert(k / 6 == i - 1);
                        }
                    }
                }
            }
        }
        assert(items.take(image_vertices.len() as int) =~= items);
        assert(textures.take(image_vertices.len() as int) =~= textures);
        Ok(())
    }

    /// The draw commands of the batch: the pipeline and the streams are
    /// bound once; then, for each texture in the order of first use, one
    /// command binds it and one draws each of its ranges, in the order in
    /// which they were recorded.
    pub fn render(&self) -> (commands: Vec<DrawCommand>)
        ensures
            commands@ == frame(self@.groups),
    {
        let ghost groups = group_views(self.groups@);
        let ghost begin = seq![DrawCommand::Begin];
        let mut commands: Vec<DrawCommand> = Vec::new();
        commands.push(DrawCommand::Begin);
        let mut j: usize = 0;
        assert(commands@ =~= begin + commands_of(groups.take(0)));
        while j < self.groups.len()
            invariant
                j <= self.groups.len(),
                groups == group_views(self.groups@),
                begin == seq![DrawCommand::Begin],
                commands@ == begin + commands_of(groups.take(j as int)),
            decreases self.groups.len() - j,
        {
            let group = &self.groups[j];
            commands.push(DrawCommand::Bind(group.texture));
            let ghost head = commands@;
            let mut k: usize = 0;
            assert(commands@ =~= head + draws_of(group.ranges@.take(0)));
            while k < group.ranges.len()
                invariant
                    k <= group.ranges.len(),
                    commands@ == head + draws_of(group.ranges@.take(k as int)),
                decreases group.ranges.len() - k,
            {
                let range = group.ranges[k];
                commands.push(DrawCommand::Draw(range.0, range.1));
                k = k + 1;
                assert(commands@ =~= head + draws_of(group.ranges@.take(k as int)));
            }
            assert(group.ranges@.take(group.ranges.len() as int) =~= group.ranges@);
            j = j + 1;
            proof {
                let upto = groups.take(j as int);
                assert(upto.drop_last() =~= groups.take(j - 1));
                assert(upto.last() == groups[j - 1]);
                assert(commands@ =~= begin + commands_of(upto));
            }
        }
        assert(groups.take(self.groups.len() as int) =~= groups);
        commands
    }

    /// The vertex stream to upload.
    pub fn vertices(&self) -> (vertices: &Vec<V>)
        ensures
            vertices@ == self@.vertices,
    {
        &self.vertices
    }

    /// The index stream to upload.
    pub fn indices(&self) -> (indices: &Vec<u16>)
        ensures
            indices@ == self@.indices,
    {
        &self.indices
    }
}

} // verus!
