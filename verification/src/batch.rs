//! The per-frame batching algorithm: measuring the draw list, sizing the
//! buffers, staging uploads and recording one draw per item, in list order.

use vstd::prelude::*;
use crate::buffer::{grown, BufferUsage};
use crate::mesh::{DrawItem, Rectangle};
use crate::pipeline::{Pipeline, INDEX_SIZE_BYTES, UNIFORM_SIZE_BYTES, VERTEX_SIZE_BYTES};
use crate::transform::{
    bounded_float_bits, bounded_matrix, lemma_translation_bounded, mat_mul, mat_mul_bits,
    translation_bits, Transformation, Uniforms,
};

verus! {

/// The two running totals of the measuring pass: vertices and indices over
/// the whole draw list, accumulated item by item.
pub open spec fn counted_totals(items: Seq<DrawItem>) -> (int, int)
    decreases items.len(),
{
    if items.len() == 0 {
        (0, 0)
    } else {
        let rest = counted_totals(items.drop_last());
        (
            rest.0 + items.last().mesh.vertices@.len(),
            rest.1 + items.last().mesh.indices@.len(),
        )
    }
}

/// The number of vertices in the first `k` items: the element offset at
/// which item `k`'s vertices are stored.
pub open spec fn vertex_count_prefix(items: Seq<DrawItem>, k: int) -> int
    decreases k,
{
    if k <= 0 {
        0
    } else {
        vertex_count_prefix(items, k - 1) + items[k - 1].mesh.vertices@.len()
    }
}

/// The number of indices in the first `k` items: the element offset at
/// which item `k`'s indices are stored.
pub open spec fn index_count_prefix(items: Seq<DrawItem>, k: int) -> int
    decreases k,
{
    if k <= 0 {
        0
    } else {
        index_count_prefix(items, k - 1) + items[k - 1].mesh.indices@.len()
    }
}

/// Prefix counts only read the items before the cut.
proof fn lemma_prefix_ignores_last(items: Seq<DrawItem>, k: int)
    requires
        0 <= k < items.len(),
    ensures
        vertex_count_prefix(items.drop_last(), k) == vertex_count_prefix(items, k),
        index_count_prefix(items.drop_last(), k) == index_count_prefix(items, k),
    decreases k,
{
    if k > 0 {
        lemma_prefix_ignores_last(items, k - 1);
    }
}

/// The sum of the per-item vertex and index counts equals the totals the
/// measuring pass computes to size the buffers.
pub proof fn lemma_recorded_counts_match_totals(items: Seq<DrawItem>)
    ensures
        vertex_count_prefix(items, items.len() as int) == counted_totals(items).0,
        index_count_prefix(items, items.len() as int) == counted_totals(items).1,
    decreases items.len(),
{
    if items.len() > 0 {
        lemma_recorded_counts_match_totals(items.drop_last());
        lemma_prefix_ignores_last(items, items.len() - 1);
    }
}

/// Prefix counts never decrease as the cut moves right.
pub proof fn lemma_prefix_monotonic(items: Seq<DrawItem>, j: int, k: int)
    requires
        0 <= j <= k,
    ensures
        vertex_count_prefix(items, j) <= vertex_count_prefix(items, k),
        index_count_prefix(items, j) <= index_count_prefix(items, k),
    decreases k,
{
    if j < k {
        lemma_prefix_monotonic(items, j, k - 1);
    }
}

/// The machine limits a frame must respect so that every byte offset and
/// size fits the GPU's 64-bit addresses and the host's pointer width: the
/// caller cannot exceed them without running out of memory first.
pub open spec fn fits_frame(items: Seq<DrawItem>) -> bool {
    &&& counted_totals(items).0 * VERTEX_SIZE_BYTES <= u64::MAX
    &&& counted_totals(items).1 * INDEX_SIZE_BYTES <= u64::MAX
    &&& items.len() * UNIFORM_SIZE_BYTES <= u64::MAX
    &&& counted_totals(items).0 <= usize::MAX
    &&& counted_totals(items).1 <= usize::MAX
    &&& forall|i: int| 0 <= i < items.len() ==> items[i].mesh.indices@.len() <= u32::MAX
}

/// Whether every origin coordinate of a draw list is a bounded float bit
/// pattern, so that every per-item translation can be composed with the
/// frame's transform without overflow or NaN.
pub open spec fn bounded_origins(items: Seq<DrawItem>) -> bool {
    forall|i: int|
        0 <= i < items.len() ==> bounded_float_bits(#[trigger] items[i].origin.x)
            && bounded_float_bits(items[i].origin.y)
}

/// Decides whether every origin coordinate of a draw list is a bounded
/// float bit pattern, so that an unverified caller can test it before
/// batching.
pub fn origins_bounded(meshes: &Vec<DrawItem>) -> (r: bool)
    ensures
        r == bounded_origins(meshes@),
{
    let mut i: usize = 0;
    while i < meshes.len()
        invariant
            i <= meshes@.len(),
            forall|k: int|
                0 <= k < i ==> bounded_float_bits(#[trigger] meshes@[k].origin.x)
                    && bounded_float_bits(meshes@[k].origin.y),
        decreases meshes@.len() - i,
    {
        let origin = &meshes[i].origin;
        if (origin.x / 0x80_0000) % 0x100 >= 0xBD || (origin.y / 0x80_0000) % 0x100 >= 0xBD {
            proof {
                assert(!bounded_float_bits(meshes@[i as int].origin.x) || !bounded_float_bits(
                    meshes@[i as int].origin.y,
                ));
            }
            return false;
        }
        proof {
            assert(bounded_float_bits(meshes@[i as int].origin.x));
            assert(bounded_float_bits(meshes@[i as int].origin.y));
            assert forall|k: int|
                0 <= k < i + 1 implies bounded_float_bits(#[trigger] meshes@[k].origin.x)
                && bounded_float_bits(meshes@[k].origin.y) by {
                if k == i as int {
                    assert(bounded_float_bits(meshes@[k].origin.x));
                    assert(bounded_float_bits(meshes@[k].origin.y));
                }
            }
        }
        i = i + 1;
    }
    true
}

/// Decides whether a draw list respects the machine limits of a frame, so
/// that an unverified caller can test them before batching.
pub fn frame_fits(meshes: &Vec<DrawItem>) -> (r: bool)
    ensures
        r == fits_frame(meshes@),
{
    let mut total_vertices: u128 = 0;
    let mut total_indices: u128 = 0;
    let mut i: usize = 0;
    while i < meshes.len()
        invariant
            i <= meshes@.len(),
            total_vertices == vertex_count_prefix(meshes@, i as int),
            total_indices == index_count_prefix(meshes@, i as int),
            total_vertices <= usize::MAX,
            total_indices <= usize::MAX,
            forall|k: int| 0 <= k < i ==> meshes@[k].mesh.indices@.len() <= u32::MAX,
        decreases meshes@.len() - i,
    {
        let item = &meshes[i];
        if (item.mesh.indices.len() as u64) > (u32::MAX as u64) {
            return false;
        }
        let next_vertices = total_vertices + (item.mesh.vertices.len() as u128);
        let next_indices = total_indices + (item.mesh.indices.len() as u128);
        if next_vertices > (usize::MAX as u128) || next_indices > (usize::MAX as u128) {
            proof {
                lemma_prefix_monotonic(meshes@, i + 1, meshes@.len() as int);
                lemma_recorded_counts_match_totals(meshes@);
            }
            return false;
        }
        total_vertices = next_vertices;
        total_indices = next_indices;
        i = i + 1;
    }
    proof {
        lemma_recorded_counts_match_totals(meshes@);
    }
    total_vertices * 24 <= (u64::MAX as u128) && total_indices * 4 <= (u64::MAX as u128) && (
    meshes.len() as u128) * 64 <= (u64::MAX as u128)
}

/// Where the staged bytes of one scheduled copy come from.
#[derive(Clone, Copy, PartialEq, Eq, Structural, Debug)]
pub enum CopySource {
    /// The vertices of the draw list's item at this position.
    Vertices {
        /// The item's position in the draw list.
        item: usize,
    },
    /// The indices of the draw list's item at this position.
    Indices {
        /// The item's position in the draw list.
        item: usize,
    },
    /// The frame's whole uniform array, staged once after the item loop.
    UniformArray,
}

/// One scheduled buffer-to-buffer copy: staged data of one source, written
/// into a persistent buffer at a byte offset.
#[derive(Clone, Copy, PartialEq, Eq, Structural, Debug)]
pub struct CopyCommand {
    /// What is staged.
    pub source: CopySource,
    /// Which persistent buffer receives the bytes.
    pub destination: BufferUsage,
    /// Byte offset into the destination buffer.
    pub dst_offset: u64,
    /// Number of bytes copied.
    pub size: u64,
}

/// One recorded indexed draw, with everything bound for it.
#[derive(Clone, Copy, PartialEq, Eq, Structural, Debug)]
pub struct DrawCommand {
    /// Dynamic byte offset into the uniform buffer for this item's
    /// uniforms.
    pub uniform_offset: u64,
    /// Byte offset into the index buffer where this item's indices start.
    pub index_offset: u64,
    /// Byte offset into the vertex buffer where this item's vertices
    /// start.
    pub vertex_offset: u64,
    /// How many indices the draw covers.
    pub index_count: u32,
    /// The value added to every index before vertex lookup; always zero.
    pub base_vertex: i32,
    /// How many instances are drawn; always one.
    pub instance_count: u32,
    /// The scissor rectangle restricting the draw.
    pub scissor: Rectangle,
}

/// How the existing contents of the pass's color attachment are treated.
#[derive(Clone, Copy, PartialEq, Eq, Structural, Debug)]
pub enum LoadOp {
    /// Clear the attachment to transparent black before drawing.
    Clear,
    /// Preserve the attachment's contents, compositing over them.
    Load,
}

/// Which color attachment the render pass draws into.
#[derive(Clone, Copy, PartialEq, Eq, Structural, Debug)]
pub enum Attachment {
    /// The resolver's offscreen multisampled attachment, sized to the
    /// target; the result reaches the real target through a resolve step.
    Multisampled {
        /// Width of the attachment, in pixels.
        width: u32,
        /// Height of the attachment, in pixels.
        height: u32,
        /// Samples per pixel.
        sample_count: u32,
    },
    /// The caller's target itself.
    Direct,
}

/// Everything one frame asks of the GPU, in submission order: the staged
/// copies, the uniform array they stage, one render pass over the recorded
/// draws, and at most one resolve step.
#[derive(Clone, PartialEq, Eq, Debug)]
pub struct FramePlan {
    /// The scheduled buffer copies, per-item copies first, in item order,
    /// then the single uniform-array copy.
    pub copies: Vec<CopyCommand>,
    /// One uniform element per draw item, in item order.
    pub uniforms: Vec<Uniforms>,
    /// Which color attachment the pass draws into.
    pub attachment: Attachment,
    /// How the attachment's existing contents are treated.
    pub load_op: LoadOp,
    /// The recorded draws, exactly one per item, in item order.
    pub draws: Vec<DrawCommand>,
    /// Whether a resolve step runs after the pass; it runs exactly once
    /// when it does.
    pub resolve: bool,
}

impl Pipeline {
    /// Batches one frame: measures the draw list, grows the three buffers
    /// to hold it, stages every item's data and uniforms, and records one
    /// indexed draw per item, in list order, so that later items composite
    /// over earlier ones.
    ///
    /// The returned plan is everything the frame asks of the GPU; an empty
    /// draw list yields a plan with no copies and no draws.
    ///
    /// The frame's transform and every origin must hold bounded float bit
    /// patterns, so that composing them stays NaN-free; `matrix_is_bounded`
    /// and `origins_bounded` test this at run time.
    #[verifier::loop_isolation(false)]
    pub fn draw(
        &mut self,
        transformation: &Transformation,
        target_width: u32,
        target_height: u32,
        meshes: &Vec<DrawItem>,
        bounds: Rectangle,
    ) -> (plan: FramePlan)
        requires
            old(self).wf(),
            fits_frame(meshes@),
            bounded_matrix(transformation.matrix@),
            bounded_origins(meshes@),
        ensures
            final(self).wf(),
            final(self).config == old(self).config,
            final(self).blit == old(self).blit,
            final(self).uniforms_buffer.size == grown(
                old(self).uniforms_buffer.size as int,
                meshes@.len() as int,
            ),
            final(self).vertex_buffer.size == grown(
                old(self).vertex_buffer.size as int,
                counted_totals(meshes@).0,
            ),
            final(self).index_buffer.size == grown(
                old(self).index_buffer.size as int,
                counted_totals(meshes@).1,
            ),
            plan.uniforms@.len() == meshes@.len(),
            forall|i: int|
                0 <= i < meshes@.len() ==> plan.uniforms@[i].transform@ == mat_mul_bits(
                    transformation.matrix@,
                    translation_bits(meshes@[i].origin.x, meshes@[i].origin.y),
                ),
            plan.copies@.len() == if meshes@.len() == 0 {
                0int
            } else {
                2 * (meshes@.len() as int) + 1
            },
            forall|i: int|
                0 <= i < meshes@.len() ==> plan.copies@[2 * i] == (CopyCommand {
                    source: CopySource::Vertices { item: i as usize },
                    destination: BufferUsage::Vertex,
                    dst_offset: (VERTEX_SIZE_BYTES * vertex_count_prefix(meshes@, i)) as u64,
                    size: (VERTEX_SIZE_BYTES * meshes@[i].mesh.vertices@.len()) as u64,
                }),
            forall|i: int|
                0 <= i < meshes@.len() ==> plan.copies@[2 * i + 1] == (CopyCommand {
                    source: CopySource::Indices { item: i as usize },
                    destination: BufferUsage::Index,
                    dst_offset: (INDEX_SIZE_BYTES * index_count_prefix(meshes@, i)) as u64,
                    size: (INDEX_SIZE_BYTES * meshes@[i].mesh.indices@.len()) as u64,
                }),
            meshes@.len() > 0 ==> plan.copies@[2 * (meshes@.len() as int)] == (CopyCommand {
                source: CopySource::UniformArray,
                destination: BufferUsage::Uniform,
                dst_offset: 0,
                size: (UNIFORM_SIZE_BYTES * meshes@.len()) as u64,
            }),
            plan.draws@.len() == meshes@.len(),
            forall|i: int|
                0 <= i < meshes@.len() ==> plan.draws@[i] == (DrawCommand {
                    uniform_offset: (UNIFORM_SIZE_BYTES * i) as u64,
                    index_offset: (INDEX_SIZE_BYTES * index_count_prefix(meshes@, i)) as u64,
                    vertex_offset: (VERTEX_SIZE_BYTES * vertex_count_prefix(meshes@, i)) as u64,
                    index_count: meshes@[i].mesh.indices@.len() as u32,
                    base_vertex: 0,
                    instance_count: 1,
                    scissor: bounds,
                }),
            plan.attachment == (match old(self).blit {
                Option::Some(a) => Attachment::Multisampled {
                    width: target_width,
                    height: target_height,
                    sample_count: a.spec_sample_count(),
                },
                Option::None => Attachment::Direct,
            }),
            plan.load_op == (if old(self).blit is Some {
                LoadOp::Clear
            } else {
                LoadOp::Load
            }),
            plan.resolve == (old(self).blit is Some),
            meshes@.len() == 0 ==> plan.copies@.len() == 0 && plan.draws@.len() == 0,
    {
        // Measure: one pass over the list, summing vertex and index counts.
        let mut total_vertices: usize = 0;
        let mut total_indices: usize = 0;
        let mut i: usize = 0;
        while i < meshes.len()
            invariant
                i <= meshes@.len(),
                total_vertices == vertex_count_prefix(meshes@, i as int),
                total_indices == index_count_prefix(meshes@, i as int),
            decreases meshes@.len() - i,
        {
            proof {
                lemma_prefix_monotonic(meshes@, i + 1, meshes@.len() as int);
                lemma_recorded_counts_match_totals(meshes@);
            }
            let item = &meshes[i];
            total_vertices = total_vertices + item.mesh.vertices.len();
            total_indices = total_indices + item.mesh.indices.len();
            i = i + 1;
        }
        proof {
            lemma_recorded_counts_match_totals(meshes@);
        }
        // Grow the buffers; the only point where capacities change.
        let _ = self.uniforms_buffer.ensure_capacity(meshes.len());
        let _ = self.vertex_buffer.ensure_capacity(total_vertices);
        let _ = self.index_buffer.ensure_capacity(total_indices);

        // Stage every item's data and record its draw, in list order.
        let mut uniforms: Vec<Uniforms> = Vec::with_capacity(meshes.len());
        let mut copies: Vec<CopyCommand> = Vec::new();
        let mut draws: Vec<DrawCommand> = Vec::with_capacity(meshes.len());
        let mut last_vertex: usize = 0;
        let mut last_index: usize = 0;
        let mut j: usize = 0;
        while j < meshes.len()
            invariant
                j <= meshes@.len(),
                last_vertex == vertex_count_prefix(meshes@, j as int),
                last_index == index_count_prefix(meshes@, j as int),
                uniforms@.len() == j,
                draws@.len() == j,
                copies@.len() == 2 * j,
                forall|k: int|
                    0 <= k < j ==> uniforms@[k].transform@ == mat_mul_bits(
                        transformation.matrix@,
                        translation_bits(meshes@[k].origin.x, meshes@[k].origin.y),
                    ),
                forall|k: int|
                    0 <= k < j ==> copies@[2 * k] == (CopyCommand {
                        source: CopySource::Vertices { item: k as usize },
                        destination: BufferUsage::Vertex,
                        dst_offset: (VERTEX_SIZE_BYTES * vertex_count_prefix(meshes@, k)) as u64,
                        size: (VERTEX_SIZE_BYTES * meshes@[k].mesh.vertices@.len()) as u64,
                    }),
                forall|k: int|
                    0 <= k < j ==> copies@[2 * k + 1] == (CopyCommand {
                        source: CopySource::Indices { item: k as usize },
                        destination: BufferUsage::Index,
                        dst_offset: (INDEX_SIZE_BYTES * index_count_prefix(meshes@, k)) as u64,
                        size: (INDEX_SIZE_BYTES * meshes@[k].mesh.indices@.len()) as u64,
                    }),
                forall|k: int|
                    0 <= k < j ==> draws@[k] == (DrawCommand {
                        uniform_offset: (UNIFORM_SIZE_BYTES * k) as u64,
                        index_offset: (INDEX_SIZE_BYTES * index_count_prefix(meshes@, k)) as u64,
                        vertex_offset: (VERTEX_SIZE_BYTES * vertex_count_prefix(meshes@, k)) as u64,
                        index_count: meshes@[k].mesh.indices@.len() as u32,
                        base_vertex: 0,
                        instance_count: 1,
                        scissor: bounds,
                    }),
            decreases meshes@.len() - j,
        {
            proof {
                lemma_prefix_monotonic(meshes@, j + 1, meshes@.len() as int);
            }
            let item = &meshes[j];
            let translated = Transformation::translate(item.origin.x, item.origin.y);
            proof {
                assert(bounded_float_bits(meshes@[j as int].origin.x));
                lemma_translation_bounded(item.origin.x, item.origin.y);
            }
            let transform = mat_mul(transformation, &translated);
            uniforms.push(Uniforms { transform: transform.matrix });

            let vertex_count = item.mesh.vertices.len();
            let index_count = item.mesh.indices.len();
            copies.push(
                CopyCommand {
                    source: CopySource::Vertices { item: j },
                    destination: BufferUsage::Vertex,
                    dst_offset: (last_vertex as u64) * 24,
                    size: (vertex_count as u64) * 24,
                },
            );
            copies.push(
                CopyCommand {
                    source: CopySource::Indices { item: j },
                    destination: BufferUsage::Index,
                    dst_offset: (last_index as u64) * 4,
                    size: (index_count as u64) * 4,
                },
            );
            draws.push(
                DrawCommand {
                    uniform_offset: (j as u64) * 64,
                    index_offset: (last_index as u64) * 4,
                    vertex_offset: (last_vertex as u64) * 24,
                    index_count: index_count as u32,
                    base_vertex: 0,
                    instance_count: 1,
                    scissor: bounds,
                },
            );
            last_vertex = last_vertex + vertex_count;
            last_index = last_index + index_count;
            j = j + 1;
        }
        // Stage the whole uniform array and schedule its single copy.
        if meshes.len() > 0 {
            copies.push(
                CopyCommand {
                    source: CopySource::UniformArray,
                    destination: BufferUsage::Uniform,
                    dst_offset: 0,
                    size: (meshes.len() as u64) * 64,
                },
            );
        }
        // Select the render target: offscreen and cleared with
        // antialiasing, the caller's target and preserved without.
        let (attachment, load_op, resolve) = match self.blit {
            Some(a) => (
                Attachment::Multisampled {
                    width: target_width,
                    height: target_height,
                    sample_count: a.sample_count(),
                },
                LoadOp::Clear,
                true,
            ),
            None => (Attachment::Direct, LoadOp::Load, false),
        };
        FramePlan { copies, uniforms, attachment, load_op, draws, resolve }
    }
}

} // verus!
