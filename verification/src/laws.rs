use vstd::prelude::*;
use crate::render::{
    Render, Instance, Vertex, instance_default, instance_appended, instance_updated, mesh_added,
    buffers_wf, rendered, z_stored, F32_ONE_BITS,
};

verus! {

/// A successfully uploaded mesh stores an index buffer whose values all land
/// inside its vertex list.
pub proof fn lemma_uploaded_indices_in_bounds(
    pre: Render,
    post: Render,
    vs: Seq<Vertex>,
    is: Seq<u16>,
)
    requires
        mesh_added(pre, post, vs, is),
        buffers_wf(vs, is),
    ensures
        forall|k: int|
            0 <= k < post.calls().last().indices@.len() ==> (
            #[trigger] post.calls().last().indices@[k] as int) < post.calls().last(
            ).vertices@.len(),
{
}

/// An instance added at `(x, y)` holds exactly that position, no rotation,
/// scale one and opacity one, and it sits at the index that was returned:
/// the count of instances the mesh held before.
pub proof fn lemma_added_instance_defaults(pre: Render, post: Render, m: int, x: u32, y: u32)
    requires
        0 <= m < pre.calls().len(),
        instance_appended(pre, post, m, instance_default(x, y)),
    ensures
        post.inst(m, pre.calls()[m].instances@.len() as int).x == x,
        post.inst(m, pre.calls()[m].instances@.len() as int).y == y,
        post.inst(m, pre.calls()[m].instances@.len() as int).rotation == 0,
        post.inst(m, pre.calls()[m].instances@.len() as int).scale == F32_ONE_BITS,
        post.inst(m, pre.calls()[m].instances@.len() as int).alpha == F32_ONE_BITS,
{
}

/// The depth transform is an involution: reading back a stored depth gives
/// the original input, and the boundary inputs 0 and 255 store 255 and 0.
pub proof fn lemma_depth_round_trip(v: u8)
    ensures
        z_stored(z_stored(v)) == v,
        z_stored(0) == 255,
        z_stored(255) == 0,
{
}

/// Writing an instance field leaves the owning mesh dirty, and a following
/// rendered frame clears that flag again without altering any instance of
/// any mesh.
pub proof fn lemma_dirty_write_render_cycle(
    pre: Render,
    mid: Render,
    post: Render,
    m: int,
    i: int,
    inst: Instance,
)
    requires
        0 <= m < pre.calls().len(),
        0 <= i < pre.calls()[m].instances@.len(),
        instance_updated(pre, mid, m, i, inst),
        rendered(mid, post),
    ensures
        mid.calls()[m].dirty,
        !post.calls()[m].dirty,
        post.calls()[m].instances@ == pre.calls()[m].instances@.update(i, inst),
        forall|j: int|
            0 <= j < pre.calls().len() && j != m ==> #[trigger] post.calls()[j].instances
                == pre.calls()[j].instances,
{
}

} // verus!
