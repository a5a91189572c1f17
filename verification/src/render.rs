use vstd::prelude::*;
use crate::path::{PathCmd, path_events};
use crate::tess::{fill_tessellation, tessellate_events};
use crate::path::events_of_path;
use crate::MAX_MESH_INSTANCES;
use lyon::math::Point;

verus! {

/// Bit pattern of the single-precision value one.
pub const F32_ONE_BITS: u32 = 0x3F800000;

/// A fill color, one byte per channel.
#[derive(Copy, Clone, Debug, PartialEq, Eq, Structural)]
pub struct Color {
    pub red: u8,
    pub green: u8,
    pub blue: u8,
}

/// Why an engine call was rejected.
#[derive(Copy, Clone, Debug, PartialEq, Eq, Structural)]
pub enum RenderError {
    /// The path could not be tessellated: malformed, degenerate or empty.
    Tessellation,
    /// Uploaded buffers break the index-bound or size invariant.
    InvalidGeometry,
    /// A `(mesh, instance)` reference does not name an existing entry.
    InvalidReference,
    /// A mesh holds more instances than its streaming buffer can take.
    CapacityExceeded,
}

/// One vertex of an uploaded mesh: a position and the baked fill color.
///
/// The color channels keep the byte values the fill color was given with;
/// `alpha` is the bit pattern of the fill opacity. Both are normalized only
/// when the vertex buffer is built for the GPU.
#[derive(Copy, Clone)]
pub struct Vertex {
    pub pos: Point,
    pub red: u8,
    pub green: u8,
    pub blue: u8,
    pub alpha: u32,
}

/// Bakes a fill color and opacity into the vertices a tessellation produced.
#[derive(Copy, Clone)]
pub struct VertexCtor {
    color: Color,
    alpha: u32,
}

/// The vertex a constructor bakes for a position.
pub open spec fn baked_vertex(color: Color, alpha: u32, pos: Point) -> Vertex {
    Vertex { pos, red: color.red, green: color.green, blue: color.blue, alpha }
}

/// The vertices a constructor bakes for a position sequence, in order.
pub open spec fn baked_vertices(color: Color, alpha: u32, ps: Seq<Point>) -> Seq<Vertex> {
    ps.map_values(|p: Point| baked_vertex(color, alpha, p))
}

impl VertexCtor {
    /// The color this constructor bakes.
    pub closed spec fn color(self) -> Color {
        self.color
    }

    /// The opacity bits this constructor bakes.
    pub closed spec fn alpha(self) -> u32 {
        self.alpha
    }

    /// A constructor that bakes `color` with the given opacity bits.
    pub fn new(color: Color, alpha: u32) -> (r: VertexCtor)
        ensures
            r.color() == color,
            r.alpha() == alpha,
    {
        VertexCtor { color, alpha }
    }

    /// Bake one vertex at the given position.
    pub fn new_vertex(&self, pos: Point) -> (r: Vertex)
        ensures
            r == baked_vertex(self.color(), self.alpha(), pos),
    {
        Vertex {
            pos,
            red: self.color.red,
            green: self.color.green,
            blue: self.color.blue,
            alpha: self.alpha,
        }
    }
}

/// The depth byte stored for a `set_z` input: the input reflected around the
/// middle of the byte range, so that input 0 is the farthest depth.
pub open spec fn z_stored(input: u8) -> u8 {
    (255 - input) as u8
}

/// One positioned, rotated, scaled and tinted occurrence of a mesh.
///
/// Every scalar is kept as the exact single-precision bit pattern it was set
/// with; the engine stores them and streams them to the GPU, and never
/// computes with them. The depth is kept as a byte; the GPU reads it as
/// `depth / 255`.
#[derive(Copy, Clone, Debug, PartialEq, Eq, Structural)]
pub struct Instance {
    /// X position bits.
    pub x: u32,
    /// Y position bits.
    pub y: u32,
    /// Stored depth byte; see [`z_stored`].
    pub depth: u8,
    /// Rotation bits, in radians.
    pub rotation: u32,
    /// Uniform scale bits.
    pub scale: u32,
    /// Red color-multiplier bits.
    pub color_r: u32,
    /// Green color-multiplier bits.
    pub color_g: u32,
    /// Blue color-multiplier bits.
    pub color_b: u32,
    /// Opacity bits.
    pub alpha: u32,
}

/// The instance `Instance::new` builds: the given position, depth 0, no
/// rotation, scale one, white color multiplier, opacity one.
pub open spec fn instance_default(x: u32, y: u32) -> Instance {
    Instance {
        x,
        y,
        depth: 0,
        rotation: 0,
        scale: F32_ONE_BITS,
        color_r: F32_ONE_BITS,
        color_g: F32_ONE_BITS,
        color_b: F32_ONE_BITS,
        alpha: F32_ONE_BITS,
    }
}

impl Instance {
    /// Create a new instance at a position.
    pub fn new(x: u32, y: u32) -> (r: Instance)
        ensures
            r == instance_default(x, y),
    {
        Instance {
            x,
            y,
            depth: 0,
            rotation: 0,
            scale: F32_ONE_BITS,
            color_r: F32_ONE_BITS,
            color_g: F32_ONE_BITS,
            color_b: F32_ONE_BITS,
            alpha: F32_ONE_BITS,
        }
    }

    /// Set the X position bits.
    pub fn set_x(&mut self, new: u32)
        ensures
            *final(self) == (Instance { x: new, ..*old(self) }),
    {
        self.x = new;
    }

    /// Get the X position bits.
    pub fn x(&self) -> (r: u32)
        ensures
            r == self.x,
    {
        self.x
    }

    /// Set the Y position bits.
    pub fn set_y(&mut self, new: u32)
        ensures
            *final(self) == (Instance { y: new, ..*old(self) }),
    {
        self.y = new;
    }

    /// Get the Y position bits.
    pub fn y(&self) -> (r: u32)
        ensures
            r == self.y,
    {
        self.y
    }

    /// Set the depth from an 8-bit input; input 0 stores the farthest depth.
    pub fn set_z(&mut self, new: u8)
        ensures
            *final(self) == (Instance { depth: z_stored(new), ..*old(self) }),
    {
        self.depth = 255 - new;
    }

    /// Get the stored depth byte.
    pub fn z(&self) -> (r: u8)
        ensures
            r == self.depth,
    {
        self.depth
    }

    /// Set the uniform scale bits.
    pub fn set_scale(&mut self, scale: u32)
        ensures
            *final(self) == (Instance { scale: scale, ..*old(self) }),
    {
        self.scale = scale;
    }

    /// Get the uniform scale bits.
    pub fn scale(&self) -> (r: u32)
        ensures
            r == self.scale,
    {
        self.scale
    }

    /// Set the rotation bits.
    pub fn set_rotation(&mut self, rotation: u32)
        ensures
            *final(self) == (Instance { rotation: rotation, ..*old(self) }),
    {
        self.rotation = rotation;
    }

    /// Get the rotation bits.
    pub fn rotation(&self) -> (r: u32)
        ensures
            r == self.rotation,
    {
        self.rotation
    }

    /// Set the color-multiplier bits, one channel at a time.
    pub fn set_color_multiplier(&mut self, r: u32, g: u32, b: u32)
        ensures
            *final(self) == (Instance { color_r: r, color_g: g, color_b: b, ..*old(self) }),
    {
        self.color_r = r;
        self.color_g = g;
        self.color_b = b;
    }

    /// Get the color-multiplier bits.
    pub fn color_multiplier(&self) -> (r: (u32, u32, u32))
        ensures
            r == (self.color_r, self.color_g, self.color_b),
    {
        (self.color_r, self.color_g, self.color_b)
    }

    /// Set the opacity bits.
    pub fn set_alpha(&mut self, alpha: u32)
        ensures
            *final(self) == (Instance { alpha: alpha, ..*old(self) }),
    {
        self.alpha = alpha;
    }

    /// Get the opacity bits.
    pub fn alpha(&self) -> (r: u32)
        ensures
            r == self.alpha,
    {
        self.alpha
    }
}

/// A reference to an uploaded mesh.
#[derive(Copy, Clone, Debug, PartialEq, Eq, Structural)]
pub struct Mesh(usize);

impl Mesh {
    /// The registry slot this handle names.
    pub closed spec fn idx(self) -> int {
        self.0 as int
    }

    /// The registry slot this handle names.
    pub fn index(&self) -> (r: usize)
        ensures
            r as int == self.idx(),
    {
        self.0
    }
}

/// One uploaded mesh: its geometry, its instances, and its GPU state.
pub struct DrawCall {
    /// Mesh vertices, immutable after upload.
    pub vertices: Vec<Vertex>,
    /// Triangle indices into `vertices`, immutable after upload.
    pub indices: Vec<u16>,
    /// Whether GPU bindings exist for this mesh yet.
    pub bound: bool,
    /// The instances to draw, in creation order.
    pub instances: Vec<Instance>,
    /// Whether `instances` changed since the last upload to the GPU.
    pub dirty: bool,
}

/// The geometry invariant of one registry entry: every index lands inside the
/// vertex list, and both buffers fit the fixed streaming capacity.
pub open spec fn draw_call_wf(dc: DrawCall) -> bool {
    &&& dc.vertices@.len() <= MAX_MESH_INSTANCES
    &&& dc.indices@.len() <= MAX_MESH_INSTANCES
    &&& forall|k: int| 0 <= k < dc.indices@.len() ==> (dc.indices@[k] as int) < dc.vertices@.len()
}

/// Buffers that may be uploaded: see [`draw_call_wf`].
pub open spec fn buffers_wf(vs: Seq<Vertex>, is: Seq<u16>) -> bool {
    &&& vs.len() <= MAX_MESH_INSTANCES
    &&& is.len() <= MAX_MESH_INSTANCES
    &&& forall|k: int| 0 <= k < is.len() ==> (is[k] as int) < vs.len()
}

/// What tessellating a command sequence yields: positions and triangle
/// indices, or `None` when the path is malformed or tessellation fails.
pub open spec fn tess_of_path(cmds: Seq<PathCmd>) -> Option<(Seq<Point>, Seq<u16>)> {
    match path_events(cmds) {
        None => None,
        Some(evs) => fill_tessellation(evs),
    }
}

/// One GPU action of a frame, in the order the frame issues them.
#[derive(Copy, Clone, Debug, PartialEq, Eq, Structural)]
pub enum GpuCmd {
    /// Create the vertex, index and streaming instance buffers of a mesh.
    CreateBindings { mesh: usize },
    /// Re-upload a mesh's instance array to its streaming buffer.
    UploadInstances { mesh: usize },
    /// One instanced draw call for a mesh.
    Draw { mesh: usize, index_count: usize, instance_count: usize },
}

/// Everything one frame asks of the GPU: the actions in order, and the
/// camera state the draw calls bind.
#[derive(Debug)]
pub struct FramePlan {
    /// The GPU actions, in issue order.
    pub commands: Vec<GpuCmd>,
    /// Camera pan X bits.
    pub pan_x: u32,
    /// Camera pan Y bits.
    pub pan_y: u32,
    /// Camera zoom bits.
    pub zoom: u32,
}

/// The binding-creation actions of a frame: one per mesh still unbound, in
/// registry order.
pub open spec fn binding_cmds(calls: Seq<DrawCall>) -> Seq<GpuCmd>
    decreases calls.len(),
{
    if calls.len() == 0 {
        Seq::empty()
    } else {
        let prefix = binding_cmds(calls.drop_last());
        if !calls.last().bound {
            prefix.push(GpuCmd::CreateBindings { mesh: (calls.len() - 1) as usize })
        } else {
            prefix
        }
    }
}

/// The upload and draw actions of a frame, in registry order: a mesh without
/// instances is skipped entirely; a dirty mesh is re-uploaded before it is
/// drawn.
pub open spec fn draw_cmds(calls: Seq<DrawCall>) -> Seq<GpuCmd>
    decreases calls.len(),
{
    if calls.len() == 0 {
        Seq::empty()
    } else {
        let dc = calls.last();
        let m = (calls.len() - 1) as usize;
        let prefix = draw_cmds(calls.drop_last());
        if dc.instances@.len() == 0 {
            prefix
        } else {
            let draw = GpuCmd::Draw {
                mesh: m,
                index_count: dc.indices@.len() as usize,
                instance_count: dc.instances@.len() as usize,
            };
            if dc.dirty {
                prefix + seq![GpuCmd::UploadInstances { mesh: m }, draw]
            } else {
                prefix.push(draw)
            }
        }
    }
}

/// All GPU actions of one frame: first the missing bindings, then the
/// uploads and draws.
pub open spec fn frame_commands(calls: Seq<DrawCall>) -> Seq<GpuCmd> {
    binding_cmds(calls) + draw_cmds(calls)
}

/// How many draw calls a command sequence issues.
pub open spec fn draw_count(cmds: Seq<GpuCmd>) -> nat
    decreases cmds.len(),
{
    if cmds.len() == 0 {
        0
    } else {
        draw_count(cmds.drop_last()) + match cmds.last() {
            GpuCmd::Draw { .. } => 1nat,
            _ => 0nat,
        }
    }
}

/// How many meshes hold at least one instance.
pub open spec fn populated_count(calls: Seq<DrawCall>) -> nat
    decreases calls.len(),
{
    if calls.len() == 0 {
        0
    } else {
        populated_count(calls.drop_last()) + if calls.last().instances@.len() > 0 {
            1nat
        } else {
            0nat
        }
    }
}

/// Draw calls add up over concatenation.
proof fn lemma_draw_count_concat(a: Seq<GpuCmd>, b: Seq<GpuCmd>)
    ensures
        draw_count(a + b) == draw_count(a) + draw_count(b),
    decreases b.len(),
{
    if b.len() == 0 {
        assert(a + b =~= a);
    } else {
        assert((a + b).drop_last() =~= a + b.drop_last());
        assert((a + b).last() == b.last());
        lemma_draw_count_concat(a, b.drop_last());
    }
}

/// Creating bindings draws nothing.
proof fn lemma_binding_cmds_draw_free(calls: Seq<DrawCall>)
    ensures
        draw_count(binding_cmds(calls)) == 0,
    decreases calls.len(),
{
    if calls.len() > 0 {
        lemma_binding_cmds_draw_free(calls.drop_last());
        let prefix = binding_cmds(calls.drop_last());
        if !calls.last().bound {
            let c = GpuCmd::CreateBindings { mesh: (calls.len() - 1) as usize };
            assert(prefix.push(c).drop_last() =~= prefix);
        }
    }
}

/// The upload-and-draw pass draws once per populated mesh.
proof fn lemma_draw_cmds_count(calls: Seq<DrawCall>)
    ensures
        draw_count(draw_cmds(calls)) == populated_count(calls),
    decreases calls.len(),
{
    if calls.len() > 0 {
        lemma_draw_cmds_count(calls.drop_last());
        let dc = calls.last();
        let m = (calls.len() - 1) as usize;
        let prefix = draw_cmds(calls.drop_last());
        if dc.instances@.len() == 0 {
            assert(draw_cmds(calls) == prefix);
        } else {
            let draw = GpuCmd::Draw {
                mesh: m,
                index_count: dc.indices@.len() as usize,
                instance_count: dc.instances@.len() as usize,
            };
            if dc.dirty {
                let up = GpuCmd::UploadInstances { mesh: m };
                let pair = seq![up, draw];
                assert(draw_cmds(calls) == prefix + pair);
                lemma_draw_count_concat(prefix, pair);
                assert(pair.last() == draw);
                assert(pair.drop_last() =~= seq![up]);
                assert(seq![up].last() == up);
                assert(seq![up].drop_last() =~= Seq::<GpuCmd>::empty());
                assert(draw_count(Seq::<GpuCmd>::empty()) == 0);
                assert(draw_count(seq![up]) == 0);
                assert(draw_count(pair) == 1);
            } else {
                assert(draw_cmds(calls) == prefix.push(draw));
                assert(prefix.push(draw).drop_last() =~= prefix);
                assert(prefix.push(draw).last() == draw);
            }
        }
    }
}

/// A frame issues exactly one draw call per mesh that holds at least one
/// instance, and none for a mesh without instances.
pub proof fn lemma_frame_draw_count(calls: Seq<DrawCall>)
    ensures
        draw_count(frame_commands(calls)) == populated_count(calls),
{
    lemma_draw_count_concat(binding_cmds(calls), draw_cmds(calls));
    lemma_binding_cmds_draw_free(calls);
    lemma_draw_cmds_count(calls);
}

/// The mesh registry, camera and per-mesh instance lists.
pub struct Render {
    draw_calls: Vec<DrawCall>,
    camera_pan_x: u32,
    camera_pan_y: u32,
    camera_zoom: u32,
}

/// `post` is `pre` after one rendered frame: every mesh is bound, a mesh
/// that was drawn is clean again, and nothing else — in particular no
/// instance field — changed.
pub open spec fn rendered(pre: Render, post: Render) -> bool {
    &&& post.calls().len() == pre.calls().len()
    &&& (forall|j: int| 0 <= j < pre.calls().len() ==> {
        let a = pre.calls()[j];
        let b = #[trigger] post.calls()[j];
        &&& b.vertices == a.vertices
        &&& b.indices == a.indices
        &&& b.instances == a.instances
        &&& b.bound == true
        &&& b.dirty == (a.dirty && a.instances@.len() == 0)
    })
    &&& post.camera() == pre.camera()
}

/// `post` is `pre` with one draw call appended holding the given buffers.
pub open spec fn mesh_added(pre: Render, post: Render, vs: Seq<Vertex>, is: Seq<u16>) -> bool {
    &&& post.calls().len() == pre.calls().len() + 1
    &&& (forall|j: int| 0 <= j < pre.calls().len() ==> post.calls()[j] == pre.calls()[j])
    &&& post.calls().last().vertices@ == vs
    &&& post.calls().last().indices@ == is
    &&& post.calls().last().instances@ == Seq::<Instance>::empty()
    &&& post.calls().last().bound == false
    &&& post.calls().last().dirty == false
    &&& post.camera() == pre.camera()
}

/// `post` is `pre` with one instance appended to mesh `m`, which is dirty.
pub open spec fn instance_appended(pre: Render, post: Render, m: int, inst: Instance) -> bool {
    &&& post.calls().len() == pre.calls().len()
    &&& (forall|j: int| 0 <= j < pre.calls().len() && j != m ==> post.calls()[j]
        == pre.calls()[j])
    &&& post.calls()[m].vertices == pre.calls()[m].vertices
    &&& post.calls()[m].indices == pre.calls()[m].indices
    &&& post.calls()[m].bound == pre.calls()[m].bound
    &&& post.calls()[m].dirty == true
    &&& post.calls()[m].instances@ == pre.calls()[m].instances@.push(inst)
    &&& post.camera() == pre.camera()
}

/// `post` is `pre` with instance `i` of mesh `m` replaced, and `m` dirty.
pub open spec fn instance_updated(pre: Render, post: Render, m: int, i: int, inst: Instance)
    -> bool {
    &&& post.calls().len() == pre.calls().len()
    &&& (forall|j: int| 0 <= j < pre.calls().len() && j != m ==> post.calls()[j]
        == pre.calls()[j])
    &&& post.calls()[m].vertices == pre.calls()[m].vertices
    &&& post.calls()[m].indices == pre.calls()[m].indices
    &&& post.calls()[m].bound == pre.calls()[m].bound
    &&& post.calls()[m].dirty == true
    &&& post.calls()[m].instances@ == pre.calls()[m].instances@.update(i, inst)
    &&& post.camera() == pre.camera()
}

impl Render {
    /// The registry entries, in upload order.
    pub closed spec fn calls(self) -> Seq<DrawCall> {
        self.draw_calls@
    }

    /// The camera state: pan bits and zoom bits.
    pub closed spec fn camera(self) -> (u32, u32, u32) {
        (self.camera_pan_x, self.camera_pan_y, self.camera_zoom)
    }

    /// Every registry entry keeps its geometry invariant.
    pub open spec fn wf(self) -> bool {
        forall|m: int| 0 <= m < self.calls().len() ==> draw_call_wf(self.calls()[m])
    }

    /// The handle names an existing registry entry.
    pub open spec fn valid_mesh(self, mesh: Mesh) -> bool {
        0 <= mesh.idx() < self.calls().len()
    }

    /// The pair names an existing instance of an existing entry.
    pub open spec fn valid_ref(self, mesh: Mesh, i: int) -> bool {
        self.valid_mesh(mesh) && 0 <= i < self.calls()[mesh.idx()].instances@.len()
    }

    /// Instance `i` of mesh `m`.
    pub open spec fn inst(self, m: int, i: int) -> Instance {
        self.calls()[m].instances@[i]
    }

    /// An empty registry with the camera at the origin and zoom one.
    pub fn new() -> (r: Render)
        ensures
            r.calls().len() == 0,
            r.camera() == (0u32, 0u32, F32_ONE_BITS),
            r.wf(),
    {
        Render {
            draw_calls: Vec::new(),
            camera_pan_x: 0,
            camera_pan_y: 0,
            camera_zoom: F32_ONE_BITS,
        }
    }

    /// Upload pre-built vertex and index buffers as a new mesh.
    ///
    /// Validates nothing beyond the index-bound and size invariant; on
    /// success the new entry starts with no instances and no GPU bindings.
    pub fn upload_buffers(&mut self, vertices: Vec<Vertex>, indices: Vec<u16>) -> (r: Result<
        Mesh,
        RenderError,
    >)
        ensures
            old(self).wf() ==> final(self).wf(),
            buffers_wf(vertices@, indices@) ==> {
                &&& r matches Ok(m) && m.idx() == old(self).calls().len()
                &&& mesh_added(*old(self), *final(self), vertices@, indices@)
            },
            !buffers_wf(vertices@, indices@) ==> {
                &&& r == Err::<Mesh, RenderError>(RenderError::InvalidGeometry)
                &&& *final(self) == *old(self)
            },
    {
        if vertices.len() > MAX_MESH_INSTANCES || indices.len() > MAX_MESH_INSTANCES {
            return Err(RenderError::InvalidGeometry);
        }
        let mut k: usize = 0;
        while k < indices.len()
            invariant
                0 <= k <= indices@.len(),
                forall|j: int| 0 <= j < k ==> (indices@[j] as int) < vertices@.len(),
        decreases indices@.len() - k,
        {
            if indices[k] as usize >= vertices.len() {
                return Err(RenderError::InvalidGeometry);
            }
            k = k + 1;
        }
        let handle = Mesh(self.draw_calls.len());
        self.draw_calls.push(
            DrawCall {
                vertices,
                indices,
                bound: false,
                instances: Vec::new(),
                dirty: false,
            },
        );
        proof {
            if old(self).wf() {
                assert forall|m: int| 0 <= m < self.calls().len() implies draw_call_wf(
                    self.calls()[m],
                ) by {
                    if m < old(self).calls().len() {
                        assert(draw_call_wf(old(self).calls()[m]));
                    } else {
                        assert(self.calls()[m] == self.calls().last());
                    }
                }
            }
        }
        Ok(handle)
    }

    /// Tessellate a vector path and upload it as a new mesh.
    ///
    /// The fill color and the opacity bits are baked into every vertex. A
    /// malformed or untessellatable path is rejected without touching the
    /// registry.
    pub fn upload_path(&mut self, cmds: &Vec<PathCmd>, color: Color, opacity: u32) -> (r: Result<
        Mesh,
        RenderError,
    >)
        ensures
            old(self).wf() ==> final(self).wf(),
            match tess_of_path(cmds@) {
                None => r == Err::<Mesh, RenderError>(RenderError::Tessellation) && *final(self)
                    == *old(self),
                Some(buffers) => {
                    let vs = baked_vertices(color, opacity, buffers.0);
                    if buffers_wf(vs, buffers.1) {
                        &&& r matches Ok(m) && m.idx() == old(self).calls().len()
                        &&& mesh_added(*old(self), *final(self), vs, buffers.1)
                    } else {
                        &&& r == Err::<Mesh, RenderError>(RenderError::InvalidGeometry)
                        &&& *final(self) == *old(self)
                    }
                },
            },
    {
        let events = match events_of_path(cmds) {
            None => {
                return Err(RenderError::Tessellation);
            },
            Some(e) => e,
        };
        let buffers = match tessellate_events(&events) {
            None => {
                return Err(RenderError::Tessellation);
            },
            Some(b) => b,
        };
        let (positions, indices) = buffers;
        let ctor = VertexCtor::new(color, opacity);
        let mut vertices: Vec<Vertex> = Vec::new();
        let mut i: usize = 0;
        while i < positions.len()
            invariant
                0 <= i <= positions@.len(),
                vertices@ == baked_vertices(ctor.color(), ctor.alpha(), positions@.take(i as int)),
                ctor.color() == color,
                ctor.alpha() == opacity,
            decreases positions@.len() - i,
        {
            let v = ctor.new_vertex(positions[i]);
            vertices.push(v);
            proof {
                assert(positions@.take(i as int).push(positions@[i as int]) =~= positions@.take(
                    i as int + 1,
                ));
                assert(baked_vertices(ctor.color(), ctor.alpha(), positions@.take(i as int)).push(
                    baked_vertex(ctor.color(), ctor.alpha(), positions@[i as int]),
                ) =~= baked_vertices(ctor.color(), ctor.alpha(), positions@.take(i as int + 1)));
            }
            i = i + 1;
        }
        proof {
            assert(positions@.take(positions@.len() as int) =~= positions@);
        }
        self.upload_buffers(vertices, indices)
    }

    /// Append a default instance at `(x, y)` to a mesh and return its index.
    pub fn add_instance(&mut self, mesh: Mesh, x: u32, y: u32) -> (r: Result<usize, RenderError>)
        ensures
            old(self).wf() ==> final(self).wf(),
            old(self).valid_mesh(mesh) ==> {
                &&& r matches Ok(idx) && idx as int == old(self).calls()[mesh.idx()].instances@.len()
                &&& instance_appended(*old(self), *final(self), mesh.idx(), instance_default(x, y))
            },
            !old(self).valid_mesh(mesh) ==> {
                &&& r == Err::<usize, RenderError>(RenderError::InvalidReference)
                &&& *final(self) == *old(self)
            },
    {
        let m = self.mesh_slot(mesh)?;
        let dc = &mut self.draw_calls[m];
        let idx = dc.instances.len();
        dc.instances.push(Instance::new(x, y));
        dc.dirty = true;
        Ok(idx)
    }

    /// The registry slot of a handle, or the invalid-reference error.
    fn mesh_slot(&self, mesh: Mesh) -> (r: Result<usize, RenderError>)
        ensures
            self.valid_mesh(mesh) ==> r == Ok::<usize, RenderError>(mesh.idx() as usize),
            !self.valid_mesh(mesh) ==> r == Err::<usize, RenderError>(
                RenderError::InvalidReference,
            ),
    {
        let m = mesh.index();
        if m < self.draw_calls.len() {
            Ok(m)
        } else {
            Err(RenderError::InvalidReference)
        }
    }

    /// Set the X position bits of one instance.
    pub fn set_x(&mut self, mesh: Mesh, index: usize, value: u32) -> (r: Result<(), RenderError>)
        ensures
            old(self).wf() ==> final(self).wf(),
            old(self).valid_ref(mesh, index as int) ==> {
                &&& r == Ok::<(), RenderError>(())
                &&& instance_updated(*old(self), *final(self), mesh.idx(), index as int,
                    (Instance { x: value, ..old(self).inst(mesh.idx(), index as int) }))
            },
            !old(self).valid_ref(mesh, index as int) ==> {
                &&& r == Err::<(), RenderError>(RenderError::InvalidReference)
                &&& *final(self) == *old(self)
            },
    {
        let m = self.mesh_slot(mesh)?;
        if index >= self.draw_calls[m].instances.len() {
            return Err(RenderError::InvalidReference);
        }
        let dc = &mut self.draw_calls[m];
        let inst = &mut dc.instances[index];
        inst.set_x(value);
        dc.dirty = true;
        Ok(())
    }

    /// Get the X position bits of one instance.
    pub fn get_x(&self, mesh: Mesh, index: usize) -> (r: Result<u32, RenderError>)
        ensures
            self.valid_ref(mesh, index as int) ==> r == Ok::<u32, RenderError>(
                self.inst(mesh.idx(), index as int).x,
            ),
            !self.valid_ref(mesh, index as int) ==> r == Err::<u32, RenderError>(
                RenderError::InvalidReference,
            ),
    {
        let m = self.mesh_slot(mesh)?;
        let dc = &self.draw_calls[m];
        if index >= dc.instances.len() {
            return Err(RenderError::InvalidReference);
        }
        Ok(dc.instances[index].x())
    }

    /// Set the Y position bits of one instance.
    pub fn set_y(&mut self, mesh: Mesh, index: usize, value: u32) -> (r: Result<(), RenderError>)
        ensures
            old(self).wf() ==> final(self).wf(),
            old(self).valid_ref(mesh, index as int) ==> {
                &&& r == Ok::<(), RenderError>(())
                &&& instance_updated(*old(self), *final(self), mesh.idx(), index as int,
                    (Instance { y: value, ..old(self).inst(mesh.idx(), index as int) }))
            },
            !old(self).valid_ref(mesh, index as int) ==> {
                &&& r == Err::<(), RenderError>(RenderError::InvalidReference)
                &&& *final(self) == *old(self)
            },
    {
        let m = self.mesh_slot(mesh)?;
        if index >= self.draw_calls[m].instances.len() {
            return Err(RenderError::InvalidReference);
        }
        let dc = &mut self.draw_calls[m];
        let inst = &mut dc.instances[index];
        inst.set_y(value);
        dc.dirty = true;
        Ok(())
    }

    /// Get the Y position bits of one instance.
    pub fn get_y(&self, mesh: Mesh, index: usize) -> (r: Result<u32, RenderError>)
        ensures
            self.valid_ref(mesh, index as int) ==> r == Ok::<u32, RenderError>(
                self.inst(mesh.idx(), index as int).y,
            ),
            !self.valid_ref(mesh, index as int) ==> r == Err::<u32, RenderError>(
                RenderError::InvalidReference,
            ),
    {
        let m = self.mesh_slot(mesh)?;
        let dc = &self.draw_calls[m];
        if index >= dc.instances.len() {
            return Err(RenderError::InvalidReference);
        }
        Ok(dc.instances[index].y())
    }

    /// Set the depth of one instance from an 8-bit input.
    pub fn set_z(&mut self, mesh: Mesh, index: usize, value: u8) -> (r: Result<(), RenderError>)
        ensures
            old(self).wf() ==> final(self).wf(),
            old(self).valid_ref(mesh, index as int) ==> {
                &&& r == Ok::<(), RenderError>(())
                &&& instance_updated(*old(self), *final(self), mesh.idx(), index as int,
                    (Instance {
                        depth: z_stored(value),
                        ..old(self).inst(mesh.idx(), index as int)
                    }))
            },
            !old(self).valid_ref(mesh, index as int) ==> {
                &&& r == Err::<(), RenderError>(RenderError::InvalidReference)
                &&& *final(self) == *old(self)
            },
    {
        let m = self.mesh_slot(mesh)?;
        if index >= self.draw_calls[m].instances.len() {
            return Err(RenderError::InvalidReference);
        }
        let dc = &mut self.draw_calls[m];
        let inst = &mut dc.instances[index];
        inst.set_z(value);
        dc.dirty = true;
        Ok(())
    }

    /// Get the stored depth byte of one instance.
    pub fn get_z(&self, mesh: Mesh, index: usize) -> (r: Result<u8, RenderError>)
        ensures
            self.valid_ref(mesh, index as int) ==> r == Ok::<u8, RenderError>(
                self.inst(mesh.idx(), index as int).depth,
            ),
            !self.valid_ref(mesh, index as int) ==> r == Err::<u8, RenderError>(
                RenderError::InvalidReference,
            ),
    {
        let m = self.mesh_slot(mesh)?;
        let dc = &self.draw_calls[m];
        if index >= dc.instances.len() {
            return Err(RenderError::InvalidReference);
        }
        Ok(dc.instances[index].z())
    }

    /// Set the rotation bits of one instance.
    pub fn set_rotation(&mut self, mesh: Mesh, index: usize, value: u32) -> (r: Result<
        (),
        RenderError,
    >)
        ensures
            old(self).wf() ==> final(self).wf(),
            old(self).valid_ref(mesh, index as int) ==> {
                &&& r == Ok::<(), RenderError>(())
                &&& instance_updated(*old(self), *final(self), mesh.idx(), index as int,
                    (Instance { rotation: value, ..old(self).inst(mesh.idx(), index as int) }))
            },
            !old(self).valid_ref(mesh, index as int) ==> {
                &&& r == Err::<(), RenderError>(RenderError::InvalidReference)
                &&& *final(self) == *old(self)
            },
    {
        let m = self.mesh_slot(mesh)?;
        if index >= self.draw_calls[m].instances.len() {
            return Err(RenderError::InvalidReference);
        }
        let dc = &mut self.draw_calls[m];
        let inst = &mut dc.instances[index];
        inst.set_rotation(value);
        dc.dirty = true;
        Ok(())
    }

    /// Get the rotation bits of one instance.
    pub fn get_rotation(&self, mesh: Mesh, index: usize) -> (r: Result<u32, RenderError>)
        ensures
            self.valid_ref(mesh, index as int) ==> r == Ok::<u32, RenderError>(
                self.inst(mesh.idx(), index as int).rotation,
            ),
            !self.valid_ref(mesh, index as int) ==> r == Err::<u32, RenderError>(
                RenderError::InvalidReference,
            ),
    {
        let m = self.mesh_slot(mesh)?;
        let dc = &self.draw_calls[m];
        if index >= dc.instances.len() {
            return Err(RenderError::InvalidReference);
        }
        Ok(dc.instances[index].rotation())
    }

    /// Set the uniform scale bits of one instance.
    pub fn set_scale(&mut self, mesh: Mesh, index: usize, value: u32) -> (r: Result<
        (),
        RenderError,
    >)
        ensures
            old(self).wf() ==> final(self).wf(),
            old(self).valid_ref(mesh, index as int) ==> {
                &&& r == Ok::<(), RenderError>(())
                &&& instance_updated(*old(self), *final(self), mesh.idx(), index as int,
                    (Instance { scale: value, ..old(self).inst(mesh.idx(), index as int) }))
            },
            !old(self).valid_ref(mesh, index as int) ==> {
                &&& r == Err::<(), RenderError>(RenderError::InvalidReference)
                &&& *final(self) == *old(self)
            },
    {
        let m = self.mesh_slot(mesh)?;
        if index >= self.draw_calls[m].instances.len() {
            return Err(RenderError::InvalidReference);
        }
        let dc = &mut self.draw_calls[m];
        let inst = &mut dc.instances[index];
        inst.set_scale(value);
        dc.dirty = true;
        Ok(())
    }

    /// Get the uniform scale bits of one instance.
    pub fn get_scale(&self, mesh: Mesh, index: usize) -> (r: Result<u32, RenderError>)
        ensures
            self.valid_ref(mesh, index as int) ==> r == Ok::<u32, RenderError>(
                self.inst(mesh.idx(), index as int).scale,
            ),
            !self.valid_ref(mesh, index as int) ==> r == Err::<u32, RenderError>(
                RenderError::InvalidReference,
            ),
    {
        let m = self.mesh_slot(mesh)?;
        let dc = &self.draw_calls[m];
        if index >= dc.instances.len() {
            return Err(RenderError::InvalidReference);
        }
        Ok(dc.instances[index].scale())
    }

    /// Set the color-multiplier bits of one instance.
    pub fn set_color_multiplier(
        &mut self,
        mesh: Mesh,
        index: usize,
        red: u32,
        green: u32,
        blue: u32,
    ) -> (r: Result<(), RenderError>)
        ensures
            old(self).wf() ==> final(self).wf(),
            old(self).valid_ref(mesh, index as int) ==> {
                &&& r == Ok::<(), RenderError>(())
                &&& instance_updated(*old(self), *final(self), mesh.idx(), index as int,
                    (Instance {
                        color_r: red,
                        color_g: green,
                        color_b: blue,
                        ..old(self).inst(mesh.idx(), index as int)
                    }))
            },
            !old(self).valid_ref(mesh, index as int) ==> {
                &&& r == Err::<(), RenderError>(RenderError::InvalidReference)
                &&& *final(self) == *old(self)
            },
    {
        let m = self.mesh_slot(mesh)?;
        if index >= self.draw_calls[m].instances.len() {
            return Err(RenderError::InvalidReference);
        }
        let dc = &mut self.draw_calls[m];
        let inst = &mut dc.instances[index];
        inst.set_color_multiplier(red, green, blue);
        dc.dirty = true;
        Ok(())
    }

    /// Get the color-multiplier bits of one instance.
    pub fn get_color_multiplier(&self, mesh: Mesh, index: usize) -> (r: Result<
        (u32, u32, u32),
        RenderError,
    >)
        ensures
            self.valid_ref(mesh, index as int) ==> r == Ok::<(u32, u32, u32), RenderError>(
                (
                    self.inst(mesh.idx(), index as int).color_r,
                    self.inst(mesh.idx(), index as int).color_g,
                    self.inst(mesh.idx(), index as int).color_b,
                ),
            ),
            !self.valid_ref(mesh, index as int) ==> r == Err::<(u32, u32, u32), RenderError>(
                RenderError::InvalidReference,
            ),
    {
        let m = self.mesh_slot(mesh)?;
        let dc = &self.draw_calls[m];
        if index >= dc.instances.len() {
            return Err(RenderError::InvalidReference);
        }
        Ok(dc.instances[index].color_multiplier())
    }

    /// Set the opacity bits of one instance.
    pub fn set_alpha(&mut self, mesh: Mesh, index: usize, value: u32) -> (r: Result<
        (),
        RenderError,
    >)
        ensures
            old(self).wf() ==> final(self).wf(),
            old(self).valid_ref(mesh, index as int) ==> {
                &&& r == Ok::<(), RenderError>(())
                &&& instance_updated(*old(self), *final(self), mesh.idx(), index as int,
                    (Instance { alpha: value, ..old(self).inst(mesh.idx(), index as int) }))
            },
            !old(self).valid_ref(mesh, index as int) ==> {
                &&& r == Err::<(), RenderError>(RenderError::InvalidReference)
                &&& *final(self) == *old(self)
            },
    {
        let m = self.mesh_slot(mesh)?;
        if index >= self.draw_calls[m].instances.len() {
            return Err(RenderError::InvalidReference);
        }
        let dc = &mut self.draw_calls[m];
        let inst = &mut dc.instances[index];
        inst.set_alpha(value);
        dc.dirty = true;
        Ok(())
    }

    /// Get the opacity bits of one instance.
    pub fn get_alpha(&self, mesh: Mesh, index: usize) -> (r: Result<u32, RenderError>)
        ensures
            self.valid_ref(mesh, index as int) ==> r == Ok::<u32, RenderError>(
                self.inst(mesh.idx(), index as int).alpha,
            ),
            !self.valid_ref(mesh, index as int) ==> r == Err::<u32, RenderError>(
                RenderError::InvalidReference,
            ),
    {
        let m = self.mesh_slot(mesh)?;
        let dc = &self.draw_calls[m];
        if index >= dc.instances.len() {
            return Err(RenderError::InvalidReference);
        }
        Ok(dc.instances[index].alpha())
    }

    /// Set the camera panning position bits.
    pub fn set_camera_pos(&mut self, x: u32, y: u32)
        ensures
            final(self).camera() == (x, y, old(self).camera().2),
            final(self).calls() == old(self).calls(),
            old(self).wf() ==> final(self).wf(),
    {
        self.camera_pan_x = x;
        self.camera_pan_y = y;
    }

    /// Set the camera zoom bits.
    pub fn set_camera_zoom(&mut self, zoom: u32)
        ensures
            final(self).camera() == (old(self).camera().0, old(self).camera().1, zoom),
            final(self).calls() == old(self).calls(),
            old(self).wf() ==> final(self).wf(),
    {
        self.camera_zoom = zoom;
    }

    /// The camera pan bits.
    pub fn camera_pan(&self) -> (r: (u32, u32))
        ensures
            r == (self.camera().0, self.camera().1),
    {
        (self.camera_pan_x, self.camera_pan_y)
    }

    /// The camera zoom bits.
    pub fn camera_zoom(&self) -> (r: u32)
        ensures
            r == self.camera().2,
    {
        self.camera_zoom
    }

    /// The handle of an already uploaded registry slot.
    pub fn mesh_handle(&self, slot: usize) -> (r: Result<Mesh, RenderError>)
        ensures
            slot < self.calls().len() ==> {
                &&& r matches Ok(m)
                &&& m.idx() == slot as int
            },
            slot >= self.calls().len() ==> r == Err::<Mesh, RenderError>(
                RenderError::InvalidReference,
            ),
    {
        if slot < self.draw_calls.len() {
            Ok(Mesh(slot))
        } else {
            Err(RenderError::InvalidReference)
        }
    }

    /// How many meshes the registry holds.
    pub fn mesh_count(&self) -> (r: usize)
        ensures
            r == self.calls().len(),
    {
        self.draw_calls.len()
    }

    /// The vertices of one mesh.
    pub fn vertex_data(&self, mesh: Mesh) -> (r: Result<&Vec<Vertex>, RenderError>)
        ensures
            self.valid_mesh(mesh) ==> {
                &&& r matches Ok(v)
                &&& v@ == self.calls()[mesh.idx()].vertices@
            },
            !self.valid_mesh(mesh) ==> {
                &&& r matches Err(e)
                &&& e == RenderError::InvalidReference
            },
    {
        let m = self.mesh_slot(mesh)?;
        Ok(&self.draw_calls[m].vertices)
    }

    /// The triangle indices of one mesh.
    pub fn index_data(&self, mesh: Mesh) -> (r: Result<&Vec<u16>, RenderError>)
        ensures
            self.valid_mesh(mesh) ==> {
                &&& r matches Ok(v)
                &&& v@ == self.calls()[mesh.idx()].indices@
            },
            !self.valid_mesh(mesh) ==> {
                &&& r matches Err(e)
                &&& e == RenderError::InvalidReference
            },
    {
        let m = self.mesh_slot(mesh)?;
        Ok(&self.draw_calls[m].indices)
    }

    /// The instances of one mesh, in creation order.
    pub fn instance_data(&self, mesh: Mesh) -> (r: Result<&Vec<Instance>, RenderError>)
        ensures
            self.valid_mesh(mesh) ==> {
                &&& r matches Ok(v)
                &&& v@ == self.calls()[mesh.idx()].instances@
            },
            !self.valid_mesh(mesh) ==> {
                &&& r matches Err(e)
                &&& e == RenderError::InvalidReference
            },
    {
        let m = self.mesh_slot(mesh)?;
        Ok(&self.draw_calls[m].instances)
    }

    /// How many instances one mesh holds.
    pub fn instance_count(&self, mesh: Mesh) -> (r: Result<usize, RenderError>)
        ensures
            self.valid_mesh(mesh) ==> r == Ok::<usize, RenderError>(
                self.calls()[mesh.idx()].instances@.len() as usize,
            ),
            !self.valid_mesh(mesh) ==> r == Err::<usize, RenderError>(
                RenderError::InvalidReference,
            ),
    {
        let m = self.mesh_slot(mesh)?;
        Ok(self.draw_calls[m].instances.len())
    }

    /// Whether one mesh's instances changed since their last GPU upload.
    pub fn is_dirty(&self, mesh: Mesh) -> (r: Result<bool, RenderError>)
        ensures
            self.valid_mesh(mesh) ==> r == Ok::<bool, RenderError>(
                self.calls()[mesh.idx()].dirty,
            ),
            !self.valid_mesh(mesh) ==> r == Err::<bool, RenderError>(
                RenderError::InvalidReference,
            ),
    {
        let m = self.mesh_slot(mesh)?;
        Ok(self.draw_calls[m].dirty)
    }

    /// Whether one mesh has GPU bindings.
    pub fn is_bound(&self, mesh: Mesh) -> (r: Result<bool, RenderError>)
        ensures
            self.valid_mesh(mesh) ==> r == Ok::<bool, RenderError>(
                self.calls()[mesh.idx()].bound,
            ),
            !self.valid_mesh(mesh) ==> r == Err::<bool, RenderError>(
                RenderError::InvalidReference,
            ),
    {
        let m = self.mesh_slot(mesh)?;
        Ok(self.draw_calls[m].bound)
    }

    /// Render one frame: create the bindings every unbound mesh still lacks,
    /// re-upload the instance array of every dirty populated mesh, and issue
    /// one draw call per populated mesh, in registry order, under the current
    /// camera.
    ///
    /// A mesh holding more instances than the fixed streaming capacity is a
    /// configuration error: the frame is refused and nothing changes.
    pub fn render_frame(&mut self) -> (r: Result<FramePlan, RenderError>)
        ensures
            old(self).wf() ==> final(self).wf(),
            (exists|j: int|
                0 <= j < old(self).calls().len() && #[trigger] old(
                    self,
                ).calls()[j].instances@.len() > MAX_MESH_INSTANCES) ==> {
                &&& r matches Err(e)
                &&& e == RenderError::CapacityExceeded
                &&& *final(self) == *old(self)
            },
            (forall|j: int|
                0 <= j < old(self).calls().len() ==> #[trigger] old(
                    self,
                ).calls()[j].instances@.len() <= MAX_MESH_INSTANCES) ==> {
                &&& r matches Ok(plan)
                &&& plan.commands@ == frame_commands(old(self).calls())
                &&& (plan.pan_x, plan.pan_y, plan.zoom) == old(self).camera()
                &&& draw_count(plan.commands@) == populated_count(old(self).calls())
                &&& rendered(*old(self), *final(self))
            },
    {
        let mut m: usize = 0;
        while m < self.draw_calls.len()
            invariant
                0 <= m <= self.draw_calls@.len(),
                forall|j: int|
                    0 <= j < m ==> #[trigger] self.draw_calls@[j].instances@.len()
                        <= MAX_MESH_INSTANCES,
            decreases self.draw_calls@.len() - m,
        {
            if self.draw_calls[m].instances.len() > MAX_MESH_INSTANCES {
                proof {
                    assert(old(self).calls()[m as int].instances@.len() > MAX_MESH_INSTANCES);
                }
                return Err(RenderError::CapacityExceeded);
            }
            m = m + 1;
        }
        let ghost calls0 = self.draw_calls@;
        let mut commands: Vec<GpuCmd> = Vec::new();
        let mut m: usize = 0;
        proof {
            assert(calls0.take(0) =~= Seq::<DrawCall>::empty());
        }
        while m < self.draw_calls.len()
            invariant
                0 <= m <= calls0.len(),
                self.draw_calls@.len() == calls0.len(),
                self.camera() == old(self).camera(),
                commands@ == binding_cmds(calls0.take(m as int)),
                forall|j: int|
                    0 <= j < calls0.len() ==> {
                        let a = calls0[j];
                        let b = #[trigger] self.draw_calls@[j];
                        &&& b.vertices == a.vertices
                        &&& b.indices == a.indices
                        &&& b.instances == a.instances
                        &&& b.dirty == a.dirty
                        &&& b.bound == (if j < m {
                            true
                        } else {
                            a.bound
                        })
                    },
            decreases calls0.len() - m,
        {
            proof {
                assert(calls0.take(m as int + 1).drop_last() =~= calls0.take(m as int));
                assert(calls0.take(m as int + 1).last() == calls0[m as int]);
            }
            if !self.draw_calls[m].bound {
                commands.push(GpuCmd::CreateBindings { mesh: m });
                let dc = &mut self.draw_calls[m];
                dc.bound = true;
            }
            m = m + 1;
        }
        proof {
            assert(calls0.take(calls0.len() as int) =~= calls0);
        }
        let mut m: usize = 0;
        proof {
            assert(calls0.take(0) =~= Seq::<DrawCall>::empty());
        }
        while m < self.draw_calls.len()
            invariant
                0 <= m <= calls0.len(),
                self.draw_calls@.len() == calls0.len(),
                self.camera() == old(self).camera(),
                commands@ == binding_cmds(calls0) + draw_cmds(calls0.take(m as int)),
                forall|j: int|
                    0 <= j < calls0.len() ==> #[trigger] calls0[j].instances@.len()
                        <= MAX_MESH_INSTANCES,
                forall|j: int|
                    0 <= j < calls0.len() ==> {
                        let a = calls0[j];
                        let b = #[trigger] self.draw_calls@[j];
                        &&& b.vertices == a.vertices
                        &&& b.indices == a.indices
                        &&& b.instances == a.instances
                        &&& b.bound == true
                        &&& b.dirty == (if j < m {
                            a.dirty && a.instances@.len() == 0
                        } else {
                            a.dirty
                        })
                    },
            decreases calls0.len() - m,
        {
            proof {
                assert(calls0.take(m as int + 1).drop_last() =~= calls0.take(m as int));
                assert(calls0.take(m as int + 1).last() == calls0[m as int]);
            }
            let ghost cmds0 = commands@;
            let count = self.draw_calls[m].instances.len();
            if count > 0 {
                let was_dirty = self.draw_calls[m].dirty;
                if was_dirty {
                    commands.push(GpuCmd::UploadInstances { mesh: m });
                    let dc = &mut self.draw_calls[m];
                    dc.dirty = false;
                }
                let index_count = self.draw_calls[m].indices.len();
                commands.push(GpuCmd::Draw { mesh: m, index_count, instance_count: count });
                proof {
                    let draw = GpuCmd::Draw {
                        mesh: m,
                        index_count: calls0[m as int].indices@.len() as usize,
                        instance_count: calls0[m as int].instances@.len() as usize,
                    };
                    if calls0[m as int].dirty {
                        assert(commands@ =~= cmds0 + seq![
                            GpuCmd::UploadInstances { mesh: m },
                            draw,
                        ]);
                        assert(commands@ =~= binding_cmds(calls0) + draw_cmds(
                            calls0.take(m as int + 1),
                        ));
                    } else {
                        assert(commands@ =~= cmds0.push(draw));
                        assert(commands@ =~= binding_cmds(calls0) + draw_cmds(
                            calls0.take(m as int + 1),
                        ));
                    }
                }
            }
            m = m + 1;
        }
        proof {
            assert(calls0.take(calls0.len() as int) =~= calls0);
            lemma_frame_draw_count(calls0);
        }
        let plan = FramePlan {
            commands,
            pan_x: self.camera_pan_x,
            pan_y: self.camera_pan_y,
            zoom: self.camera_zoom,
        };
        proof {
            if old(self).wf() {
                assert forall|j: int| 0 <= j < self.calls().len() implies draw_call_wf(
                    self.calls()[j],
                ) by {
                    assert(draw_call_wf(old(self).calls()[j]));
                }
            }
        }
        Ok(plan)
    }
}

} // verus!
