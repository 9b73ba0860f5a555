use vstd::prelude::*;

verus! {

/// Number of vertices the tessellation holds when a renderer is created.
pub const INITIAL_TESS_VERTICES: usize = 1024;

/// Number of indices the tessellation holds when a renderer is created.
pub const INITIAL_TESS_INDICES: usize = 1024;

/// How many vertices and indices the renderer's GPU tessellation can hold.
#[derive(Clone, Copy, Debug, PartialEq, Eq, Structural)]
pub struct TessCapacity {
    pub vertices: usize,
    pub indices: usize,
}

/// How many vertices and indices one (16-bit indexed) GUI mesh uses.
#[derive(Clone, Copy, Debug, PartialEq, Eq, Structural)]
pub struct MeshSize {
    pub vertices: usize,
    pub indices: usize,
}

/// A mesh fits a tessellation when neither its vertices nor its indices
/// outnumber the tessellation's.
pub open spec fn fits(size: MeshSize, cap: TessCapacity) -> bool {
    size.vertices <= cap.vertices && size.indices <= cap.indices
}

/// `a` is at least as large as `b` in both dimensions.
pub open spec fn covers(a: TessCapacity, b: TessCapacity) -> bool {
    a.vertices >= b.vertices && a.indices >= b.indices
}

/// The capacity of the tessellation that is rebuilt for a mesh that does
/// not fit: each dimension is the larger of the old one and the mesh's.
pub open spec fn grown_capacity(cap: TessCapacity, size: MeshSize) -> TessCapacity {
    TessCapacity {
        vertices: if cap.vertices >= size.vertices { cap.vertices } else { size.vertices },
        indices: if cap.indices >= size.indices { cap.indices } else { size.indices },
    }
}

/// The reallocation that queueing `size` calls for: none when the mesh
/// fits, else the grown capacity.
pub open spec fn growth_for(cap: TessCapacity, size: MeshSize) -> Option<TessCapacity> {
    if fits(size, cap) {
        None
    } else {
        Some(grown_capacity(cap, size))
    }
}

/// A reallocation is called for exactly when the mesh has more vertices or
/// more indices than the tessellation; the new capacity is then, in each
/// dimension, the larger of the old capacity and the mesh's size, so it
/// never shrinks and it holds the mesh.
pub proof fn growth_is_per_dimension_maximum(cap: TessCapacity, size: MeshSize)
    ensures
        growth_for(cap, size) is None <==> (size.vertices <= cap.vertices && size.indices
            <= cap.indices),
        growth_for(cap, size) matches Some(c) ==> {
            &&& c.vertices >= cap.vertices && c.indices >= cap.indices
            &&& c.vertices >= size.vertices && c.indices >= size.indices
            &&& (c.vertices == cap.vertices || c.vertices == size.vertices)
            &&& (c.indices == cap.indices || c.indices == size.indices)
        },
{
}

/// Growing for a mesh that does not fit yields the smallest capacity that
/// both covers the old one and fits the mesh.
pub proof fn grown_capacity_is_least(cap: TessCapacity, size: MeshSize, other: TessCapacity)
    ensures
        fits(size, grown_capacity(cap, size)),
        covers(grown_capacity(cap, size), cap),
        covers(other, cap) && fits(size, other) ==> covers(other, grown_capacity(cap, size)),
{
}

/// A reallocation is called for exactly when the mesh does not fit, and
/// after it the same mesh calls for none.
pub proof fn growth_settles(cap: TessCapacity, size: MeshSize)
    ensures
        growth_for(cap, size) is None <==> fits(size, cap),
        growth_for(cap, size) matches Some(c) ==> growth_for(c, size) is None,
{
}

/// A tessellation that covers another fits every mesh the other fits, so
/// growing it never strands a queued mesh.
pub proof fn covering_keeps_fit(size: MeshSize, cap: TessCapacity, bigger: TessCapacity)
    requires
        fits(size, cap),
        covers(bigger, cap),
    ensures
        fits(size, bigger),
{
}

/// The capacity of a tessellation of capacity `cap` after the meshes
/// `sizes` were queued one after the other, each growing it as needed.
pub open spec fn capacity_after(cap: TessCapacity, sizes: Seq<MeshSize>) -> TessCapacity
    decreases sizes.len(),
{
    if sizes.len() == 0 {
        cap
    } else {
        grown_capacity(capacity_after(cap, sizes.drop_last()), sizes.last())
    }
}

/// After queueing a sequence of meshes, the tessellation's capacity is, in
/// each dimension, the maximum of its old capacity and of every queued
/// mesh's size: it never shrinks, fits every mesh, and is no larger than
/// that.
pub proof fn capacity_after_is_maximum(cap: TessCapacity, sizes: Seq<MeshSize>)
    ensures
        covers(capacity_after(cap, sizes), cap),
        forall|i: int| 0 <= i < sizes.len() ==> fits(#[trigger] sizes[i], capacity_after(cap, sizes)),
        capacity_after(cap, sizes).vertices >= cap.vertices,
        capacity_after(cap, sizes).indices >= cap.indices,
        forall|i: int|
            0 <= i < sizes.len() ==> (#[trigger] sizes[i]).vertices <= capacity_after(
                cap,
                sizes,
            ).vertices && sizes[i].indices <= capacity_after(cap, sizes).indices,
        capacity_after(cap, sizes).vertices == cap.vertices || exists|i: int|
            0 <= i < sizes.len() && capacity_after(cap, sizes).vertices == (#[trigger] sizes[i]).vertices,
        capacity_after(cap, sizes).indices == cap.indices || exists|i: int|
            0 <= i < sizes.len() && capacity_after(cap, sizes).indices == (#[trigger] sizes[i]).indices,
    decreases sizes.len(),
{
    if sizes.len() > 0 {
        let prefix = sizes.drop_last();
        capacity_after_is_maximum(cap, prefix);
        let before = capacity_after(cap, prefix);
        let after = capacity_after(cap, sizes);
        assert forall|i: int| 0 <= i < sizes.len() implies fits(#[trigger] sizes[i], after) by {
            if i < sizes.len() - 1 {
                assert(sizes[i] == prefix[i]);
                assert(fits(prefix[i], before));
            }
        }
        if after.vertices != cap.vertices {
            if after.vertices == before.vertices {
                let k = choose|k: int|
                    0 <= k < prefix.len() && before.vertices == (#[trigger] prefix[k]).vertices;
                assert(sizes[k] == prefix[k]);
            } else {
                assert(after.vertices == sizes[sizes.len() - 1].vertices);
            }
        }
        if after.indices != cap.indices {
            if after.indices == before.indices {
                let k = choose|k: int|
                    0 <= k < prefix.len() && before.indices == (#[trigger] prefix[k]).indices;
                assert(sizes[k] == prefix[k]);
            } else {
                assert(after.indices == sizes[sizes.len() - 1].indices);
            }
        }
    }
}

/// Whether or not a mesh calls for a reallocation, recording it with
/// `grown_capacity` gives the capacity that queueing it leaves: a mesh that
/// fits leaves the capacity as it was.
pub proof fn fitting_mesh_keeps_capacity(cap: TessCapacity, size: MeshSize)
    requires
        fits(size, cap),
    ensures
        grown_capacity(cap, size) == cap,
{
}

impl TessCapacity {
    /// Whether `size` fits this capacity.
    pub fn fits(&self, size: &MeshSize) -> (r: bool)
        ensures
            r == fits(*size, *self),
    {
        size.vertices <= self.vertices && size.indices <= self.indices
    }

    /// The capacity to rebuild the tessellation with before `size` can be
    /// drawn from it, or `None` when it already fits.
    pub fn grown_to_fit(&self, size: &MeshSize) -> (r: Option<TessCapacity>)
        ensures
            r == growth_for(*self, *size),
            r is None <==> (size.vertices <= self.vertices && size.indices <= self.indices),
            r matches Some(c) ==> {
                &&& c.vertices >= self.vertices && c.indices >= self.indices
                &&& c.vertices >= size.vertices && c.indices >= size.indices
                &&& (c.vertices == self.vertices || c.vertices == size.vertices)
                &&& (c.indices == self.indices || c.indices == size.indices)
            },
    {
        proof {
            growth_is_per_dimension_maximum(*self, *size);
        }
        if self.indices < size.indices || self.vertices < size.vertices {
            let vertices = if self.vertices >= size.vertices {
                self.vertices
            } else {
                size.vertices
            };
            let indices = if self.indices >= size.indices {
                self.indices
            } else {
                size.indices
            };
            Some(TessCapacity { vertices, indices })
        } else {
            None
        }
    }
}

/// A mesh waiting to be drawn: its size, and whatever the caller draws it
/// from (clip rectangle and vertex data).
pub struct QueuedMesh<M> {
    pub size: MeshSize,
    pub payload: M,
}

/// The bookkeeping of a GUI renderer: which font texture version it has
/// uploaded, how large its tessellation is, and the meshes queued for
/// drawing. Every queued mesh fits the tessellation.
pub struct GuiRenderState<M> {
    font_texture_version: u64,
    capacity: TessCapacity,
    meshes: Vec<QueuedMesh<M>>,
}

/// The scissor rectangle, in physical pixels, that one mesh is drawn with.
#[derive(Clone, Copy, Debug, PartialEq, Eq, Structural)]
pub struct ScissorRegion {
    pub x: u32,
    pub y: u32,
    pub width: u32,
    pub height: u32,
}

/// The scissor rectangle spanned by a clip rectangle whose corners are
/// already clamped and rounded to pixels.
pub fn scissor_region(min_x: u32, min_y: u32, max_x: u32, max_y: u32) -> (r: ScissorRegion)
    requires
        min_x <= max_x,
        min_y <= max_y,
    ensures
        r.x == min_x,
        r.y == min_y,
        r.width == max_x - min_x,
        r.height == max_y - min_y,
{
    ScissorRegion { x: min_x, y: min_y, width: max_x - min_x, height: max_y - min_y }
}

impl<M> GuiRenderState<M> {
    #[verifier::type_invariant]
    closed spec fn inv(self) -> bool {
        forall|i: int| 0 <= i < self.meshes@.len() ==> fits(#[trigger] self.meshes@[i].size, self.capacity)
    }

    /// The version of the font texture last uploaded.
    pub closed spec fn spec_font_texture_version(self) -> u64 {
        self.font_texture_version
    }

    /// The capacity of the tessellation.
    pub closed spec fn spec_capacity(self) -> TessCapacity {
        self.capacity
    }

    /// The queued meshes, in the order they were queued.
    pub closed spec fn spec_meshes(self) -> Seq<QueuedMesh<M>> {
        self.meshes@
    }

    /// Every queued mesh fits the tessellation, so drawing it never reads
    /// past the tessellation's vertices or indices.
    pub open spec fn queued_fit(self) -> bool {
        forall|i: int|
            0 <= i < self.spec_meshes().len() ==> fits(
                #[trigger] self.spec_meshes()[i].size,
                self.spec_capacity(),
            )
    }

    /// A fresh renderer: font texture version 0, a tessellation of
    /// `INITIAL_TESS_VERTICES` vertices and `INITIAL_TESS_INDICES` indices,
    /// and nothing queued.
    pub fn new() -> (s: Self)
        ensures
            s.spec_font_texture_version() == 0,
            s.spec_capacity() == (TessCapacity {
                vertices: INITIAL_TESS_VERTICES,
                indices: INITIAL_TESS_INDICES,
            }),
            s.spec_meshes() == Seq::<QueuedMesh<M>>::empty(),
            s.queued_fit(),
    {
        GuiRenderState {
            font_texture_version: 0,
            capacity: TessCapacity { vertices: INITIAL_TESS_VERTICES, indices: INITIAL_TESS_INDICES },
            meshes: Vec::new(),
        }
    }

    /// The version of the font texture last uploaded.
    pub fn font_texture_version(&self) -> (r: u64)
        ensures
            r == self.spec_font_texture_version(),
    {
        self.font_texture_version
    }

    /// Whether a font texture of version `version` differs from the one
    /// uploaded, so that it must be uploaded again.
    pub fn font_texture_is_stale(&self, version: u64) -> (r: bool)
        ensures
            r == (version != self.spec_font_texture_version()),
    {
        version != self.font_texture_version
    }

    /// Records that the font texture of version `version` was uploaded.
    pub fn font_texture_rebuilt(&mut self, version: u64)
        ensures
            final(self).spec_font_texture_version() == version,
            final(self).spec_capacity() == old(self).spec_capacity(),
            final(self).spec_meshes() == old(self).spec_meshes(),
            final(self).queued_fit(),
    {
        proof {
            use_type_invariant(&*self);
        }
        self.font_texture_version = version;
    }

    /// The capacity of the tessellation.
    pub fn capacity(&self) -> (r: TessCapacity)
        ensures
            r == self.spec_capacity(),
    {
        self.capacity
    }

    /// The capacity to rebuild the tessellation with before a mesh of size
    /// `size` can be queued, or `None` when it already fits.
    pub fn tess_growth(&self, size: &MeshSize) -> (r: Option<TessCapacity>)
        ensures
            r == growth_for(self.spec_capacity(), *size),
    {
        self.capacity.grown_to_fit(size)
    }

    /// Records that the tessellation was rebuilt for a mesh of size `size`:
    /// its capacity is now `grown_capacity` of the old one and `size`, the
    /// capacity `tess_growth` gave for that mesh.
    pub fn tess_rebuilt(&mut self, size: &MeshSize)
        ensures
            final(self).spec_capacity() == grown_capacity(old(self).spec_capacity(), *size),
            final(self).spec_capacity().vertices >= old(self).spec_capacity().vertices,
            final(self).spec_capacity().vertices >= size.vertices,
            final(self).spec_capacity().vertices == old(self).spec_capacity().vertices
                || final(self).spec_capacity().vertices == size.vertices,
            final(self).spec_capacity().indices >= old(self).spec_capacity().indices,
            final(self).spec_capacity().indices >= size.indices,
            final(self).spec_capacity().indices == old(self).spec_capacity().indices
                || final(self).spec_capacity().indices == size.indices,
            final(self).spec_font_texture_version() == old(self).spec_font_texture_version(),
            final(self).spec_meshes() == old(self).spec_meshes(),
            final(self).queued_fit(),
    {
        proof {
            use_type_invariant(&*self);
        }
        let vertices = if self.capacity.vertices >= size.vertices {
            self.capacity.vertices
        } else {
            size.vertices
        };
        let indices = if self.capacity.indices >= size.indices {
            self.capacity.indices
        } else {
            size.indices
        };
        self.capacity = TessCapacity { vertices, indices };
    }

    /// Queues a mesh that fits the tessellation.
    pub fn push_mesh(&mut self, size: MeshSize, payload: M)
        requires
            fits(size, old(self).spec_capacity()),
        ensures
            final(self).spec_meshes() == old(self).spec_meshes().push(
                QueuedMesh { size, payload },
            ),
            final(self).spec_capacity() == old(self).spec_capacity(),
            final(self).spec_font_texture_version() == old(self).spec_font_texture_version(),
            final(self).queued_fit(),
    {
        proof {
            use_type_invariant(&*self);
        }
        let mut meshes = Vec::new();
        std::mem::swap(&mut meshes, &mut self.meshes);
        meshes.push(QueuedMesh { size, payload });
        self.meshes = meshes;
    }

    /// The number of queued meshes.
    pub fn mesh_count(&self) -> (r: usize)
        ensures
            r == self.spec_meshes().len(),
    {
        self.meshes.len()
    }

    /// The `i`-th queued mesh; it fits the tessellation.
    pub fn mesh(&self, i: usize) -> (r: &QueuedMesh<M>)
        requires
            i < self.spec_meshes().len(),
        ensures
            *r == self.spec_meshes()[i as int],
            fits(r.size, self.spec_capacity()),
            r.size.vertices <= self.spec_capacity().vertices,
            r.size.indices <= self.spec_capacity().indices,
    {
        proof {
            use_type_invariant(self);
        }
        &self.meshes[i]
    }
}

} // verus!
