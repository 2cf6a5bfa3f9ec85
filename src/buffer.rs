use vstd::prelude::*;

use crate::geometry::{is_positive_finite_bits, positive_finite_bits, LyonPoint, DEFAULT_TOLERANCE_BITS};
use crate::path::{compile_spec, lyon_build_path, LyonBuilder, Path};

verus! {

/// Most vertices one tessellation may produce: every vertex must be
/// addressable by a 16-bit index.
pub const MAX_VERTICES: usize = 65536;

/// Why a tessellation call produced no output.
#[derive(Clone, Copy, Debug, PartialEq, Eq, Structural)]
pub enum TessellationError {
    /// The context was never initialised, or has been torn down.
    NotInitialized,
    /// The stroke width is not a finite number greater than zero.
    InvalidLineWidth,
    /// The mesh needs more vertices than 16-bit indices can address.
    TooManyVertices,
    /// The index list does not split into whole triangles.
    IncompleteTriangle,
    /// An index names a vertex that the mesh does not have.
    IndexOutOfRange,
}

/// The output buffer: triangle vertices, and indices into them taken three
/// at a time.
pub struct LyonVertexData {
    pub vertices: Vec<LyonPoint>,
    pub indices: Vec<u16>,
}

/// The state behind the output-buffer protocol, as a mathematical value.
pub struct ContextModel {
    pub initialized: bool,
    pub vertices: Seq<LyonPoint>,
    pub indices: Seq<u16>,
}

/// A live context whose buffer holds nothing.
pub open spec fn cleared() -> ContextModel {
    ContextModel { initialized: true, vertices: Seq::empty(), indices: Seq::empty() }
}

/// A torn-down context.
pub open spec fn released() -> ContextModel {
    ContextModel { initialized: false, vertices: Seq::empty(), indices: Seq::empty() }
}

/// The first defect of a mesh of `n` vertices with index list `indices`, if any.
pub open spec fn mesh_defect(n: nat, indices: Seq<u32>) -> Option<TessellationError> {
    if n > MAX_VERTICES {
        Some(TessellationError::TooManyVertices)
    } else if indices.len() % 3 != 0 {
        Some(TessellationError::IncompleteTriangle)
    } else if exists|k: int| 0 <= k < indices.len() && #[trigger] indices[k] >= n {
        Some(TessellationError::IndexOutOfRange)
    } else {
        None
    }
}

/// Indices narrowed to 16 bits.
pub open spec fn narrow(indices: Seq<u32>) -> Seq<u16> {
    indices.map_values(|i: u32| i as u16)
}

/// The context after storing a mesh in `c`, and the outcome of the call.
/// Storing first empties the buffer, so a rejected mesh leaves it empty.
pub open spec fn store_spec(c: ContextModel, vertices: Seq<LyonPoint>, indices: Seq<u32>) -> (ContextModel, Result<(), TessellationError>) {
    if !c.initialized {
        (c, Err(TessellationError::NotInitialized))
    } else {
        match mesh_defect(vertices.len(), indices) {
            Some(e) => (cleared(), Err(e)),
            None => (ContextModel { initialized: true, vertices, indices: narrow(indices) }, Ok(())),
        }
    }
}

/// The context after a tessellation call starts in `c`, and whether it may go on.
pub open spec fn start_spec(c: ContextModel) -> (ContextModel, Result<(), TessellationError>) {
    if !c.initialized {
        (c, Err(TessellationError::NotInitialized))
    } else {
        (cleared(), Ok(()))
    }
}

/// What a stroke tessellator is asked to do.
pub struct StrokeRequest {
    pub path: Path,
    pub line_width: u32,
    pub tolerance: u32,
}

/// What a fill tessellator is asked to do; the winding rule is non-zero.
pub struct FillRequest {
    pub path: Path,
    pub tolerance: u32,
}

/// Owns the output buffer that every tessellation call empties and refills.
pub struct LyonContext {
    initialized: bool,
    data: LyonVertexData,
}

impl View for LyonContext {
    type V = ContextModel;

    closed spec fn view(&self) -> ContextModel {
        ContextModel {
            initialized: self.initialized,
            vertices: self.data.vertices@,
            indices: self.data.indices@,
        }
    }
}

/// Makes a context with an empty output buffer.
pub fn lyon_init() -> (c: LyonContext)
    ensures
        c@ == cleared(),
{
    LyonContext { initialized: true, data: LyonVertexData { vertices: Vec::new(), indices: Vec::new() } }
}

/// Tears a context down, releasing its buffer.
pub fn lyon_deinit(ctx: &mut LyonContext)
    ensures
        final(ctx)@ == released(),
{
    ctx.initialized = false;
    ctx.data = LyonVertexData { vertices: Vec::new(), indices: Vec::new() };
}

impl LyonContext {
    /// The buffer as the last call left it.
    pub fn vertex_data(&self) -> (r: &LyonVertexData)
        ensures
            r.vertices@ == self@.vertices,
            r.indices@ == self@.indices,
    {
        &self.data
    }

    /// Tests whether the context is live.
    pub fn is_initialized(&self) -> (r: bool)
        ensures
            r == self@.initialized,
    {
        self.initialized
    }

    fn start(&mut self) -> (r: Result<(), TessellationError>)
        ensures
            (final(self)@, r) == start_spec(old(self)@),
    {
        if !self.initialized {
            return Err(TessellationError::NotInitialized);
        }
        self.data = LyonVertexData { vertices: Vec::new(), indices: Vec::new() };
        Ok(())
    }

    /// Replaces the buffer's contents with the mesh `vertices` / `indices`
    /// that a tessellator produced, after checking that 16-bit indices can
    /// address it and that every index names a vertex.
    pub fn store_mesh(&mut self, vertices: Vec<LyonPoint>, indices: Vec<u32>) -> (r: Result<(), TessellationError>)
        ensures
            (final(self)@, r) == store_spec(old(self)@, vertices@, indices@),
    {
        if !self.initialized {
            return Err(TessellationError::NotInitialized);
        }
        self.data = LyonVertexData { vertices: Vec::new(), indices: Vec::new() };
        let n = vertices.len();
        if n > MAX_VERTICES {
            return Err(TessellationError::TooManyVertices);
        }
        if indices.len() % 3 != 0 {
            return Err(TessellationError::IncompleteTriangle);
        }
        let mut out: Vec<u16> = Vec::new();
        let mut k: usize = 0;
        while k < indices.len()
            invariant
                n == vertices@.len() <= MAX_VERTICES,
                old(self)@.initialized,
                self@ == cleared(),
                indices@.len() % 3 == 0,
                k <= indices@.len(),
                out@ == narrow(indices@.subrange(0, k as int)),
                forall|j: int| 0 <= j < k ==> #[trigger] indices@[j] < n,
            decreases indices@.len() - k,
        {
            let i = indices[k];
            if i as usize >= n {
                assert(indices@[k as int] >= vertices@.len());
                return Err(TessellationError::IndexOutOfRange);
            }
            out.push(i as u16);
            k = k + 1;
            assert(out@ =~= narrow(indices@.subrange(0, k as int)));
        }
        assert(indices@.subrange(0, k as int) =~= indices@);
        self.data = LyonVertexData { vertices, indices: out };
        Ok(())
    }
}

/// Starts a stroke tessellation: empties the buffer, checks the line
/// width, and compiles the builder, which is consumed whatever the outcome.
pub fn lyon_build_stroke(ctx: &mut LyonContext, b: LyonBuilder, line_width: u32) -> (r: Result<StrokeRequest, TessellationError>)
    requires
        b.wf(),
    ensures
        final(ctx)@ == start_spec(old(ctx)@).0,
        match r {
            Ok(req) => old(ctx)@.initialized && is_positive_finite_bits(line_width)
                && req.path@ == compile_spec(b@) && req.line_width == line_width
                && req.tolerance == DEFAULT_TOLERANCE_BITS,
            Err(e) => if !old(ctx)@.initialized {
                e == TessellationError::NotInitialized
            } else {
                !is_positive_finite_bits(line_width) && e == TessellationError::InvalidLineWidth
            },
        },
{
    ctx.start()?;
    if !positive_finite_bits(line_width) {
        return Err(TessellationError::InvalidLineWidth);
    }
    Ok(StrokeRequest { path: lyon_build_path(b), line_width, tolerance: DEFAULT_TOLERANCE_BITS })
}

/// Starts a fill tessellation: empties the buffer and compiles the
/// builder, which is consumed whatever the outcome.
pub fn lyon_build_fill(ctx: &mut LyonContext, b: LyonBuilder) -> (r: Result<FillRequest, TessellationError>)
    requires
        b.wf(),
    ensures
        final(ctx)@ == start_spec(old(ctx)@).0,
        match r {
            Ok(req) => old(ctx)@.initialized && req.path@ == compile_spec(b@)
                && req.tolerance == DEFAULT_TOLERANCE_BITS,
            Err(e) => !old(ctx)@.initialized && e == TessellationError::NotInitialized,
        },
{
    ctx.start()?;
    Ok(FillRequest { path: lyon_build_path(b), tolerance: DEFAULT_TOLERANCE_BITS })
}

/// One whole tessellation call on `c` that ends with the mesh
/// `vertices` / `indices`: the buffer is emptied, then the mesh is stored.
pub open spec fn call_spec(c: ContextModel, vertices: Seq<LyonPoint>, indices: Seq<u32>) -> (ContextModel, Result<(), TessellationError>) {
    match start_spec(c).1 {
        Err(e) => (start_spec(c).0, Err(e)),
        Ok(()) => store_spec(start_spec(c).0, vertices, indices),
    }
}

/// After two tessellation calls on a live context, the buffer and the
/// outcome are those of the second call alone: nothing of the first call's
/// mesh remains.
pub proof fn lemma_latest_call_only(
    c: ContextModel,
    v1: Seq<LyonPoint>,
    i1: Seq<u32>,
    v2: Seq<LyonPoint>,
    i2: Seq<u32>,
)
    requires
        c.initialized,
    ensures
        call_spec(call_spec(c, v1, i1).0, v2, i2) == call_spec(cleared(), v2, i2),
        call_spec(c, v2, i2).1 is Ok ==> call_spec(call_spec(c, v1, i1).0, v2, i2).0 == (
        ContextModel { initialized: true, vertices: v2, indices: narrow(i2) }),
{
}

/// On a live context, a mesh whose indices are whole triangles naming
/// existing vertices is stored exactly when it has at most `MAX_VERTICES`
/// vertices; otherwise the call reports too many vertices. Stored indices
/// keep their values: none wraps.
pub proof fn lemma_capacity_boundary(c: ContextModel, vertices: Seq<LyonPoint>, indices: Seq<u32>)
    requires
        c.initialized,
        indices.len() % 3 == 0,
        forall|k: int| 0 <= k < indices.len() ==> #[trigger] indices[k] < vertices.len(),
    ensures
        store_spec(c, vertices, indices).1 is Ok <==> vertices.len() <= MAX_VERTICES,
        vertices.len() > MAX_VERTICES ==> store_spec(c, vertices, indices).1 == Err::<(), TessellationError>(TessellationError::TooManyVertices),
        vertices.len() <= MAX_VERTICES ==> store_spec(c, vertices, indices).0.indices.len() == indices.len()
            && forall|k: int| 0 <= k < indices.len() ==> (#[trigger] store_spec(c, vertices, indices).0.indices[k]) as int == indices[k] as int,
{
}

} // verus!
