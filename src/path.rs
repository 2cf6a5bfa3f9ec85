use vstd::prelude::*;

use crate::geometry::{all_finite, LyonPoint, LyonRect};

verus! {

/// Ways in which a drawing command breaks the path grammar
/// `begin (line | quadratic | cubic)* end`.
#[derive(Clone, Copy, Debug, PartialEq, Eq, Structural)]
pub enum PathError {
    /// A segment or `end` was issued while no subpath was open.
    NoOpenSubpath,
    /// `begin`, a rectangle or a polygon was issued while a subpath was open.
    SubpathAlreadyOpen,
    /// A coordinate is infinite or not a number.
    NonFiniteCoordinate,
}

/// One segment of a subpath; it starts where the previous one ended.
#[derive(Clone, Copy, Debug, PartialEq, Eq, Structural)]
pub enum Segment {
    Line { to: LyonPoint },
    Quadratic { ctrl: LyonPoint, to: LyonPoint },
    Cubic { ctrl1: LyonPoint, ctrl2: LyonPoint, to: LyonPoint },
}

impl Segment {
    pub open spec fn is_finite(self) -> bool {
        match self {
            Segment::Line { to } => to.is_finite(),
            Segment::Quadratic { ctrl, to } => ctrl.is_finite() && to.is_finite(),
            Segment::Cubic { ctrl1, ctrl2, to } => ctrl1.is_finite() && ctrl2.is_finite()
                && to.is_finite(),
        }
    }

    fn finite(&self) -> (r: bool)
        ensures
            r == self.is_finite(),
    {
        match self {
            Segment::Line { to } => to.finite(),
            Segment::Quadratic { ctrl, to } => ctrl.finite() && to.finite(),
            Segment::Cubic { ctrl1, ctrl2, to } => ctrl1.finite() && ctrl2.finite()
                && to.finite(),
        }
    }
}

/// A run of connected segments from `start`; when `closed`, a straight
/// segment joins the last end point back to `start`.
pub struct Contour {
    pub start: LyonPoint,
    pub segments: Vec<Segment>,
    pub closed: bool,
}

/// One subpath of a compiled path.
pub enum Subpath {
    Contour(Contour),
    /// The four edges of a rectangle, closed, with positive winding.
    Rectangle(LyonRect),
}

/// What a subpath is, as a mathematical value.
pub enum SubpathModel {
    Contour { start: LyonPoint, segments: Seq<Segment>, closed: bool },
    Rectangle { rect: LyonRect },
}

impl SubpathModel {
    pub open spec fn is_finite(self) -> bool {
        match self {
            SubpathModel::Contour { start, segments, .. } => start.is_finite() && forall|i: int|
                0 <= i < segments.len() ==> (#[trigger] segments[i]).is_finite(),
            SubpathModel::Rectangle { rect } => rect.is_finite(),
        }
    }
}

impl View for Subpath {
    type V = SubpathModel;

    open spec fn view(&self) -> SubpathModel {
        match self {
            Subpath::Contour(c) => SubpathModel::Contour {
                start: c.start,
                segments: c.segments@,
                closed: c.closed,
            },
            Subpath::Rectangle(r) => SubpathModel::Rectangle { rect: *r },
        }
    }
}

/// The subpath that a builder is currently recording.
pub struct OpenSubpath {
    pub start: LyonPoint,
    pub segments: Seq<Segment>,
}

/// What a builder holds: the subpaths it has completed, in order, and the
/// one still being recorded, if any.
pub struct BuilderModel {
    pub subpaths: Seq<SubpathModel>,
    pub open: Option<OpenSubpath>,
}

impl BuilderModel {
    /// Every coordinate recorded so far is finite.
    pub open spec fn is_finite(self) -> bool {
        &&& forall|i: int| 0 <= i < self.subpaths.len() ==> (#[trigger] self.subpaths[i]).is_finite()
        &&& match self.open {
            Some(o) => o.start.is_finite() && forall|i: int|
                0 <= i < o.segments.len() ==> (#[trigger] o.segments[i]).is_finite(),
            None => true,
        }
    }
}

/// The empty recording.
pub open spec fn empty_model() -> BuilderModel {
    BuilderModel { subpaths: Seq::empty(), open: None }
}

/// Effect of starting a subpath at `at`.
pub open spec fn begin_spec(m: BuilderModel, at: LyonPoint) -> Result<BuilderModel, PathError> {
    if m.open is Some {
        Err(PathError::SubpathAlreadyOpen)
    } else if !at.is_finite() {
        Err(PathError::NonFiniteCoordinate)
    } else {
        Ok(BuilderModel { subpaths: m.subpaths, open: Some(OpenSubpath { start: at, segments: Seq::empty() }) })
    }
}

/// Effect of appending `seg` to the open subpath.
pub open spec fn segment_spec(m: BuilderModel, seg: Segment) -> Result<BuilderModel, PathError> {
    match m.open {
        None => Err(PathError::NoOpenSubpath),
        Some(o) => if !seg.is_finite() {
            Err(PathError::NonFiniteCoordinate)
        } else {
            Ok(BuilderModel {
                subpaths: m.subpaths,
                open: Some(OpenSubpath { start: o.start, segments: o.segments.push(seg) }),
            })
        },
    }
}

/// Effect of ending the open subpath, closing it or leaving it open.
pub open spec fn end_spec(m: BuilderModel, closed: bool) -> Result<BuilderModel, PathError> {
    match m.open {
        None => Err(PathError::NoOpenSubpath),
        Some(o) => Ok(BuilderModel {
            subpaths: m.subpaths.push(SubpathModel::Contour { start: o.start, segments: o.segments, closed }),
            open: None,
        }),
    }
}

/// Effect of adding a self-contained subpath `s`.
pub open spec fn add_subpath_spec(m: BuilderModel, s: SubpathModel) -> Result<BuilderModel, PathError> {
    if m.open is Some {
        Err(PathError::SubpathAlreadyOpen)
    } else if !s.is_finite() {
        Err(PathError::NonFiniteCoordinate)
    } else {
        Ok(BuilderModel { subpaths: m.subpaths.push(s), open: None })
    }
}

/// The straight segments that visit `pts` in order, from the second point on.
pub open spec fn polyline(pts: Seq<LyonPoint>) -> Seq<Segment> {
    pts.subrange(1, pts.len() as int).map_values(|p: LyonPoint| Segment::Line { to: p })
}

/// Effect of adding the polygon through `pts`; no points add nothing.
pub open spec fn polygon_spec(m: BuilderModel, pts: Seq<LyonPoint>, closed: bool) -> Result<BuilderModel, PathError> {
    if m.open is Some {
        Err(PathError::SubpathAlreadyOpen)
    } else if exists|i: int| 0 <= i < pts.len() && !(#[trigger] pts[i]).is_finite() {
        Err(PathError::NonFiniteCoordinate)
    } else if pts.len() == 0 {
        Ok(m)
    } else {
        add_subpath_spec(m, SubpathModel::Contour { start: pts[0], segments: polyline(pts), closed })
    }
}

/// The subpaths of the path compiled from `m`: a subpath still open is
/// ended without closing it.
pub open spec fn compile_spec(m: BuilderModel) -> Seq<SubpathModel> {
    match m.open {
        None => m.subpaths,
        Some(o) => m.subpaths.push(SubpathModel::Contour { start: o.start, segments: o.segments, closed: false }),
    }
}

/// A compiled path: an ordered sequence of subpaths.
pub struct Path {
    pub subpaths: Vec<Subpath>,
}

impl View for Path {
    type V = Seq<SubpathModel>;

    open spec fn view(&self) -> Seq<SubpathModel> {
        self.subpaths@.map_values(|s: Subpath| s@)
    }
}

/// Records drawing commands and compiles them into a [`Path`].
pub struct LyonBuilder {
    subpaths: Vec<Subpath>,
    open_start: Option<LyonPoint>,
    open_segments: Vec<Segment>,
}

impl View for LyonBuilder {
    type V = BuilderModel;

    closed spec fn view(&self) -> BuilderModel {
        BuilderModel {
            subpaths: self.subpaths@.map_values(|s: Subpath| s@),
            open: match self.open_start {
                Some(p) => Some(OpenSubpath { start: p, segments: self.open_segments@ }),
                None => None,
            },
        }
    }
}

impl LyonBuilder {
    /// The builder's internal invariant: it holds only finite coordinates,
    /// and segments only while a subpath is open.
    pub closed spec fn wf(&self) -> bool {
        &&& self@.is_finite()
        &&& self.open_start is None ==> self.open_segments@.len() == 0
    }

    proof fn lemma_push_subpath(&self, s: Subpath)
        ensures
            self.subpaths@.push(s).map_values(|t: Subpath| t@) == self@.subpaths.push(s@),
    {
        assert(self.subpaths@.push(s).map_values(|t: Subpath| t@) =~= self@.subpaths.push(s@));
    }

    fn push_subpath(&mut self, s: Subpath)
        requires
            old(self).wf(),
            old(self).open_start is None,
            s@.is_finite(),
        ensures
            final(self).wf(),
            final(self)@ == (BuilderModel { subpaths: old(self)@.subpaths.push(s@), open: None }),
    {
        proof {
            self.lemma_push_subpath(s);
        }
        self.subpaths.push(s);
    }
}

/// Makes an empty builder.
pub fn lyon_new_builder() -> (b: LyonBuilder)
    ensures
        b.wf(),
        b@ == empty_model(),
{
    let b = LyonBuilder { subpaths: Vec::new(), open_start: None, open_segments: Vec::new() };
    assert(b@.subpaths =~= Seq::empty());
    b
}

/// Releases a builder without compiling it.
pub fn free_builder(b: LyonBuilder) {
}

/// Starts a new subpath at `pt`.
pub fn lyon_begin(b: &mut LyonBuilder, pt: &LyonPoint) -> (r: Result<(), PathError>)
    requires
        old(b).wf(),
    ensures
        final(b).wf(),
        match begin_spec(old(b)@, *pt) {
            Ok(m) => r is Ok && final(b)@ == m,
            Err(e) => r == Err::<(), PathError>(e) && final(b)@ == old(b)@,
        },
{
    if b.open_start.is_some() {
        return Err(PathError::SubpathAlreadyOpen);
    }
    if !pt.finite() {
        return Err(PathError::NonFiniteCoordinate);
    }
    b.open_start = Some(*pt);
    assert(b@.open->Some_0.segments =~= Seq::empty());
    Ok(())
}

/// Appends `seg` to the open subpath.
fn append_segment(b: &mut LyonBuilder, seg: Segment) -> (r: Result<(), PathError>)
    requires
        old(b).wf(),
    ensures
        final(b).wf(),
        match segment_spec(old(b)@, seg) {
            Ok(m) => r is Ok && final(b)@ == m,
            Err(e) => r == Err::<(), PathError>(e) && final(b)@ == old(b)@,
        },
{
    if b.open_start.is_none() {
        return Err(PathError::NoOpenSubpath);
    }
    if !seg.finite() {
        return Err(PathError::NonFiniteCoordinate);
    }
    b.open_segments.push(seg);
    Ok(())
}

/// Appends a straight segment from the current point to `pt`.
pub fn lyon_line_to(b: &mut LyonBuilder, pt: &LyonPoint) -> (r: Result<(), PathError>)
    requires
        old(b).wf(),
    ensures
        final(b).wf(),
        match segment_spec(old(b)@, Segment::Line { to: *pt }) {
            Ok(m) => r is Ok && final(b)@ == m,
            Err(e) => r == Err::<(), PathError>(e) && final(b)@ == old(b)@,
        },
{
    append_segment(b, Segment::Line { to: *pt })
}

/// Appends a quadratic curve with control point `ctrl_pt` ending at `to_pt`.
pub fn lyon_quadratic_bezier_to(b: &mut LyonBuilder, ctrl_pt: &LyonPoint, to_pt: &LyonPoint) -> (r: Result<(), PathError>)
    requires
        old(b).wf(),
    ensures
        final(b).wf(),
        match segment_spec(old(b)@, Segment::Quadratic { ctrl: *ctrl_pt, to: *to_pt }) {
            Ok(m) => r is Ok && final(b)@ == m,
            Err(e) => r == Err::<(), PathError>(e) && final(b)@ == old(b)@,
        },
{
    append_segment(b, Segment::Quadratic { ctrl: *ctrl_pt, to: *to_pt })
}

/// Appends a cubic curve with control points `ctrl1_pt`, `ctrl2_pt` ending at `to_pt`.
pub fn lyon_cubic_bezier_to(
    b: &mut LyonBuilder,
    ctrl1_pt: &LyonPoint,
    ctrl2_pt: &LyonPoint,
    to_pt: &LyonPoint,
) -> (r: Result<(), PathError>)
    requires
        old(b).wf(),
    ensures
        final(b).wf(),
        match segment_spec(old(b)@, Segment::Cubic { ctrl1: *ctrl1_pt, ctrl2: *ctrl2_pt, to: *to_pt }) {
            Ok(m) => r is Ok && final(b)@ == m,
            Err(e) => r == Err::<(), PathError>(e) && final(b)@ == old(b)@,
        },
{
    append_segment(b, Segment::Cubic { ctrl1: *ctrl1_pt, ctrl2: *ctrl2_pt, to: *to_pt })
}

/// Ends the open subpath; when `closed_path` holds, it is closed back to its start.
pub fn lyon_end(b: &mut LyonBuilder, closed_path: bool) -> (r: Result<(), PathError>)
    requires
        old(b).wf(),
    ensures
        final(b).wf(),
        match end_spec(old(b)@, closed_path) {
            Ok(m) => r is Ok && final(b)@ == m,
            Err(e) => r == Err::<(), PathError>(e) && final(b)@ == old(b)@,
        },
{
    match b.open_start {
        None => Err(PathError::NoOpenSubpath),
        Some(start) => {
            let mut segments: Vec<Segment> = Vec::new();
            std::mem::swap(&mut segments, &mut b.open_segments);
            b.open_start = None;
            b.push_subpath(Subpath::Contour(Contour { start, segments, closed: closed_path }));
            Ok(())
        },
    }
}

/// Adds the closed, positively wound rectangle `c_rect` as a subpath of its own.
pub fn lyon_add_rectangle(b: &mut LyonBuilder, c_rect: &LyonRect) -> (r: Result<(), PathError>)
    requires
        old(b).wf(),
    ensures
        final(b).wf(),
        match add_subpath_spec(old(b)@, SubpathModel::Rectangle { rect: *c_rect }) {
            Ok(m) => r is Ok && final(b)@ == m,
            Err(e) => r == Err::<(), PathError>(e) && final(b)@ == old(b)@,
        },
{
    if b.open_start.is_some() {
        return Err(PathError::SubpathAlreadyOpen);
    }
    if !c_rect.finite() {
        return Err(PathError::NonFiniteCoordinate);
    }
    b.push_subpath(Subpath::Rectangle(*c_rect));
    Ok(())
}

/// Adds the polygon through `pts` as a subpath of its own, closed when
/// `closed` holds. An empty `pts` adds nothing.
pub fn lyon_add_polygon(b: &mut LyonBuilder, pts: &Vec<LyonPoint>, closed: bool) -> (r: Result<(), PathError>)
    requires
        old(b).wf(),
    ensures
        final(b).wf(),
        match polygon_spec(old(b)@, pts@, closed) {
            Ok(m) => r is Ok && final(b)@ == m,
            Err(e) => r == Err::<(), PathError>(e) && final(b)@ == old(b)@,
        },
{
    if b.open_start.is_some() {
        return Err(PathError::SubpathAlreadyOpen);
    }
    if !all_finite(pts) {
        return Err(PathError::NonFiniteCoordinate);
    }
    if pts.len() == 0 {
        return Ok(());
    }
    let mut segments: Vec<Segment> = Vec::new();
    let mut i: usize = 1;
    while i < pts.len()
        invariant
            1 <= i <= pts@.len(),
            segments@ == pts@.subrange(1, i as int).map_values(|p: LyonPoint| Segment::Line { to: p }),
        decreases pts@.len() - i,
    {
        segments.push(Segment::Line { to: pts[i] });
        i = i + 1;
        assert(segments@ =~= pts@.subrange(1, i as int).map_values(|p: LyonPoint| Segment::Line { to: p }));
    }
    let s = Subpath::Contour(Contour { start: pts[0], segments, closed });
    assert(s@.is_finite()) by {
        assert forall|k: int| 0 <= k < polyline(pts@).len() implies (#[trigger] polyline(pts@)[k]).is_finite() by {
            assert(pts@[k + 1].is_finite());
        }
    }
    b.push_subpath(s);
    Ok(())
}

/// Compiles the recorded commands into a path, consuming the builder. A
/// subpath still open is ended without closing it.
pub fn lyon_build_path(builder: LyonBuilder) -> (p: Path)
    requires
        builder.wf(),
    ensures
        p@ == compile_spec(builder@),
        forall|i: int| 0 <= i < p@.len() ==> (#[trigger] p@[i]).is_finite(),
{
    let mut b = builder;
    assert(b.wf());
    if b.open_start.is_some() {
        let start = b.open_start.unwrap();
        let mut segments: Vec<Segment> = Vec::new();
        std::mem::swap(&mut segments, &mut b.open_segments);
        b.open_start = None;
        assert(b@.subpaths == builder@.subpaths);
        assert(b.wf());
        let s = Subpath::Contour(Contour { start, segments, closed: false });
        assert(builder@.open->Some_0.segments == segments@);
        assert(s@.is_finite());
        b.push_subpath(s);
    }
    let p = Path { subpaths: b.subpaths };
    assert(p@ == b@.subpaths);
    p
}

} // verus!
