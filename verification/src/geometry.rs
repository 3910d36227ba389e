//! Layout geometry: points and the closed outlines that are traced through them.

use vstd::prelude::*;

verus! {

/// A position on the board, in whole pixels.
#[derive(Clone, Copy, Debug, PartialEq, Eq, Structural)]
pub struct Point {
    pub x: i32,
    pub y: i32,
}

/// One step in the tracing of an outline.
#[derive(Clone, Copy, Debug, PartialEq, Eq, Structural)]
pub enum PathSegment {
    /// Start the outline at this point without drawing.
    MoveTo(Point),
    /// Draw a straight line from the current point to this one.
    LineTo(Point),
    /// Draw a straight line back to the starting point.
    Close,
}

/// The tracing steps of the closed outline through `vertices`: a move to the
/// first vertex, a line to every later vertex in order, and a closing step.
pub open spec fn spec_segments(vertices: Seq<Point>) -> Seq<PathSegment>
    recommends
        vertices.len() >= 1,
{
    seq![PathSegment::MoveTo(vertices[0])] + Seq::new(
        (vertices.len() - 1) as nat,
        |i: int| PathSegment::LineTo(vertices[i + 1]),
    ) + seq![PathSegment::Close]
}

/// Edge `i` of the closed outline through `vertices`: it runs from vertex
/// `i` to the next vertex, and from the last vertex back to the first.
pub open spec fn spec_edge(vertices: Seq<Point>, i: int) -> (Point, Point)
    recommends
        0 <= i < vertices.len(),
{
    (vertices[i], vertices[if i + 1 == vertices.len() { 0 } else { i + 1 }])
}

/// A closed outline. Its view is the sequence of its vertices in tracing
/// order, which is never empty.
#[derive(Debug, PartialEq, Eq)]
pub struct ClosedPath {
    vertices: Vec<Point>,
}

impl View for ClosedPath {
    type V = Seq<Point>;

    closed spec fn view(&self) -> Seq<Point> {
        self.vertices@
    }
}

impl Clone for ClosedPath {
    fn clone(&self) -> (copy: Self)
        ensures
            copy@ == self@,
    {
        proof {
            use_type_invariant(self);
        }
        ClosedPath { vertices: copy_points(&self.vertices) }
    }
}

impl ClosedPath {
    #[verifier::type_invariant]
    spec fn has_start(self) -> bool {
        self.vertices@.len() >= 1
    }

    /// The number of vertices, which is also the number of edges once the
    /// closing edge is counted.
    pub fn vertex_count(&self) -> (n: usize)
        ensures
            n == self@.len(),
            n >= 1,
    {
        proof {
            use_type_invariant(self);
        }
        self.vertices.len()
    }

    /// The point at which tracing starts and to which the outline closes.
    pub fn start(&self) -> (p: Point)
        ensures
            self@.len() >= 1,
            p == self@[0],
    {
        proof {
            use_type_invariant(self);
        }
        self.vertices[0]
    }

    /// The vertex at position `i` in tracing order.
    pub fn vertex(&self, i: usize) -> (p: Point)
        requires
            i < self@.len(),
        ensures
            p == self@[i as int],
    {
        self.vertices[i]
    }

    /// Edge `i` as a pair of end points; the last edge closes the outline.
    pub fn edge(&self, i: usize) -> (e: (Point, Point))
        requires
            i < self@.len(),
        ensures
            e == spec_edge(self@, i as int),
    {
        let n: usize = self.vertices.len();
        let next: usize = if i + 1 == n { 0 } else { i + 1 };
        (self.vertices[i], self.vertices[next])
    }

    /// The tracing steps of this outline, in the order in which a renderer
    /// has to replay them.
    pub fn segments(&self) -> (steps: Vec<PathSegment>)
        ensures
            self@.len() >= 1,
            steps@ == spec_segments(self@),
    {
        proof {
            use_type_invariant(self);
        }
        let n: usize = self.vertices.len();
        let mut steps: Vec<PathSegment> = Vec::new();
        steps.push(PathSegment::MoveTo(self.vertices[0]));
        let mut i: usize = 1;
        while i < n
            invariant
                1 <= i <= n,
                n == self.vertices@.len(),
                steps@.len() == i,
                steps@[0] == PathSegment::MoveTo(self.vertices@[0]),
                forall|k: int| 1 <= k < i ==> steps@[k] == PathSegment::LineTo(self.vertices@[k]),
            decreases n - i,
        {
            steps.push(PathSegment::LineTo(self.vertices[i]));
            i = i + 1;
        }
        steps.push(PathSegment::Close);
        assert(steps@ =~= spec_segments(self@));
        steps
    }
}

/// A fresh vector with the same points in the same order.
fn copy_points(points: &Vec<Point>) -> (copy: Vec<Point>)
    ensures
        copy@ == points@,
{
    let n: usize = points.len();
    let mut copy: Vec<Point> = Vec::new();
    let mut i: usize = 0;
    while i < n
        invariant
            i <= n,
            n == points@.len(),
            copy@ == points@.take(i as int),
        decreases n - i,
    {
        copy.push(points[i]);
        i = i + 1;
        assert(copy@ =~= points@.take(i as int));
    }
    assert(points@.take(n as int) =~= points@);
    copy
}

/// Traces the closed outline through `points`: it starts at the first point,
/// visits every later point in order and closes back to the first. A single
/// point gives an outline of length zero; no outline goes through no points.
pub fn to_path(points: &Vec<Point>) -> (path: Option<ClosedPath>)
    ensures
        path is None <==> points@.len() == 0,
        path matches Some(p) ==> p@ == points@,
{
    if points.len() == 0 {
        None
    } else {
        Some(ClosedPath { vertices: copy_points(points) })
    }
}

} // verus!
