use vstd::prelude::*;

verus! {

/// A point, both coordinates in tenths of a pixel.
#[derive(Clone, Copy, Debug, PartialEq, Eq, Structural)]
pub struct Point {
    pub x: i64,
    pub y: i64,
}

/// Axis-aligned enclosure of a point set, in tenths of a pixel.
#[derive(Clone, Copy, Debug, PartialEq, Eq, Structural)]
pub struct BoundingBox {
    pub x: i64,
    pub y: i64,
    pub width: u64,
    pub height: u64,
}

/// Raw corner data as a detector reports it: a row-major matrix of
/// `rows * cols` values (tenths of a pixel), possibly empty.
#[derive(Debug)]
pub struct CornerData {
    rows: usize,
    cols: usize,
    values: Vec<i64>,
}

impl CornerData {
    #[verifier::type_invariant]
    spec fn shape_matches(&self) -> bool {
        self.values@.len() == self.rows * self.cols
    }
}

pub open spec fn min_of(a: int, b: int) -> int {
    if a <= b { a } else { b }
}

pub open spec fn max_of(a: int, b: int) -> int {
    if a >= b { a } else { b }
}

pub open spec fn pt(x: int, y: int) -> Point {
    Point { x: x as i64, y: y as i64 }
}

/// The centred square used when no usable corners were reported: its side is
/// six tenths of the shorter image side, listed clockwise from the top left.
pub open spec fn fallback_points(width: nat, height: nat) -> Seq<Point> {
    let m = min_of(width as int, height as int);
    let size = 6 * m;
    let ox = 5 * width - 3 * m;
    let oy = 5 * height - 3 * m;
    seq![pt(ox, oy), pt(ox + size, oy), pt(ox + size, oy + size), pt(ox, oy + size)]
}

pub open spec fn min_x(p: Seq<Point>) -> int {
    min_of(min_of(p[0].x as int, p[1].x as int), min_of(p[2].x as int, p[3].x as int))
}

pub open spec fn max_x(p: Seq<Point>) -> int {
    max_of(max_of(p[0].x as int, p[1].x as int), max_of(p[2].x as int, p[3].x as int))
}

pub open spec fn min_y(p: Seq<Point>) -> int {
    min_of(min_of(p[0].y as int, p[1].y as int), min_of(p[2].y as int, p[3].y as int))
}

pub open spec fn max_y(p: Seq<Point>) -> int {
    max_of(max_of(p[0].y as int, p[1].y as int), max_of(p[2].y as int, p[3].y as int))
}

/// The enclosure of four points.
pub open spec fn bbox_of(p: Seq<Point>) -> BoundingBox {
    BoundingBox {
        x: min_x(p) as i64,
        y: min_y(p) as i64,
        width: (max_x(p) - min_x(p)) as u64,
        height: (max_y(p) - min_y(p)) as u64,
    }
}

proof fn lemma_exact_division(n: int, c: int)
    requires
        c > 0,
        n % c == 0,
    ensures
        n == (n / c) * c,
{
    vstd::arithmetic::div_mod::lemma_fundamental_div_mod(n, c);
    vstd::arithmetic::mul::lemma_mul_is_commutative(c, n / c);
}

proof fn lemma_product_divides(r: int, c: int)
    requires
        r >= 0,
        c > 0,
    ensures
        (r * c) % c == 0,
        (r * c) / c == r,
{
    vstd::arithmetic::div_mod::lemma_mod_multiples_basic(r, c);
    vstd::arithmetic::div_mod::lemma_div_multiples_vanish(r, c);
    vstd::arithmetic::mul::lemma_mul_is_commutative(c, r);
}

impl CornerData {
    pub closed spec fn rows(&self) -> nat {
        self.rows as nat
    }

    pub closed spec fn cols(&self) -> nat {
        self.cols as nat
    }

    pub closed spec fn values(&self) -> Seq<i64> {
        self.values@
    }

    pub open spec fn wf(&self) -> bool {
        self.values().len() == self.rows() * self.cols()
    }

    /// At least four rows of at least two columns: each row is one corner.
    pub open spec fn is_block(&self) -> bool {
        self.rows() >= 4 && self.cols() >= 2
    }

    /// Not a block, but at least eight values: read as x, y pairs in order.
    pub open spec fn is_flat(&self) -> bool {
        !self.is_block() && self.values().len() >= 8
    }

    pub open spec fn at(&self, k: int) -> int {
        self.values()[k] as int
    }

    /// The four corners this data yields for an image of the given size.
    pub open spec fn corner_points(&self, width: nat, height: nat) -> Seq<Point> {
        if self.is_block() {
            let c = self.cols() as int;
            seq![
                pt(self.at(0), self.at(1)),
                pt(self.at(c), self.at(c + 1)),
                pt(self.at(2 * c), self.at(2 * c + 1)),
                pt(self.at(3 * c), self.at(3 * c + 1)),
            ]
        } else if self.is_flat() {
            seq![
                pt(self.at(0), self.at(1)),
                pt(self.at(2), self.at(3)),
                pt(self.at(4), self.at(5)),
                pt(self.at(6), self.at(7)),
            ]
        } else {
            fallback_points(width, height)
        }
    }

    /// No corner data at all.
    pub fn absent() -> (r: CornerData)
        ensures
            r.wf(),
            r.rows() == 0,
            r.cols() == 0,
            r.values().len() == 0,
    {
        CornerData { rows: 0, cols: 0, values: Vec::new() }
    }

    /// A `rows` by `cols` matrix in row-major order; `None` when the number
    /// of values does not match the shape.
    pub fn from_matrix(rows: usize, cols: usize, values: Vec<i64>) -> (r: Option<CornerData>)
        ensures
            r.is_some() <==> values@.len() == rows * cols,
            r matches Some(d) ==> d.wf() && d.rows() == rows && d.cols() == cols
                && d.values() == values@,
    {
        let len = values.len();
        if rows == 0 || cols == 0 {
            if len == 0 {
                Some(CornerData { rows, cols, values })
            } else {
                None
            }
        } else if len % cols == 0 && len / cols == rows {
            proof {
                lemma_exact_division(len as int, cols as int);
            }
            Some(CornerData { rows, cols, values })
        } else {
            proof {
                if len == rows * cols {
                    lemma_product_divides(rows as int, cols as int);
                }
            }
            None
        }
    }
}

proof fn lemma_block_indices(rows: int, cols: int)
    requires
        rows >= 4,
        cols >= 2,
    ensures
        3 * cols + 1 < rows * cols,
{
    assert(4 * cols <= rows * cols) by (nonlinear_arith)
        requires rows >= 4, cols >= 2;
}

impl CornerData {
    /// The four corners this data yields: the first four rows of a block,
    /// the first eight values of a flat sequence, or else the centred square
    /// for a `width` by `height` image.
    pub fn corners(&self, width: u32, height: u32) -> (r: Vec<Point>)
        ensures
            self.wf(),
            r@ == self.corner_points(width as nat, height as nat),
    {
        proof {
            use_type_invariant(self);
        }
        if self.rows >= 4 && self.cols >= 2 {
            let c = self.cols;
            proof {
                lemma_block_indices(self.rows as int, c as int);
            }
            let v = &self.values;
            let n = v.len();
            assert(3 * c + 1 < n);
            let r1 = c;
            let r2 = 2 * c;
            let r3 = 3 * c;
            vec![
                Point { x: v[0], y: v[1] },
                Point { x: v[r1], y: v[r1 + 1] },
                Point { x: v[r2], y: v[r2 + 1] },
                Point { x: v[r3], y: v[r3 + 1] },
            ]
        } else if self.values.len() >= 8 {
            let v = &self.values;
            vec![
                Point { x: v[0], y: v[1] },
                Point { x: v[2], y: v[3] },
                Point { x: v[4], y: v[5] },
                Point { x: v[6], y: v[7] },
            ]
        } else {
            fallback_corners(width, height)
        }
    }
}

/// The centred square for a `width` by `height` image.
pub fn fallback_corners(width: u32, height: u32) -> (r: Vec<Point>)
    ensures
        r@ == fallback_points(width as nat, height as nat),
{
    let w = width as i64;
    let h = height as i64;
    let m = if w <= h { w } else { h };
    let size = 6 * m;
    let ox = 5 * w - 3 * m;
    let oy = 5 * h - 3 * m;
    vec![
        Point { x: ox, y: oy },
        Point { x: ox + size, y: oy },
        Point { x: ox + size, y: oy + size },
        Point { x: ox, y: oy + size },
    ]
}

/// The axis-aligned enclosure of four points.
pub fn bounding_box(points: &Vec<Point>) -> (r: BoundingBox)
    requires
        points@.len() == 4,
    ensures
        r == bbox_of(points@),
        r.x == min_x(points@),
        r.y == min_y(points@),
        r.width == max_x(points@) - min_x(points@),
        r.height == max_y(points@) - min_y(points@),
{
    let p0 = points[0];
    let p1 = points[1];
    let p2 = points[2];
    let p3 = points[3];
    let lo_x = min_i64(min_i64(p0.x, p1.x), min_i64(p2.x, p3.x));
    let hi_x = max_i64(max_i64(p0.x, p1.x), max_i64(p2.x, p3.x));
    let lo_y = min_i64(min_i64(p0.y, p1.y), min_i64(p2.y, p3.y));
    let hi_y = max_i64(max_i64(p0.y, p1.y), max_i64(p2.y, p3.y));
    let width = (hi_x as i128 - lo_x as i128) as u64;
    let height = (hi_y as i128 - lo_y as i128) as u64;
    BoundingBox { x: lo_x, y: lo_y, width, height }
}

fn min_i64(a: i64, b: i64) -> (r: i64)
    ensures
        r == min_of(a as int, b as int),
{
    if a <= b { a } else { b }
}

fn max_i64(a: i64, b: i64) -> (r: i64)
    ensures
        r == max_of(a as int, b as int),
{
    if a >= b { a } else { b }
}

/// A block yields its first four rows, in order, each row's first two
/// values read as x and y.
pub proof fn lemma_block_corners(c: CornerData, width: nat, height: nat)
    requires
        c.wf(),
        c.is_block(),
    ensures
        c.corner_points(width, height).len() == 4,
        forall|j: int|
            0 <= j < 4 ==> #[trigger] c.corner_points(width, height)[j] == pt(
                c.at(j * (c.cols() as int)),
                c.at(j * (c.cols() as int) + 1),
            ),
{
    let p = c.corner_points(width, height);
    let k = c.cols() as int;
    assert(p[0] == pt(c.at(0 * k), c.at(0 * k + 1)));
    assert(p[1] == pt(c.at(1 * k), c.at(1 * k + 1)));
    assert(p[2] == pt(c.at(2 * k), c.at(2 * k + 1)));
    assert(p[3] == pt(c.at(3 * k), c.at(3 * k + 1)));
}

/// A flat sequence holding the same x, y pairs as the rows of a block yields
/// the same four corners as the block.
pub proof fn lemma_flat_matches_block(
    block: CornerData,
    flat: CornerData,
    width: nat,
    height: nat,
)
    requires
        block.wf(),
        flat.wf(),
        block.is_block(),
        flat.is_flat(),
        ({
            let k = block.cols() as int;
            &&& flat.at(0) == block.at(0) && flat.at(1) == block.at(1)
            &&& flat.at(2) == block.at(k) && flat.at(3) == block.at(k + 1)
            &&& flat.at(4) == block.at(2 * k) && flat.at(5) == block.at(2 * k + 1)
            &&& flat.at(6) == block.at(3 * k) && flat.at(7) == block.at(3 * k + 1)
        }),
    ensures
        flat.corner_points(width, height) == block.corner_points(width, height),
{
    let f = flat.corner_points(width, height);
    let b = block.corner_points(width, height);
    assert(f[0] == b[0]);
    assert(f[1] == b[1]);
    assert(f[2] == b[2]);
    assert(f[3] == b[3]);
    assert(f =~= b);
}

/// Without usable corners the result is a square whose side is six tenths of
/// the shorter image side, centred in the image; its enclosure is as wide as
/// it is high.
pub proof fn lemma_fallback_square(c: CornerData, width: nat, height: nat)
    requires
        c.wf(),
        !c.is_block(),
        !c.is_flat(),
        width > 0,
        height > 0,
        width <= u32::MAX,
        height <= u32::MAX,
    ensures
        ({
            let p = c.corner_points(width, height);
            let side = 6 * min_of(width as int, height as int);
            let b = bbox_of(p);
            &&& p.len() == 4
            &&& p[1].x - p[0].x == side && p[1].y == p[0].y
            &&& p[2].y - p[1].y == side && p[2].x == p[1].x
            &&& p[2].x - p[3].x == side && p[3].y == p[2].y
            &&& p[3].y - p[0].y == side && p[3].x == p[0].x
            &&& b.width == side && b.height == side
            &&& b.width == b.height
            &&& 2 * b.x + b.width == 10 * width
            &&& 2 * b.y + b.height == 10 * height
        }),
{
}

} // verus!
