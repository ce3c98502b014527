//! Identities of real arithmetic that the laws over exact scalars rest on.
use vstd::prelude::*;

verus! {

/// What is not negative and has the square `0` or `1` is `0` or `1`.
pub(crate) proof fn lemma_root_of_unit(r: real)
    by (nonlinear_arith)
    requires
        r >= 0 as real,
    ensures
        r * r == 0 as real ==> r == 0 as real,
        r * r == 1 as real ==> r == 1 as real,
{
    if r * r == 1 as real {
        assert((r - (1 as real)) * (r + (1 as real)) == 0 as real);
    }
}

/// A difference scaled by the inverse `i` of its length `d` and then by `d`
/// is the difference again.
pub(crate) proof fn lemma_scaled_back(c: real, d: real, i: real, n: real)
    requires
        i * d == 1 as real,
        n == c * i,
    ensures
        n * d == c,
        n * c == i * (c * c),
{
    assert((c * i) * d == c * (i * d)) by (nonlinear_arith);
    assert(c * (i * d) == c) by (nonlinear_arith)
        requires
            i * d == 1 as real,
    ;
    assert((c * i) * c == i * (c * c)) by (nonlinear_arith);
}

/// The unit vector `n = d / |d|` of a difference `d` that is not zero has
/// the product `|d|` with it, and `n |d|` is `d` again. The inverse of `|d|`
/// is `i`.
pub(crate) proof fn lemma_unit_direction(
    dx: real,
    dy: real,
    dz: real,
    d: real,
    i: real,
    nx: real,
    ny: real,
    nz: real,
)
    requires
        i * d == 1 as real,
        d * d == dx * dx + dy * dy + dz * dz,
        nx == dx * i,
        ny == dy * i,
        nz == dz * i,
    ensures
        nx * dx + ny * dy + nz * dz == d,
        nx * d == dx,
        ny * d == dy,
        nz * d == dz,
{
    lemma_scaled_back(dx, d, i, nx);
    lemma_scaled_back(dy, d, i, ny);
    lemma_scaled_back(dz, d, i, nz);
    let xx = dx * dx;
    let yy = dy * dy;
    let zz = dz * dz;
    assert(i * xx + i * yy + i * zz == i * (xx + yy + zz)) by (nonlinear_arith);
    assert(i * (d * d) == (i * d) * d) by (nonlinear_arith);
    assert((i * d) * d == d) by (nonlinear_arith)
        requires
            i * d == 1 as real,
    ;
}

/// The sum of three squares is not negative, and the squares of the
/// negated numbers are the same.
pub(crate) proof fn lemma_squares(x: real, y: real, z: real)
    ensures
        x * x + y * y + z * z >= 0 as real,
        (-x) * (-x) + (-y) * (-y) + (-z) * (-z) == x * x + y * y + z * z,
{
    assert(x * x >= 0 as real) by (nonlinear_arith);
    assert(y * y >= 0 as real) by (nonlinear_arith);
    assert(z * z >= 0 as real) by (nonlinear_arith);
    assert((-x) * (-x) == x * x) by (nonlinear_arith);
    assert((-y) * (-y) == y * y) by (nonlinear_arith);
    assert((-z) * (-z) == z * z) by (nonlinear_arith);
}

/// The products with the light-cone directions `(1, -n)` and `(1, n)`,
/// written out, are `t + n . v` and `t - n . v`.
pub(crate) proof fn lemma_light_cone(
    t: real,
    x: real,
    y: real,
    z: real,
    nx: real,
    ny: real,
    nz: real,
    plus: real,
    minus: real,
)
    requires
        plus == t * (1 as real) - x * (-nx) - y * (-ny) - z * (-nz),
        minus == t * (1 as real) - x * nx - y * ny - z * nz,
    ensures
        plus == t + (nx * x + ny * y + nz * z),
        minus == t - (nx * x + ny * y + nz * z),
{
    assert(x * (-nx) == -(nx * x)) by (nonlinear_arith);
    assert(y * (-ny) == -(ny * y)) by (nonlinear_arith);
    assert(z * (-nz) == -(nz * z)) by (nonlinear_arith);
    assert(x * nx == nx * x) by (nonlinear_arith);
    assert(y * ny == ny * y) by (nonlinear_arith);
    assert(z * nz == nz * z) by (nonlinear_arith);
    assert(t * (1 as real) == t) by (nonlinear_arith);
}

/// The difference of the products of a unit direction with `q` and with
/// `p` is its product with the difference of the two.
pub(crate) proof fn lemma_product_of_difference(
    nx: real,
    ny: real,
    nz: real,
    px: real,
    py: real,
    pz: real,
    qx: real,
    qy: real,
    qz: real,
)
    ensures
        (nx * qx + ny * qy + nz * qz) - (nx * px + ny * py + nz * pz) == nx * (qx - px) + ny * (qy
            - py) + nz * (qz - pz),
{
    assert(nx * (qx - px) == nx * qx - nx * px) by (nonlinear_arith);
    assert(ny * (qy - py) == ny * qy - ny * py) by (nonlinear_arith);
    assert(nz * (qz - pz) == nz * qz - nz * pz) by (nonlinear_arith);
}

/// The square of `b f + c` written out.
pub(crate) proof fn lemma_shifted_square(c: real, b: real, f: real)
    ensures
        (b * f + c) * (b * f + c) == (b * b) * (f * f) + (2 as real) * f * (c * b) + c * c,
{
    assert((b * f + c) * (b * f + c) == (b * b) * (f * f) + (2 as real) * f * (c * b) + c * c)
        by (nonlinear_arith);
}

/// The squared length of a momentum shifted along a velocity `b` by `b f`
/// is `|p|^2 + 2 f (b . p) + f^2 |b|^2`.
pub(crate) proof fn lemma_shifted_squares(
    x: real,
    y: real,
    z: real,
    bx: real,
    by: real,
    bz: real,
    f: real,
    bp: real,
    s: real,
)
    requires
        bp == x * bx + y * by + z * bz,
        s == bx * bx + by * by + bz * bz,
    ensures
        (bx * f + x) * (bx * f + x) + (by * f + y) * (by * f + y) + (bz * f + z) * (bz * f + z) == (
        x * x + y * y + z * z) + (2 as real) * f * bp + (f * f) * s,
{
    lemma_shifted_square(x, bx, f);
    lemma_shifted_square(y, by, f);
    lemma_shifted_square(z, bz, f);
    let ff = f * f;
    let xx = bx * bx;
    let yy = by * by;
    let zz = bz * bz;
    assert(xx * ff + yy * ff + zz * ff == ff * (xx + yy + zz)) by (nonlinear_arith);
    let g = (2 as real) * f;
    let px = x * bx;
    let py = y * by;
    let pz = z * bz;
    assert(g * px + g * py + g * pz == g * (px + py + pz)) by (nonlinear_arith);
}

/// Where `s c = s d` for a positive `s`, `c` is `d`.
pub(crate) proof fn lemma_cancel(s: real, c: real, d: real)
    requires
        s > 0 as real,
        s * c == s * d,
    ensures
        c == d,
{
    assert(s * (c - d) == s * c - s * d) by (nonlinear_arith);
    assert(c - d == 0 as real) by (nonlinear_arith)
        requires
            s > 0 as real,
            s * (c - d) == 0 as real,
    ;
}

/// The product `((gamma - 1) m + k) ((gamma + 1) m + k)` written out.
pub(crate) proof fn lemma_conjugate_product(gam: real, m: real, k: real)
    ensures
        ((gam - (1 as real)) * m + k) * ((gam + (1 as real)) * m + k) == (gam * gam - (1 as real))
            * (m * m) + ((2 as real) * gam) * (m * k) + k * k,
{
    let a = gam - (1 as real);
    let b = gam + (1 as real);
    let p = a * m;
    let q = b * m;
    assert((p + k) * (q + k) == p * q + (p + q) * k + k * k) by (nonlinear_arith);
    assert((a * m) * (b * m) == (a * b) * (m * m)) by (nonlinear_arith);
    assert((gam - (1 as real)) * (gam + (1 as real)) == gam * gam - (1 as real))
        by (nonlinear_arith);
    assert((gam - (1 as real)) * m + (gam + (1 as real)) * m == ((2 as real) * gam) * m)
        by (nonlinear_arith);
    assert((((2 as real) * gam) * m) * k == ((2 as real) * gam) * (m * k)) by (nonlinear_arith);
}

/// The heart of the boost: with `gamma^2 (1 - s) = 1` and
/// `gamma2 s = gamma - 1`, the square of the boosted time component less
/// what the shift by `f` adds to the squared length of the momentum is the
/// square of the time component.
pub(crate) proof fn lemma_boost_identity(
    t: real,
    bp: real,
    s: real,
    gam: real,
    gam2: real,
    f: real,
    tp: real,
)
    requires
        s > 0 as real,
        (gam * gam) * ((1 as real) - s) == 1 as real,
        gam2 * s == gam - (1 as real),
        f == gam2 * bp + gam * t,
        tp == gam * (t + bp),
    ensures
        tp * tp - ((2 as real) * f) * bp - (f * f) * s == t * t,
{
    let e = gam * gam;
    let k = (gam * t) * s;
    let tt = t * t;
    let tb = t * bp;
    let bb = bp * bp;
    // f s = (gamma - 1) bp + gamma t s
    let g = f * s;
    assert((gam2 * bp + gam * t) * s == (gam2 * s) * bp + (gam * t) * s) by (nonlinear_arith);
    assert(g == (gam - (1 as real)) * bp + k);
    // f s + 2 bp = (gamma + 1) bp + gamma t s
    let h = g + (2 as real) * bp;
    assert((gam - (1 as real)) * bp + (2 as real) * bp == (gam + (1 as real)) * bp)
        by (nonlinear_arith);
    assert(h == (gam + (1 as real)) * bp + k);
    // Their product, once through gamma and once through f.
    lemma_conjugate_product(gam, bp, k);
    assert(g * h == (e - (1 as real)) * bb + ((2 as real) * gam) * (bp * k) + k * k);
    assert(e * ((1 as real) - s) == e - e * s) by (nonlinear_arith);
    assert(e - (1 as real) == e * s);
    assert((e * s) * bb == s * (e * bb)) by (nonlinear_arith);
    assert(((2 as real) * gam) * (bp * ((gam * t) * s)) == s * ((2 as real) * ((gam * gam) * (t
        * bp)))) by (nonlinear_arith);
    assert(((gam * t) * s) * ((gam * t) * s) == s * ((gam * gam) * ((t * t) * s)))
        by (nonlinear_arith);
    let r1 = e * bb;
    let r2 = (2 as real) * (e * tb);
    let r3 = e * (tt * s);
    assert(s * r1 + s * r2 + s * r3 == s * (r1 + r2 + r3)) by (nonlinear_arith);
    assert(g * h == s * (r1 + r2 + r3));
    let left = (f * f) * s + ((2 as real) * f) * bp;
    assert((f * s) * (f * s + (2 as real) * bp) == s * ((f * f) * s + ((2 as real) * f) * bp))
        by (nonlinear_arith);
    assert(g * h == s * left);
    lemma_cancel(s, left, r1 + r2 + r3);
    // The boosted time component.
    assert((gam * (t + bp)) * (gam * (t + bp)) == (gam * gam) * (t * t) + (2 as real) * ((gam * gam)
        * (t * bp)) + (gam * gam) * (bp * bp)) by (nonlinear_arith);
    assert(tp * tp == e * tt + r2 + r1);
    assert(e * tt - e * (tt * s) == (e * ((1 as real) - s)) * tt) by (nonlinear_arith);
    assert((1 as real) * tt == tt) by (nonlinear_arith);
}

/// Three numbers whose squares add up to zero are zero.
pub(crate) proof fn lemma_no_length(x: real, y: real, z: real)
    requires
        x * x + y * y + z * z == 0 as real,
    ensures
        x == 0 as real,
        y == 0 as real,
        z == 0 as real,
{
    assert(x * x >= 0 as real) by (nonlinear_arith);
    assert(y * y >= 0 as real) by (nonlinear_arith);
    assert(z * z >= 0 as real) by (nonlinear_arith);
    assert(x == 0 as real) by (nonlinear_arith)
        requires
            x * x == 0 as real,
    ;
    assert(y == 0 as real) by (nonlinear_arith)
        requires
            y * y == 0 as real,
    ;
    assert(z == 0 as real) by (nonlinear_arith)
        requires
            z * z == 0 as real,
    ;
}

/// The Minkowski square after a boost, from the two identities of the
/// boost.
pub(crate) proof fn lemma_square_kept(
    t: real,
    x: real,
    y: real,
    z: real,
    bx: real,
    by: real,
    bz: real,
    s: real,
    bp: real,
    gam: real,
    gam2: real,
    tp: real,
    rx: real,
    ry: real,
    rz: real,
)
    requires
        s > 0 as real,
        s == bx * bx + by * by + bz * bz,
        bp == x * bx + y * by + z * bz,
        (gam * gam) * ((1 as real) - s) == 1 as real,
        gam2 * s == gam - (1 as real),
        tp == gam * (t + bp),
        rx == bx * (gam2 * bp + gam * t) + x,
        ry == by * (gam2 * bp + gam * t) + y,
        rz == bz * (gam2 * bp + gam * t) + z,
    ensures
        tp * tp - rx * rx - ry * ry - rz * rz == t * t - x * x - y * y - z * z,
{
    let f = gam2 * bp + gam * t;
    lemma_boost_identity(t, bp, s, gam, gam2, f, tp);
    lemma_shifted_squares(x, y, z, bx, by, bz, f, bp, s);
}

/// The unit vector `n = d / |d|` of a difference `d` that is not zero has
/// the length one. The inverse of `|d|` is `i`.
pub(crate) proof fn lemma_unit_length(
    dx: real,
    dy: real,
    dz: real,
    d: real,
    i: real,
    nx: real,
    ny: real,
    nz: real,
)
    requires
        i * d == 1 as real,
        d * d == dx * dx + dy * dy + dz * dz,
        nx == dx * i,
        ny == dy * i,
        nz == dz * i,
    ensures
        nx * nx + ny * ny + nz * nz == 1 as real,
{
    let ii = i * i;
    let xx = dx * dx;
    let yy = dy * dy;
    let zz = dz * dz;
    assert((dx * i) * (dx * i) == (i * i) * (dx * dx)) by (nonlinear_arith);
    assert((dy * i) * (dy * i) == (i * i) * (dy * dy)) by (nonlinear_arith);
    assert((dz * i) * (dz * i) == (i * i) * (dz * dz)) by (nonlinear_arith);
    assert(ii * xx + ii * yy + ii * zz == ii * (xx + yy + zz)) by (nonlinear_arith);
    assert((i * i) * (d * d) == (i * d) * (i * d)) by (nonlinear_arith);
    assert((1 as real) * (1 as real) == 1 as real) by (nonlinear_arith);
}

/// The product of two numbers that are not zero is not zero.
pub(crate) proof fn lemma_product_not_zero(a: real, b: real)
    requires
        a != 0 as real,
        b != 0 as real,
    ensures
        a * b != 0 as real,
{
    assert(a * b != 0 as real) by (nonlinear_arith)
        requires
            a != 0 as real,
            b != 0 as real,
    ;
}

/// The ratios of the light-cone components of two vectors whose products
/// of components are the same have the product one.
pub(crate) proof fn lemma_ratio_product(a: real, b: real, pm: real, pp: real, qm: real, qp: real)
    requires
        a * pm == qm,
        b * pp == qp,
        qp * qm == pp * pm,
        pm != 0 as real,
        pp != 0 as real,
    ensures
        a * b == 1 as real,
{
    let k = pp * pm;
    let c = a * b;
    lemma_product_not_zero(pp, pm);
    assert((b * pp) * (a * pm) == (a * b) * (pp * pm)) by (nonlinear_arith);
    assert(c * k == k);
    assert((c - (1 as real)) * k == c * k - k) by (nonlinear_arith);
    assert(c - (1 as real) == 0 as real) by (nonlinear_arith)
        requires
            k != 0 as real,
            (c - (1 as real)) * k == 0 as real,
    ;
}

/// The product of the two light-cone components `t + n` and `t - n`.
pub(crate) proof fn lemma_light_cone_product(t: real, n: real)
    ensures
        (t + n) * (t - n) == t * t - n * n,
{
    assert((t + n) * (t - n) == t * t - n * n) by (nonlinear_arith);
}

/// The square of a sum.
pub(crate) proof fn lemma_square_of_sum(a: real, b: real)
    ensures
        (a + b) * (a + b) == a * a + ((2 as real) * b) * a + b * b,
{
    assert((a + b) * (a + b) == a * a + ((2 as real) * b) * a + b * b) by (nonlinear_arith);
}

/// Two vectors of the same Minkowski square that differ by `d n` in
/// position, for a unit vector `n`, have the same product of light-cone
/// components for the direction `n`.
pub(crate) proof fn lemma_same_light_cone_product(
    pt: real,
    px: real,
    py: real,
    pz: real,
    qt: real,
    qx: real,
    qy: real,
    qz: real,
    nx: real,
    ny: real,
    nz: real,
    d: real,
)
    requires
        nx * nx + ny * ny + nz * nz == 1 as real,
        nx * d == qx - px,
        ny * d == qy - py,
        nz * d == qz - pz,
        qt * qt - qx * qx - qy * qy - qz * qz == pt * pt - px * px - py * py - pz * pz,
    ensures
        qt * qt - (nx * px + ny * py + nz * pz + d) * (nx * px + ny * py + nz * pz + d) == pt * pt
            - (nx * px + ny * py + nz * pz) * (nx * px + ny * py + nz * pz),
{
    let np = nx * px + ny * py + nz * pz;
    let s = nx * nx + ny * ny + nz * nz;
    let bp = px * nx + py * ny + pz * nz;
    assert(px * nx == nx * px) by (nonlinear_arith);
    assert(py * ny == ny * py) by (nonlinear_arith);
    assert(pz * nz == nz * pz) by (nonlinear_arith);
    lemma_shifted_squares(px, py, pz, nx, ny, nz, d, bp, s);
    assert(qx == nx * d + px);
    assert(qy == ny * d + py);
    assert(qz == nz * d + pz);
    assert((d * d) * s == d * d) by (nonlinear_arith)
        requires
            s == 1 as real,
    ;
    lemma_square_of_sum(np, d);
}

/// A component of a light-cone direction scaled by `k`, halved and scaled
/// by `m` is half of the component times `k m`.
pub(crate) proof fn lemma_offset_scaled(w: real, k: real, h: real, m: real, r: real)
    requires
        h * (2 as real) == 1 as real,
        r == ((w * k) * h) * m,
    ensures
        (2 as real) * r == w * (k * m),
{
    assert(((w * k) * h) * m == h * (w * (k * m))) by (nonlinear_arith);
    assert((2 as real) * (h * (w * (k * m))) == (h * (2 as real)) * (w * (k * m)))
        by (nonlinear_arith);
    assert((h * (2 as real)) * (w * (k * m)) == w * (k * m)) by (nonlinear_arith)
        requires
            h * (2 as real) == 1 as real,
    ;
}

/// Half of `n g` is `n` times half of `g`.
pub(crate) proof fn lemma_half(n: real, g: real, r: real, half: real)
    requires
        (2 as real) * r == n * g,
        (2 as real) * half == g,
    ensures
        r == n * half,
{
    assert(n * ((2 as real) * half) == (2 as real) * (n * half)) by (nonlinear_arith);
}

/// What the light-cone offsets `beta (1, n) + alpha (1, -n)` add to the
/// Minkowski square of a vector, for a unit vector `n`: the time component
/// grows by `beta + alpha`, the position by `(beta - alpha) n`, and the
/// square by `2 beta (t - n . v) + 2 alpha (t + n . v) + 4 alpha beta`.
pub(crate) proof fn lemma_offsets_in_square(
    t: real,
    nv: real,
    beta: real,
    alpha: real,
    rt: real,
    shifted: real,
    length: real,
)
    requires
        rt == t + beta + alpha,
        shifted == length + ((2 as real) * (beta - alpha)) * nv + ((beta - alpha) * (beta - alpha))
            * (1 as real),
    ensures
        rt * rt - shifted == t * t - length + ((2 as real) * beta) * (t - nv) + ((2 as real)
            * alpha) * (t + nv) + ((2 as real) * alpha) * ((2 as real) * beta),
{
    let f = beta - alpha;
    let g = beta + alpha;
    lemma_square_of_sum(t, g);
    assert((f * f) * (1 as real) == f * f) by (nonlinear_arith);
    assert((beta + alpha) * (beta + alpha) - (beta - alpha) * (beta - alpha) == ((2 as real)
        * alpha) * ((2 as real) * beta)) by (nonlinear_arith);
    assert(((2 as real) * (beta + alpha)) * t - ((2 as real) * (beta - alpha)) * nv == ((2 as real)
        * beta) * (t - nv) + ((2 as real) * alpha) * (t + nv)) by (nonlinear_arith);
}

/// The growth of the Minkowski square under the light-cone offsets is
/// `P M (a b - 1)` for the light-cone components `P`, `M` and the ratios
/// `a`, `b`, and so vanishes where `a b` is one.
pub(crate) proof fn lemma_growth_vanishes(a: real, b: real, p: real, m: real)
    requires
        a * b == 1 as real,
    ensures
        ((b - (1 as real)) * p) * m + ((a - (1 as real)) * m) * p + ((a - (1 as real)) * m) * ((b
            - (1 as real)) * p) == 0 as real,
{
    let u = b - (1 as real);
    let w = a - (1 as real);
    let k = p * m;
    assert((u * p) * m == k * u) by (nonlinear_arith)
        requires
            k == p * m,
    ;
    assert((w * m) * p == k * w) by (nonlinear_arith)
        requires
            k == p * m,
    ;
    assert((w * m) * (u * p) == k * (w * u)) by (nonlinear_arith)
        requires
            k == p * m,
    ;
    assert(k * u + k * w + k * (w * u) == k * (u + w + w * u)) by (nonlinear_arith);
    assert((b - (1 as real)) + (a - (1 as real)) + (a - (1 as real)) * (b - (1 as real)) == a * b
        - (1 as real)) by (nonlinear_arith);
    assert(k * (0 as real) == 0 as real) by (nonlinear_arith);
}

/// A component of a vector with its two light-cone offsets `n beta` and
/// `-n alpha` is the component shifted by `n (beta - alpha)`.
pub(crate) proof fn lemma_offset_difference(c: real, n: real, beta: real, alpha: real)
    ensures
        c + n * beta + (-n) * alpha == n * (beta - alpha) + c,
{
    assert(n * (beta - alpha) == n * beta + (-n) * alpha) by (nonlinear_arith);
}

/// The product of a momentum with a direction does not depend on the
/// order of the factors.
pub(crate) proof fn lemma_dot_commutes(x: real, y: real, z: real, nx: real, ny: real, nz: real)
    ensures
        x * nx + y * ny + z * nz == nx * x + ny * y + nz * z,
{
    assert(x * nx == nx * x) by (nonlinear_arith);
    assert(y * ny == ny * y) by (nonlinear_arith);
    assert(z * nz == nz * z) by (nonlinear_arith);
}

/// The Minkowski square of a vector with its two light-cone offsets, for
/// a unit vector `n` and ratios `a`, `b` of product one, is the Minkowski
/// square of the vector.
pub(crate) proof fn lemma_image_square(
    t: real,
    x: real,
    y: real,
    z: real,
    nx: real,
    ny: real,
    nz: real,
    a: real,
    b: real,
    p: real,
    m: real,
    beta: real,
    alpha: real,
    rt: real,
    rx: real,
    ry: real,
    rz: real,
)
    requires
        nx * nx + ny * ny + nz * nz == 1 as real,
        a * b == 1 as real,
        p == t + (nx * x + ny * y + nz * z),
        m == t - (nx * x + ny * y + nz * z),
        (2 as real) * beta == (b - (1 as real)) * p,
        (2 as real) * alpha == (a - (1 as real)) * m,
        rt == t + beta + alpha,
        rx == x + nx * beta + (-nx) * alpha,
        ry == y + ny * beta + (-ny) * alpha,
        rz == z + nz * beta + (-nz) * alpha,
    ensures
        rt * rt - rx * rx - ry * ry - rz * rz == t * t - x * x - y * y - z * z,
{
    let f = beta - alpha;
    let nv = nx * x + ny * y + nz * z;
    let bp = x * nx + y * ny + z * nz;
    let s = nx * nx + ny * ny + nz * nz;
    lemma_offset_difference(x, nx, beta, alpha);
    lemma_offset_difference(y, ny, beta, alpha);
    lemma_offset_difference(z, nz, beta, alpha);
    lemma_dot_commutes(x, y, z, nx, ny, nz);
    lemma_shifted_squares(x, y, z, nx, ny, nz, f, bp, s);
    let shifted = rx * rx + ry * ry + rz * rz;
    let length = x * x + y * y + z * z;
    lemma_offsets_in_square(t, nv, beta, alpha, rt, shifted, length);
    lemma_growth_vanishes(a, b, p, m);
}

/// The ratios of the light-cone components of two vectors of the same
/// Minkowski square, for the unit direction `n` from one to the other, have
/// the product one.
pub(crate) proof fn lemma_equal_mass_ratios(
    pt: real,
    px: real,
    py: real,
    pz: real,
    qt: real,
    qx: real,
    qy: real,
    qz: real,
    nx: real,
    ny: real,
    nz: real,
    d: real,
    pp: real,
    pm: real,
    qp: real,
    qm: real,
    a: real,
    b: real,
)
    requires
        nx * nx + ny * ny + nz * nz == 1 as real,
        nx * d == qx - px,
        ny * d == qy - py,
        nz * d == qz - pz,
        nx * (qx - px) + ny * (qy - py) + nz * (qz - pz) == d,
        pp == pt + (nx * px + ny * py + nz * pz),
        pm == pt - (nx * px + ny * py + nz * pz),
        qp == qt + (nx * qx + ny * qy + nz * qz),
        qm == qt - (nx * qx + ny * qy + nz * qz),
        pp != 0 as real,
        pm != 0 as real,
        a * pm == qm,
        b * pp == qp,
        qt * qt - qx * qx - qy * qy - qz * qz == pt * pt - px * px - py * py - pz * pz,
    ensures
        a * b == 1 as real,
{
    let np = nx * px + ny * py + nz * pz;
    let nq = nx * qx + ny * qy + nz * qz;
    lemma_product_of_difference(nx, ny, nz, px, py, pz, qx, qy, qz);
    assert(nq == np + d);
    lemma_same_light_cone_product(pt, px, py, pz, qt, qx, qy, qz, nx, ny, nz, d);
    lemma_light_cone_product(qt, nq);
    lemma_light_cone_product(pt, np);
    assert(qp * qm == pp * pm);
    lemma_ratio_product(a, b, pm, pp, qm, qp);
}

/// A component scaled by a ratio less one has grown by the difference of
/// the scaled component and itself.
pub(crate) proof fn lemma_ratio_growth(ratio: real, c: real)
    ensures
        (ratio - (1 as real)) * c == ratio * c - c,
{
    assert((ratio - (1 as real)) * c == ratio * c - c) by (nonlinear_arith);
}

/// Two numbers that are not negative and have the same square are the
/// same.
pub(crate) proof fn lemma_same_root(u: real, w: real)
    requires
        u >= 0 as real,
        w >= 0 as real,
        u * u == w * w,
    ensures
        u == w,
{
    assert((u - w) * (u + w) == u * u - w * w) by (nonlinear_arith);
    if u + w == 0 as real {
        assert(u == 0 as real);
        assert(w == 0 as real);
    } else {
        assert(u - w == 0 as real) by (nonlinear_arith)
            requires
                u + w != 0 as real,
                (u - w) * (u + w) == 0 as real,
        ;
    }
}

/// The transverse momenta and the cosine of the azimuthal separation of
/// two vectors whose transverse parts are multiples of each other: `b` is
/// `k a` across the axis, `m` is the magnitude of `k`. Both transverse
/// momenta are positive, and the cosine times `m` is `k`.
pub(crate) proof fn lemma_aligned_cosine(
    ax: real,
    ay: real,
    k: real,
    m: real,
    bx: real,
    by: real,
    pt1: real,
    pt2: real,
    c: real,
)
    requires
        m > 0 as real,
        m * m == k * k,
        bx == k * ax,
        by == k * ay,
        ax != 0 as real || ay != 0 as real,
        pt1 >= 0 as real,
        pt1 * pt1 == ax * ax + ay * ay,
        pt2 >= 0 as real,
        pt2 * pt2 == bx * bx + by * by,
        pt1 * pt2 != 0 as real ==> c * (pt1 * pt2) == ax * bx + ay * by,
    ensures
        pt1 > 0 as real,
        pt2 > 0 as real,
        c * m == k,
{
    let s1 = ax * ax + ay * ay;
    assert(ax * ax >= 0 as real) by (nonlinear_arith);
    assert(ay * ay >= 0 as real) by (nonlinear_arith);
    assert(ax != 0 as real ==> ax * ax > 0 as real) by (nonlinear_arith);
    assert(ay != 0 as real ==> ay * ay > 0 as real) by (nonlinear_arith);
    assert(s1 > 0 as real);
    assert(pt1 != 0 as real) by {
        if pt1 == 0 as real {
            assert(pt1 * pt1 == 0 as real) by (nonlinear_arith)
                requires
                    pt1 == 0 as real,
            ;
        }
    }
    // The second transverse momentum is m times the first.
    assert((k * ax) * (k * ax) == (k * k) * (ax * ax)) by (nonlinear_arith);
    assert((k * ay) * (k * ay) == (k * k) * (ay * ay)) by (nonlinear_arith);
    let kk = k * k;
    let xx = ax * ax;
    let yy = ay * ay;
    assert(kk * xx + kk * yy == kk * (xx + yy)) by (nonlinear_arith);
    assert((m * pt1) * (m * pt1) == (m * m) * (pt1 * pt1)) by (nonlinear_arith);
    assert(m * pt1 > 0 as real) by (nonlinear_arith)
        requires
            m > 0 as real,
            pt1 > 0 as real,
    ;
    lemma_same_root(pt2, m * pt1);
    // The cosine.
    assert(ax * (k * ax) + ay * (k * ay) == k * (ax * ax + ay * ay)) by (nonlinear_arith);
    assert(pt1 * (m * pt1) == m * (pt1 * pt1)) by (nonlinear_arith);
    let den = m * s1;
    assert(den > 0 as real) by (nonlinear_arith)
        requires
            den == m * s1,
            m > 0 as real,
            s1 > 0 as real,
    ;
    assert(c * den == k * s1);
    assert(c * (m * s1) == (c * m) * s1) by (nonlinear_arith);
    assert((c * m) * s1 - k * s1 == (c * m - k) * s1) by (nonlinear_arith);
    assert(c * m - k == 0 as real) by (nonlinear_arith)
        requires
            s1 > 0 as real,
            (c * m - k) * s1 == 0 as real,
    ;
}

/// A number whose product with a positive `k` is `k` is one, and a number
/// whose product with `-k`, for a negative `k`, is `k` is minus one.
pub(crate) proof fn lemma_sign(c: real, k: real)
    ensures
        k > 0 as real && c * k == k ==> c == 1 as real,
        k < 0 as real && c * (-k) == k ==> c == -(1 as real),
{
    assert(c * k - k == (c - (1 as real)) * k) by (nonlinear_arith);
    assert(c * (-k) - k == (c + (1 as real)) * (-k)) by (nonlinear_arith);
    if k > 0 as real && c * k == k {
        assert(c - (1 as real) == 0 as real) by (nonlinear_arith)
            requires
                k > 0 as real,
                (c - (1 as real)) * k == 0 as real,
        ;
    }
    if k < 0 as real && c * (-k) == k {
        assert(c + (1 as real) == 0 as real) by (nonlinear_arith)
            requires
                k < 0 as real,
                (c + (1 as real)) * (-k) == 0 as real,
        ;
    }
}

/// The square of a number is the square of its negative.
pub(crate) proof fn lemma_square_of_negative(k: real)
    ensures
        (-k) * (-k) == k * k,
{
    assert((-k) * (-k) == k * k) by (nonlinear_arith);
}

} // verus!
