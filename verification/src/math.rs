use vstd::prelude::*;

verus! {

// The renderer computes with IEEE single-precision values, which the
// verifier has no theory for.  Every primitive arithmetic step is therefore
// performed by an outside call behind a trusted wrapper, and named by an
// uninterpreted spec function: each primitive is a pure, deterministic
// function of its operands' bit patterns, so the names pin every result
// down, and all control flow built on top of them is verified exactly,
// relative to that model.
//
// A scalar is carried as a `glam::Vec3` with the same value in all three
// lanes, so the componentwise vector operations double as the scalar ones
// (this is also exactly what `f32 * Vec3` does inside glam).

#[verifier::external_type_specification]
#[verifier::external_body]
pub struct ExVec3(glam::Vec3);

/// Componentwise IEEE sum of two vectors.
pub uninterp spec fn v3_add(a: glam::Vec3, b: glam::Vec3) -> glam::Vec3;

/// Componentwise IEEE difference of two vectors.
pub uninterp spec fn v3_sub(a: glam::Vec3, b: glam::Vec3) -> glam::Vec3;

/// Componentwise IEEE product of two vectors.
pub uninterp spec fn v3_mul(a: glam::Vec3, b: glam::Vec3) -> glam::Vec3;

/// Componentwise IEEE quotient of two vectors.
pub uninterp spec fn v3_div(a: glam::Vec3, b: glam::Vec3) -> glam::Vec3;

/// Componentwise IEEE negation of a vector.
pub uninterp spec fn v3_neg(a: glam::Vec3) -> glam::Vec3;

/// The IEEE dot product of two vectors, splatted across all three lanes.
pub uninterp spec fn v3_dot(a: glam::Vec3, b: glam::Vec3) -> glam::Vec3;

/// The IEEE cross product of two vectors.
pub uninterp spec fn v3_cross(a: glam::Vec3, b: glam::Vec3) -> glam::Vec3;

/// The vector whose lanes are the given splatted lane values.
pub uninterp spec fn v3_of(x: glam::Vec3, y: glam::Vec3, z: glam::Vec3) -> glam::Vec3;

/// The x lane of a vector, splatted.
pub uninterp spec fn v3_x(a: glam::Vec3) -> glam::Vec3;

/// The y lane of a vector, splatted.
pub uninterp spec fn v3_y(a: glam::Vec3) -> glam::Vec3;

/// The z lane of a vector, splatted.
pub uninterp spec fn v3_z(a: glam::Vec3) -> glam::Vec3;

/// Whether every component of `a` is within `eps` of the matching
/// component of `b`.
pub uninterp spec fn v3_abs_diff_eq(a: glam::Vec3, b: glam::Vec3, eps: glam::Vec3) -> bool;

/// The IEEE square root of a splatted scalar, splatted.
pub uninterp spec fn s_sqrt(a: glam::Vec3) -> glam::Vec3;

/// The IEEE absolute value of a splatted scalar, splatted.
pub uninterp spec fn s_abs(a: glam::Vec3) -> glam::Vec3;

/// The first splatted scalar when it is strictly below the second, else
/// the second (so the second on equal or unordered operands).
pub uninterp spec fn s_min(a: glam::Vec3, b: glam::Vec3) -> glam::Vec3;

/// Whether the first splatted scalar is strictly below the second
/// (false when they are unordered).
pub uninterp spec fn s_lt(a: glam::Vec3, b: glam::Vec3) -> bool;

/// The splatted single-precision value nearest to the given integer.
pub uninterp spec fn i_to_s(n: int) -> glam::Vec3;

/// The given splatted scalar truncated towards zero and saturated to the
/// 32-bit signed range.
pub uninterp spec fn s_trunc(a: glam::Vec3) -> int;

/// Relies on glam's componentwise `Add for Vec3`.
#[verifier::external_body]
pub fn vadd(a: glam::Vec3, b: glam::Vec3) -> (r: glam::Vec3)
    ensures
        r == v3_add(a, b),
{
    a + b
}

/// Relies on glam's componentwise `Sub for Vec3`.
#[verifier::external_body]
pub fn vsub(a: glam::Vec3, b: glam::Vec3) -> (r: glam::Vec3)
    ensures
        r == v3_sub(a, b),
{
    a - b
}

/// Relies on glam's componentwise `Mul for Vec3`.
#[verifier::external_body]
pub fn vmul(a: glam::Vec3, b: glam::Vec3) -> (r: glam::Vec3)
    ensures
        r == v3_mul(a, b),
{
    a * b
}

/// Relies on glam's componentwise `Div for Vec3`.
#[verifier::external_body]
pub fn vdiv(a: glam::Vec3, b: glam::Vec3) -> (r: glam::Vec3)
    ensures
        r == v3_div(a, b),
{
    a / b
}

/// Relies on glam's componentwise `Neg for Vec3`.
#[verifier::external_body]
pub fn vneg(a: glam::Vec3) -> (r: glam::Vec3)
    ensures
        r == v3_neg(a),
{
    -a
}

/// Relies on `glam::Vec3::dot_into_vec`, the dot product splatted into
/// every lane.
#[verifier::external_body]
pub fn vdot(a: glam::Vec3, b: glam::Vec3) -> (r: glam::Vec3)
    ensures
        r == v3_dot(a, b),
{
    glam::Vec3::dot_into_vec(a, b)
}

/// Relies on `glam::Vec3::cross`.
#[verifier::external_body]
pub fn vcross(a: glam::Vec3, b: glam::Vec3) -> (r: glam::Vec3)
    ensures
        r == v3_cross(a, b),
{
    a.cross(b)
}

/// Relies on `glam::Vec3::new`, taking one lane from each splatted argument.
#[verifier::external_body]
pub fn vnew(x: glam::Vec3, y: glam::Vec3, z: glam::Vec3) -> (r: glam::Vec3)
    ensures
        r == v3_of(x, y, z),
{
    glam::Vec3::new(x.to_array()[0], y.to_array()[0], z.to_array()[0])
}

/// Relies on `glam::Vec3::splat` and `to_array` to splat the x lane.
#[verifier::external_body]
pub fn vx(a: glam::Vec3) -> (r: glam::Vec3)
    ensures
        r == v3_x(a),
{
    glam::Vec3::splat(a.to_array()[0])
}

/// Relies on `glam::Vec3::splat` and `to_array` to splat the y lane.
#[verifier::external_body]
pub fn vy(a: glam::Vec3) -> (r: glam::Vec3)
    ensures
        r == v3_y(a),
{
    glam::Vec3::splat(a.to_array()[1])
}

/// Relies on `glam::Vec3::splat` and `to_array` to splat the z lane.
#[verifier::external_body]
pub fn vz(a: glam::Vec3) -> (r: glam::Vec3)
    ensures
        r == v3_z(a),
{
    glam::Vec3::splat(a.to_array()[2])
}

/// Relies on `glam::Vec3::abs_diff_eq`, a componentwise comparison of
/// absolute differences against a tolerance.
#[verifier::external_body]
pub fn vabs_diff_eq(a: glam::Vec3, b: glam::Vec3, eps: glam::Vec3) -> (r: bool)
    ensures
        r == v3_abs_diff_eq(a, b, eps),
{
    a.abs_diff_eq(b, eps.to_array()[0])
}

/// A single-precision scalar, carried splatted over all three lanes of a
/// vector.
///
/// The operations of this module keep the lanes equal and only ever read
/// one of them, so any lane stands for the value.
#[derive(Clone, Copy)]
pub struct Scalar {
    pub rep: glam::Vec3,
}

/// Relies on `f32::sqrt` of std, which rounds exactly.
#[verifier::external_body]
pub fn ssqrt(a: Scalar) -> (r: Scalar)
    ensures
        r.rep == s_sqrt(a.rep),
{
    Scalar { rep: glam::Vec3::splat(a.rep.to_array()[0].sqrt()) }
}

/// Relies on `f32::abs` of std.
#[verifier::external_body]
pub fn sabs(a: Scalar) -> (r: Scalar)
    ensures
        r.rep == s_abs(a.rep),
{
    Scalar { rep: glam::Vec3::splat(a.rep.to_array()[0].abs()) }
}

/// Relies on glam's `Vec3::min`, a componentwise comparison chain
/// (`if a < b { a } else { b }`), which is a deterministic function of
/// the operands' bit patterns — unlike `f32::min` of std, which leaves
/// the choice between equal-comparing operands open.
#[verifier::external_body]
pub fn smin(a: Scalar, b: Scalar) -> (r: Scalar)
    ensures
        r.rep == s_min(a.rep, b.rep),
{
    Scalar { rep: a.rep.min(b.rep) }
}

/// Relies on `f32::tan` of std.  The result depends on the platform's
/// libm, so no name pins it down: callers state what they build from
/// whatever value came back.
#[verifier::external_body]
pub fn stan(a: Scalar) -> (r: Scalar) {
    Scalar { rep: glam::Vec3::splat(a.rep.to_array()[0].tan()) }
}

/// Relies on the `<` operator of std on single-precision values.
#[verifier::external_body]
pub fn slt(a: Scalar, b: Scalar) -> (r: bool)
    ensures
        r == s_lt(a.rep, b.rep),
{
    a.rep.to_array()[0] < b.rep.to_array()[0]
}

/// Relies on `glam::IVec3::as_vec3`, the integer-to-float cast splatted.
#[verifier::external_body]
pub fn s_of_i32(n: i32) -> (r: Scalar)
    ensures
        r.rep == i_to_s(n as int),
{
    Scalar { rep: glam::IVec3::splat(n).as_vec3() }
}

/// Relies on the saturating `as i32` cast of std on a single-precision
/// value, which truncates towards zero.
#[verifier::external_body]
pub fn s_to_i32(a: Scalar) -> (r: i32)
    ensures
        r as int == s_trunc(a.rep),
{
    a.rep.to_array()[0] as i32
}

impl Scalar {
    /// The scalar nearest to the given integer.
    pub fn of(n: i32) -> (r: Scalar)
        ensures
            r.rep == i_to_s(n as int),
    {
        s_of_i32(n)
    }

    /// The scalar nearest to `n / d`; exact whenever `n / d` is a dyadic
    /// rational that two single-precision values represent.
    pub fn ratio(n: i32, d: i32) -> (r: Scalar)
        ensures
            r.rep == v3_div(i_to_s(n as int), i_to_s(d as int)),
    {
        vdiv_s(s_of_i32(n), s_of_i32(d))
    }
}

/// Scalar sum, through the splatted lanes.
pub fn vadd_s(a: Scalar, b: Scalar) -> (r: Scalar)
    ensures
        r.rep == v3_add(a.rep, b.rep),
{
    Scalar { rep: vadd(a.rep, b.rep) }
}

/// Scalar difference, through the splatted lanes.
pub fn vsub_s(a: Scalar, b: Scalar) -> (r: Scalar)
    ensures
        r.rep == v3_sub(a.rep, b.rep),
{
    Scalar { rep: vsub(a.rep, b.rep) }
}

/// Scalar product, through the splatted lanes.
pub fn vmul_s(a: Scalar, b: Scalar) -> (r: Scalar)
    ensures
        r.rep == v3_mul(a.rep, b.rep),
{
    Scalar { rep: vmul(a.rep, b.rep) }
}

/// Scalar quotient, through the splatted lanes.
pub fn vdiv_s(a: Scalar, b: Scalar) -> (r: Scalar)
    ensures
        r.rep == v3_div(a.rep, b.rep),
{
    Scalar { rep: vdiv(a.rep, b.rep) }
}

/// Scalar negation, through the splatted lanes.
pub fn vneg_s(a: Scalar) -> (r: Scalar)
    ensures
        r.rep == v3_neg(a.rep),
{
    Scalar { rep: vneg(a.rep) }
}

/// The model of `v * s`, a vector scaled by a splatted scalar.
pub open spec fn scale_spec(v: glam::Vec3, s: glam::Vec3) -> glam::Vec3 {
    v3_mul(v, s)
}

/// A vector scaled by a scalar.
pub fn scale(v: glam::Vec3, s: Scalar) -> (r: glam::Vec3)
    ensures
        r == scale_spec(v, s.rep),
{
    vmul(v, s.rep)
}

/// One half.
pub open spec fn half_spec() -> glam::Vec3 {
    v3_div(i_to_s(1), i_to_s(2))
}

/// One half.
pub fn half() -> (r: Scalar)
    ensures
        r.rep == half_spec(),
{
    Scalar::ratio(1, 2)
}

/// The zero vector.
pub open spec fn zero_vec_spec() -> glam::Vec3 {
    v3_of(i_to_s(0), i_to_s(0), i_to_s(0))
}

/// The zero vector.
pub fn zero_vec() -> (r: glam::Vec3)
    ensures
        r == zero_vec_spec(),
{
    let z = Scalar::of(0);
    vnew(z.rep, z.rep, z.rep)
}

/// The all-ones vector.
pub open spec fn one_vec_spec() -> glam::Vec3 {
    v3_of(i_to_s(1), i_to_s(1), i_to_s(1))
}

/// The all-ones vector.
pub fn one_vec() -> (r: glam::Vec3)
    ensures
        r == one_vec_spec(),
{
    let o = Scalar::of(1);
    vnew(o.rep, o.rep, o.rep)
}

/// The model of glam's `Vec3::normalize`: the vector scaled by the
/// reciprocal of its own length.
pub open spec fn normalize_spec(v: glam::Vec3) -> glam::Vec3 {
    v3_mul(v, v3_div(i_to_s(1), s_sqrt(v3_dot(v, v))))
}

/// The vector scaled to unit length, computed as glam computes it.
pub fn normalize(v: glam::Vec3) -> (r: glam::Vec3)
    ensures
        r == normalize_spec(v),
{
    let len = ssqrt(Scalar { rep: vdot(v, v) });
    let recip = vdiv_s(Scalar::of(1), len);
    scale(v, recip)
}

} // verus!
