//! Scalar, vector, quaternion and matrix values carried as the bit images of
//! 32-bit IEEE-754 numbers, together with the trusted arithmetic layer.
//!
//! The engine's state is made of real-number scalars, but verified code never
//! manipulates real arithmetic directly: every scalar lives in a `u32` holding
//! the bit pattern of the corresponding 32-bit IEEE-754 value, and every
//! arithmetic step goes through one of the wrappers below. Each wrapper makes
//! exactly one call into `glam` (or a documented `std` float method), converts
//! its arguments and result between words and float values with `bytemuck`
//! casts, and states its result through an uninterpreted name: the same words
//! in give the same words out, which is all the rest of the library relies on.

use vstd::prelude::*;

verus! {

/// The word of `1.0_f32`.
pub const ONE_F32: u32 = 0x3f80_0000;

/// The word of `2.0_f32`.
pub const TWO_F32: u32 = 0x4000_0000;

/// The word of `0.5_f32`.
pub const HALF_F32: u32 = 0x3f00_0000;

/// The word of `1000.0_f32`.
pub const THOUSAND_F32: u32 = 0x447a_0000;

/// The word of `180.0_f32`.
pub const DEG_180_F32: u32 = 0x4334_0000;

/// The word of `core::f32::consts::PI`.
pub const PI_F32: u32 = 0x4049_0fdb;

/// The word of `f32::EPSILON`.
pub const EPSILON_F32: u32 = 0x3400_0000;

/// A three-component vector of scalar words.
#[derive(Clone, Copy, Debug, PartialEq, Eq, Structural)]
pub struct Vec3 {
    pub x: u32,
    pub y: u32,
    pub z: u32,
}

/// A quaternion of scalar words, in x, y, z, w order.
#[derive(Clone, Copy, Debug, PartialEq, Eq, Structural)]
pub struct Quat {
    pub x: u32,
    pub y: u32,
    pub z: u32,
    pub w: u32,
}

impl Vec3 {
    /// The vector's scalar words as a sequence, in x, y, z order.
    pub open spec fn bits(self) -> Seq<u32> {
        seq![self.x, self.y, self.z]
    }

    pub fn new(x: u32, y: u32, z: u32) -> (r: Vec3)
        ensures
            r == (Vec3 { x, y, z }),
    {
        Vec3 { x, y, z }
    }

    /// The zero vector: every component is the word of `+0.0`.
    pub fn zero() -> (r: Vec3)
        ensures
            r == (Vec3 { x: 0u32, y: 0u32, z: 0u32 }),
    {
        Vec3 { x: 0, y: 0, z: 0 }
    }
}

impl Quat {
    /// The quaternion's scalar words as a sequence, in x, y, z, w order.
    pub open spec fn bits(self) -> Seq<u32> {
        seq![self.x, self.y, self.z, self.w]
    }
}

/// The vector holding the first three words of `s`.
pub open spec fn vec3_of(s: Seq<u32>) -> Vec3 {
    Vec3 { x: s[0], y: s[1], z: s[2] }
}

/// The quaternion holding the first four words of `s`.
pub open spec fn quat_of(s: Seq<u32>) -> Quat {
    Quat { x: s[0], y: s[1], z: s[2], w: s[3] }
}

// ---------------------------------------------------------------------------
// Struct-level forms of the named results: these are what contracts compose.
// ---------------------------------------------------------------------------

/// The componentwise sum of the two vectors.
pub open spec fn vadd3(a: Vec3, b: Vec3) -> Vec3 {
    vec3_of(vadd_bits(a.bits(), b.bits()))
}

/// The componentwise product of the two vectors.
pub open spec fn vmul3(a: Vec3, b: Vec3) -> Vec3 {
    vec3_of(vmul_bits(a.bits(), b.bits()))
}

/// The componentwise negation of the vector.
pub open spec fn vneg3(a: Vec3) -> Vec3 {
    vec3_of(vneg_bits(a.bits()))
}

/// The cross product of the two vectors.
pub open spec fn vcross3(a: Vec3, b: Vec3) -> Vec3 {
    vec3_of(vcross_bits(a.bits(), b.bits()))
}

/// The vector scaled to unit length.
pub open spec fn vnormalize3(a: Vec3) -> Vec3 {
    vec3_of(vnormalize_bits(a.bits()))
}

/// The vector rotated by the quaternion.
pub open spec fn qrot3(q: Quat, v: Vec3) -> Vec3 {
    vec3_of(quat_rotate_bits(q.bits(), v.bits()))
}

/// The rotation built from three angles in intrinsic Z-Y-X order.
pub open spec fn qeuler_zyx(a: u32, b: u32, c: u32) -> Quat {
    quat_of(quat_from_euler_zyx_bits(a, b, c))
}

/// The rotation of `angle` radians about `axis`.
pub open spec fn qaxis_angle(axis: Vec3, angle: u32) -> Quat {
    quat_of(quat_from_axis_angle_bits(axis.bits(), angle))
}

// ---------------------------------------------------------------------------
// Uninterpreted names for the results of the outside arithmetic. Each is the
// result of one `glam` or `std` floating-point operation on the words given,
// which depends on those words alone.
// ---------------------------------------------------------------------------

pub uninterp spec fn vadd_bits(a: Seq<u32>, b: Seq<u32>) -> Seq<u32>;

pub uninterp spec fn vmul_bits(a: Seq<u32>, b: Seq<u32>) -> Seq<u32>;

pub uninterp spec fn vneg_bits(a: Seq<u32>) -> Seq<u32>;

pub uninterp spec fn vcross_bits(a: Seq<u32>, b: Seq<u32>) -> Seq<u32>;

pub uninterp spec fn vdot_bits(a: Seq<u32>, b: Seq<u32>) -> u32;

pub uninterp spec fn vnormalize_bits(a: Seq<u32>) -> Seq<u32>;

pub uninterp spec fn quat_rotate_bits(q: Seq<u32>, v: Seq<u32>) -> Seq<u32>;

pub uninterp spec fn quat_from_euler_zyx_bits(a: u32, b: u32, c: u32) -> Seq<u32>;

pub uninterp spec fn quat_from_axis_angle_bits(axis: Seq<u32>, angle: u32) -> Seq<u32>;

pub uninterp spec fn quat_to_euler_yxz_bits(q: Seq<u32>) -> Seq<u32>;

pub uninterp spec fn look_at_lh_bits(eye: Seq<u32>, center: Seq<u32>, up: Seq<u32>) -> Seq<u32>;

pub uninterp spec fn perspective_lh_bits(fov: u32, aspect: u32, near: u32, far: u32) -> Seq<u32>;

pub uninterp spec fn perspective_infinite_lh_bits(fov: u32, aspect: u32, near: u32) -> Seq<u32>;

pub uninterp spec fn mat4_mul_bits(a: Seq<u32>, b: Seq<u32>) -> Seq<u32>;

pub uninterp spec fn fadd_bits(a: u32, b: u32) -> u32;

pub uninterp spec fn fsub_bits(a: u32, b: u32) -> u32;

pub uninterp spec fn fmul_bits(a: u32, b: u32) -> u32;

pub uninterp spec fn fdiv_bits(a: u32, b: u32) -> u32;

pub uninterp spec fn fsqrt_bits(a: u32) -> u32;

pub uninterp spec fn fcos_bits(a: u32) -> u32;

pub uninterp spec fn fsin_bits(a: u32) -> u32;

pub uninterp spec fn facos_bits(a: u32) -> u32;

pub uninterp spec fn fasin_bits(a: u32) -> u32;

pub uninterp spec fn fatan2_bits(a: u32, b: u32) -> u32;

pub uninterp spec fn to_radians_bits(a: u32) -> u32;

pub uninterp spec fn fabs_bits(a: u32) -> u32;

pub uninterp spec fn flt_bits(a: u32, b: u32) -> bool;

pub uninterp spec fn fgt_bits(a: u32, b: u32) -> bool;

pub uninterp spec fn fge_bits(a: u32, b: u32) -> bool;

pub uninterp spec fn narrow_bits(a: u64) -> u32;

// ---------------------------------------------------------------------------
// Trusted wrappers. Verus believes the contract of each; the body holds one
// outside call and the word conversions around it.
// ---------------------------------------------------------------------------

/// Relies on glam's `Vec3: Add`: componentwise IEEE-754 addition.
#[verifier::external_body]
pub(crate) fn vec3_add(a: Vec3, b: Vec3) -> (r: Vec3)
    ensures
        r == vadd3(a, b),
        r.bits() == vadd_bits(a.bits(), b.bits()),
{
    let av: glam::Vec3 = bytemuck::cast([a.x, a.y, a.z]);
    let bv: glam::Vec3 = bytemuck::cast([b.x, b.y, b.z]);
    let out: [u32; 3] = bytemuck::cast(av + bv);
    Vec3 { x: out[0], y: out[1], z: out[2] }
}

/// Relies on glam's `Vec3: Mul<Vec3>`: componentwise IEEE-754 multiplication.
#[verifier::external_body]
pub(crate) fn vec3_mul(a: Vec3, b: Vec3) -> (r: Vec3)
    ensures
        r == vmul3(a, b),
        r.bits() == vmul_bits(a.bits(), b.bits()),
{
    let av: glam::Vec3 = bytemuck::cast([a.x, a.y, a.z]);
    let bv: glam::Vec3 = bytemuck::cast([b.x, b.y, b.z]);
    let out: [u32; 3] = bytemuck::cast(av * bv);
    Vec3 { x: out[0], y: out[1], z: out[2] }
}

/// Relies on glam's `Vec3: Neg`: componentwise IEEE-754 negation.
#[verifier::external_body]
pub(crate) fn vec3_neg(a: Vec3) -> (r: Vec3)
    ensures
        r == vneg3(a),
        r.bits() == vneg_bits(a.bits()),
{
    let av: glam::Vec3 = bytemuck::cast([a.x, a.y, a.z]);
    let out: [u32; 3] = bytemuck::cast(-av);
    Vec3 { x: out[0], y: out[1], z: out[2] }
}

/// Relies on `glam::Vec3::cross`: the cross product of the two vectors.
#[verifier::external_body]
pub(crate) fn vec3_cross(a: Vec3, b: Vec3) -> (r: Vec3)
    ensures
        r == vcross3(a, b),
        r.bits() == vcross_bits(a.bits(), b.bits()),
{
    let av: glam::Vec3 = bytemuck::cast([a.x, a.y, a.z]);
    let bv: glam::Vec3 = bytemuck::cast([b.x, b.y, b.z]);
    let out: [u32; 3] = bytemuck::cast(av.cross(bv));
    Vec3 { x: out[0], y: out[1], z: out[2] }
}

/// Relies on `glam::Vec3::dot`: the dot product of the two vectors.
#[verifier::external_body]
pub(crate) fn vec3_dot(a: Vec3, b: Vec3) -> (r: u32)
    ensures
        r == vdot_bits(a.bits(), b.bits()),
{
    let av: glam::Vec3 = bytemuck::cast([a.x, a.y, a.z]);
    let bv: glam::Vec3 = bytemuck::cast([b.x, b.y, b.z]);
    let d = av.dot(bv);
    let out: [u32; 2] = bytemuck::cast(glam::Vec2::new(d, d));
    out[0]
}

/// Relies on `glam::Vec3::normalize`: the vector scaled to unit length.
#[verifier::external_body]
pub(crate) fn vec3_normalize(a: Vec3) -> (r: Vec3)
    ensures
        r == vnormalize3(a),
        r.bits() == vnormalize_bits(a.bits()),
{
    let av: glam::Vec3 = bytemuck::cast([a.x, a.y, a.z]);
    let out: [u32; 3] = bytemuck::cast(av.normalize());
    Vec3 { x: out[0], y: out[1], z: out[2] }
}

/// Relies on `glam::Quat::mul_vec3`: the vector rotated by the quaternion.
#[verifier::external_body]
pub(crate) fn quat_rotate(q: Quat, v: Vec3) -> (r: Vec3)
    ensures
        r == qrot3(q, v),
        r.bits() == quat_rotate_bits(q.bits(), v.bits()),
{
    let qv: glam::Quat = bytemuck::cast([q.x, q.y, q.z, q.w]);
    let vv: glam::Vec3 = bytemuck::cast([v.x, v.y, v.z]);
    let out: [u32; 3] = bytemuck::cast(qv.mul_vec3(vv));
    Vec3 { x: out[0], y: out[1], z: out[2] }
}

/// Relies on `glam::Quat::from_euler` with the intrinsic Z-Y-X order: the
/// rotation built from the three angles (radian words) in that order.
#[verifier::external_body]
pub(crate) fn quat_from_euler_zyx(a: u32, b: u32, c: u32) -> (r: Quat)
    ensures
        r == qeuler_zyx(a, b, c),
        r.bits() == quat_from_euler_zyx_bits(a, b, c),
{
    let av: glam::Vec2 = bytemuck::cast([a, a]);
    let bv: glam::Vec2 = bytemuck::cast([b, b]);
    let cv: glam::Vec2 = bytemuck::cast([c, c]);
    let q = glam::Quat::from_euler(glam::EulerRot::ZYX, av.x, bv.x, cv.x);
    let out: [u32; 4] = bytemuck::cast(q);
    Quat { x: out[0], y: out[1], z: out[2], w: out[3] }
}

/// Relies on `glam::Quat::from_axis_angle`: the rotation of `angle` radians
/// about `axis`.
#[verifier::external_body]
pub(crate) fn quat_from_axis_angle(axis: Vec3, angle: u32) -> (r: Quat)
    ensures
        r == qaxis_angle(axis, angle),
        r.bits() == quat_from_axis_angle_bits(axis.bits(), angle),
{
    let av: glam::Vec3 = bytemuck::cast([axis.x, axis.y, axis.z]);
    let sv: glam::Vec2 = bytemuck::cast([angle, angle]);
    let q = glam::Quat::from_axis_angle(av, sv.x);
    let out: [u32; 4] = bytemuck::cast(q);
    Quat { x: out[0], y: out[1], z: out[2], w: out[3] }
}

/// Relies on `glam::Quat::to_euler` with the intrinsic Y-X-Z order: the three
/// Euler angles of the rotation, as radian words in extraction order.
#[verifier::external_body]
pub(crate) fn quat_to_euler_yxz(q: Quat) -> (r: [u32; 3])
    ensures
        r@ == quat_to_euler_yxz_bits(q.bits()),
{
    let qv: glam::Quat = bytemuck::cast([q.x, q.y, q.z, q.w]);
    let (a, b, c) = qv.to_euler(glam::EulerRot::YXZ);
    let ab: [u32; 2] = bytemuck::cast(glam::Vec2::new(a, b));
    let cc: [u32; 2] = bytemuck::cast(glam::Vec2::new(c, c));
    [ab[0], ab[1], cc[0]]
}

/// Relies on `glam::Mat4::look_at_lh`: the left-handed view matrix for an eye
/// position, a point looked at and an up vector, as 16 column-major words.
#[verifier::external_body]
pub(crate) fn mat4_look_at_lh(eye: Vec3, center: Vec3, up: Vec3) -> (r: [u32; 16])
    ensures
        r@ == look_at_lh_bits(eye.bits(), center.bits(), up.bits()),
{
    let e: glam::Vec3 = bytemuck::cast([eye.x, eye.y, eye.z]);
    let c: glam::Vec3 = bytemuck::cast([center.x, center.y, center.z]);
    let u: glam::Vec3 = bytemuck::cast([up.x, up.y, up.z]);
    bytemuck::cast(glam::Mat4::look_at_lh(e, c, u))
}

/// Relies on `glam::Mat4::perspective_lh`: the left-handed perspective
/// projection with a finite far plane, as 16 column-major words.
#[verifier::external_body]
pub(crate) fn mat4_perspective_lh(fov: u32, aspect: u32, near: u32, far: u32) -> (r: [u32; 16])
    ensures
        r@ == perspective_lh_bits(fov, aspect, near, far),
{
    let fa: glam::Vec2 = bytemuck::cast([fov, aspect]);
    let nf: glam::Vec2 = bytemuck::cast([near, far]);
    bytemuck::cast(glam::Mat4::perspective_lh(fa.x, fa.y, nf.x, nf.y))
}

/// Relies on `glam::Mat4::perspective_infinite_lh`: the left-handed
/// perspective projection with an infinite far plane, as 16 column-major words.
#[verifier::external_body]
pub(crate) fn mat4_perspective_infinite_lh(fov: u32, aspect: u32, near: u32) -> (r: [u32; 16])
    ensures
        r@ == perspective_infinite_lh_bits(fov, aspect, near),
{
    let fa: glam::Vec2 = bytemuck::cast([fov, aspect]);
    let nn: glam::Vec2 = bytemuck::cast([near, near]);
    bytemuck::cast(glam::Mat4::perspective_infinite_lh(fa.x, fa.y, nn.x))
}

/// Relies on glam's `Mat4: Mul`: the matrix product of the two 4x4 matrices,
/// both given and returned as 16 column-major words.
#[verifier::external_body]
pub(crate) fn mat4_mul(a: &[u32; 16], b: &[u32; 16]) -> (r: [u32; 16])
    ensures
        r@ == mat4_mul_bits(a@, b@),
{
    let am: glam::Mat4 = bytemuck::cast(*a);
    let bm: glam::Mat4 = bytemuck::cast(*b);
    bytemuck::cast(am * bm)
}

/// Relies on glam's `Vec2: Add`: per-lane IEEE-754 addition of the scalars.
#[verifier::external_body]
pub(crate) fn fadd(a: u32, b: u32) -> (r: u32)
    ensures
        r == fadd_bits(a, b),
{
    let p: glam::Vec2 = bytemuck::cast([a, a]);
    let q: glam::Vec2 = bytemuck::cast([b, b]);
    let out: [u32; 2] = bytemuck::cast(p + q);
    out[0]
}

/// Relies on glam's `Vec2: Sub`: per-lane IEEE-754 subtraction of the scalars.
#[verifier::external_body]
pub(crate) fn fsub(a: u32, b: u32) -> (r: u32)
    ensures
        r == fsub_bits(a, b),
{
    let p: glam::Vec2 = bytemuck::cast([a, a]);
    let q: glam::Vec2 = bytemuck::cast([b, b]);
    let out: [u32; 2] = bytemuck::cast(p - q);
    out[0]
}

/// Relies on glam's `Vec2: Mul`: per-lane IEEE-754 multiplication of the
/// scalars.
#[verifier::external_body]
pub(crate) fn fmul(a: u32, b: u32) -> (r: u32)
    ensures
        r == fmul_bits(a, b),
{
    let p: glam::Vec2 = bytemuck::cast([a, a]);
    let q: glam::Vec2 = bytemuck::cast([b, b]);
    let out: [u32; 2] = bytemuck::cast(p * q);
    out[0]
}

/// Relies on glam's `Vec2: Div`: per-lane IEEE-754 division of the scalars.
#[verifier::external_body]
pub(crate) fn fdiv(a: u32, b: u32) -> (r: u32)
    ensures
        r == fdiv_bits(a, b),
{
    let p: glam::Vec2 = bytemuck::cast([a, a]);
    let q: glam::Vec2 = bytemuck::cast([b, b]);
    let out: [u32; 2] = bytemuck::cast(p / q);
    out[0]
}

/// Relies on `f32::sqrt`: the IEEE-754 square root of the scalar.
#[verifier::external_body]
pub(crate) fn fsqrt(a: u32) -> (r: u32)
    ensures
        r == fsqrt_bits(a),
{
    let p: glam::Vec2 = bytemuck::cast([a, a]);
    let s = p.x.sqrt();
    let out: [u32; 2] = bytemuck::cast(glam::Vec2::new(s, s));
    out[0]
}

/// Relies on `f32::cos`: the cosine of the scalar taken as radians.
#[verifier::external_body]
pub(crate) fn fcos(a: u32) -> (r: u32)
    ensures
        r == fcos_bits(a),
{
    let p: glam::Vec2 = bytemuck::cast([a, a]);
    let s = p.x.cos();
    let out: [u32; 2] = bytemuck::cast(glam::Vec2::new(s, s));
    out[0]
}

/// Relies on `f32::sin`: the sine of the scalar taken as radians.
#[verifier::external_body]
pub(crate) fn fsin(a: u32) -> (r: u32)
    ensures
        r == fsin_bits(a),
{
    let p: glam::Vec2 = bytemuck::cast([a, a]);
    let s = p.x.sin();
    let out: [u32; 2] = bytemuck::cast(glam::Vec2::new(s, s));
    out[0]
}

/// Relies on `f32::acos`: the arc cosine of the scalar, in radians.
#[verifier::external_body]
pub(crate) fn facos(a: u32) -> (r: u32)
    ensures
        r == facos_bits(a),
{
    let p: glam::Vec2 = bytemuck::cast([a, a]);
    let s = p.x.acos();
    let out: [u32; 2] = bytemuck::cast(glam::Vec2::new(s, s));
    out[0]
}

/// Relies on `f32::asin`: the arc sine of the scalar, in radians.
#[verifier::external_body]
pub(crate) fn fasin(a: u32) -> (r: u32)
    ensures
        r == fasin_bits(a),
{
    let p: glam::Vec2 = bytemuck::cast([a, a]);
    let s = p.x.asin();
    let out: [u32; 2] = bytemuck::cast(glam::Vec2::new(s, s));
    out[0]
}

/// Relies on `f32::atan2`: the angle of the point (`x`, `y`) from the positive
/// x axis, in radians; `a` is the y coordinate and `b` the x coordinate.
#[verifier::external_body]
pub(crate) fn fatan2(a: u32, b: u32) -> (r: u32)
    ensures
        r == fatan2_bits(a, b),
{
    let p: glam::Vec2 = bytemuck::cast([a, b]);
    let s = p.x.atan2(p.y);
    let out: [u32; 2] = bytemuck::cast(glam::Vec2::new(s, s));
    out[0]
}

/// Relies on `f32::to_radians`: the scalar taken as degrees, in radians.
#[verifier::external_body]
pub(crate) fn to_radians(a: u32) -> (r: u32)
    ensures
        r == to_radians_bits(a),
{
    let p: glam::Vec2 = bytemuck::cast([a, a]);
    let s = p.x.to_radians();
    let out: [u32; 2] = bytemuck::cast(glam::Vec2::new(s, s));
    out[0]
}

/// Relies on `f32::abs`: the absolute value of the scalar.
#[verifier::external_body]
pub(crate) fn fabs(a: u32) -> (r: u32)
    ensures
        r == fabs_bits(a),
{
    let p: glam::Vec2 = bytemuck::cast([a, a]);
    let s = p.x.abs();
    let out: [u32; 2] = bytemuck::cast(glam::Vec2::new(s, s));
    out[0]
}

/// Relies on the IEEE-754 `<` comparison of `f32`.
#[verifier::external_body]
pub(crate) fn flt(a: u32, b: u32) -> (r: bool)
    ensures
        r == flt_bits(a, b),
{
    let p: glam::Vec2 = bytemuck::cast([a, b]);
    p.x < p.y
}

/// Relies on the IEEE-754 `>` comparison of `f32`.
#[verifier::external_body]
pub(crate) fn fgt(a: u32, b: u32) -> (r: bool)
    ensures
        r == fgt_bits(a, b),
{
    let p: glam::Vec2 = bytemuck::cast([a, b]);
    p.x > p.y
}

/// Relies on the IEEE-754 `>=` comparison of `f32`.
#[verifier::external_body]
pub(crate) fn fge(a: u32, b: u32) -> (r: bool)
    ensures
        r == fge_bits(a, b),
{
    let p: glam::Vec2 = bytemuck::cast([a, b]);
    p.x >= p.y
}

/// Relies on `glam::DVec2::as_vec2`: each 64-bit lane converted to the nearest
/// 32-bit IEEE-754 value. Takes and returns bit-image words.
#[verifier::external_body]
pub(crate) fn narrow(a: u64) -> (r: u32)
    ensures
        r == narrow_bits(a),
{
    let p: glam::DVec2 = bytemuck::cast([a, a]);
    let out: [u32; 2] = bytemuck::cast(p.as_vec2());
    out[0]
}

} // verus!
