//! Quaternion helpers beyond what the vector layer offers.

use vstd::prelude::*;

use crate::fbits::HALF_F32;
use crate::fbits::ONE_F32;
use crate::fbits::Quat;
use crate::fbits::Vec3;
use crate::fbits::fadd;
use crate::fbits::fadd_bits;
use crate::fbits::fdiv;
use crate::fbits::fdiv_bits;
use crate::fbits::fge;
use crate::fbits::fge_bits;
use crate::fbits::fgt;
use crate::fbits::fgt_bits;
use crate::fbits::fmul;
use crate::fbits::fmul_bits;
use crate::fbits::fsqrt;
use crate::fbits::fsqrt_bits;
use crate::fbits::fsub;
use crate::fbits::fsub_bits;
use crate::fbits::vcross3;
use crate::fbits::vec3_cross;
use crate::fbits::vec3_normalize;
use crate::fbits::vnormalize3;

verus! {

pub struct QuatExt {}

/// The rotation `QuatExt::look_forward` returns: the orthonormal basis is
/// rebuilt from the normalized forward and up vectors, and the quaternion is
/// extracted from that rotation matrix, branching on its trace the usual
/// way to keep the square root well-conditioned.
pub open spec fn spec_look_forward(forward_in: Vec3, up_in: Vec3) -> Quat {
    let forward = vnormalize3(forward_in);
    let up = vnormalize3(up_in);
    let right = vnormalize3(vcross3(up, forward));
    let rx = right.x;
    let ry = right.y;
    let rz = right.z;
    let ux = up.x;
    let uy = up.y;
    let uz = up.z;
    let fx = forward.x;
    let fy = forward.y;
    let fz = forward.z;
    let trace = fadd_bits(fadd_bits(rx, uy), fz);
    if fgt_bits(trace, 0u32) {
        let scl = fsqrt_bits(fadd_bits(trace, ONE_F32));
        let scl_inv = fdiv_bits(HALF_F32, scl);
        Quat {
            x: fmul_bits(fsub_bits(uz, fy), scl_inv),
            y: fmul_bits(fsub_bits(fx, rz), scl_inv),
            z: fmul_bits(fsub_bits(ry, ux), scl_inv),
            w: fmul_bits(scl, HALF_F32),
        }
    } else if fge_bits(rx, uy) && fge_bits(rx, fz) {
        let scl = fsqrt_bits(fsub_bits(fsub_bits(fadd_bits(ONE_F32, rx), uy), fz));
        let scl_inv = fdiv_bits(HALF_F32, scl);
        Quat {
            x: fmul_bits(scl, HALF_F32),
            y: fmul_bits(fadd_bits(ry, ux), scl_inv),
            z: fmul_bits(fadd_bits(fx, rz), scl_inv),
            w: fmul_bits(fsub_bits(uz, fy), scl_inv),
        }
    } else if fge_bits(uy, fz) {
        let scl = fsqrt_bits(fsub_bits(fsub_bits(fadd_bits(ONE_F32, uy), rx), fz));
        let scl_inv = fdiv_bits(HALF_F32, scl);
        Quat {
            x: fmul_bits(fadd_bits(ry, ux), scl_inv),
            y: fmul_bits(scl, HALF_F32),
            z: fmul_bits(fadd_bits(uz, fy), scl_inv),
            w: fmul_bits(fsub_bits(fx, rz), scl_inv),
        }
    } else {
        let scl = fsqrt_bits(fsub_bits(fsub_bits(fadd_bits(ONE_F32, fz), rx), uy));
        let scl_inv = fdiv_bits(HALF_F32, scl);
        Quat {
            x: fmul_bits(fadd_bits(fx, rz), scl_inv),
            y: fmul_bits(fadd_bits(uz, fy), scl_inv),
            z: fmul_bits(scl, HALF_F32),
            w: fmul_bits(fsub_bits(ry, ux), scl_inv),
        }
    }
}

impl QuatExt {
    /// The rotation looking along `forward` with `up` overhead.
    pub fn look_forward(forward: Vec3, up: Vec3) -> (r: Quat)
        ensures
            r == spec_look_forward(forward, up),
    {
        let forward = vec3_normalize(forward);
        let up = vec3_normalize(up);
        let right = vec3_normalize(vec3_cross(up, forward));

        let rx = right.x;
        let ry = right.y;
        let rz = right.z;

        let ux = up.x;
        let uy = up.y;
        let uz = up.z;

        let fx = forward.x;
        let fy = forward.y;
        let fz = forward.z;

        let trace = fadd(fadd(rx, uy), fz);

        if fgt(trace, 0) {
            let scl = fsqrt(fadd(trace, ONE_F32));
            let w = fmul(scl, HALF_F32);
            let scl_inv = fdiv(HALF_F32, scl);
            let x = fmul(fsub(uz, fy), scl_inv);
            let y = fmul(fsub(fx, rz), scl_inv);
            let z = fmul(fsub(ry, ux), scl_inv);
            return Quat { x, y, z, w };
        }
        if fge(rx, uy) && fge(rx, fz) {
            let scl = fsqrt(fsub(fsub(fadd(ONE_F32, rx), uy), fz));
            let scl_inv = fdiv(HALF_F32, scl);
            let w = fmul(fsub(uz, fy), scl_inv);
            let x = fmul(scl, HALF_F32);
            let y = fmul(fadd(ry, ux), scl_inv);
            let z = fmul(fadd(fx, rz), scl_inv);
            return Quat { x, y, z, w };
        }
        if fge(uy, fz) {
            let scl = fsqrt(fsub(fsub(fadd(ONE_F32, uy), rx), fz));
            let scl_inv = fdiv(HALF_F32, scl);
            let w = fmul(fsub(fx, rz), scl_inv);
            let x = fmul(fadd(ry, ux), scl_inv);
            let y = fmul(scl, HALF_F32);
            let z = fmul(fadd(uz, fy), scl_inv);
            return Quat { x, y, z, w };
        }
        let scl = fsqrt(fsub(fsub(fadd(ONE_F32, fz), rx), uy));
        let scl_inv = fdiv(HALF_F32, scl);
        let w = fmul(fsub(ry, ux), scl_inv);
        let x = fmul(fadd(fx, rz), scl_inv);
        let y = fmul(fadd(uz, fy), scl_inv);
        let z = fmul(scl, HALF_F32);
        Quat { x, y, z, w }
    }
}

} // verus!
