//! Resolved locations, and the scope in which uniforms may be written.
//!
//! A uniform is written to the program that is active at the time, so a
//! write makes sense only after that program was activated. The writes are
//! therefore methods of a [`ProgramUniformContext`], and the only place that
//! makes one is `Program::use_program`, which activates the program first.

use crate::driver::{Call, CallView};
use vstd::prelude::*;

verus! {

/// The location of a vertex attribute in a linked program.
#[derive(Clone, Copy, Debug, PartialEq, Eq)]
pub struct Attrib {
    id: u32,
}

impl View for Attrib {
    type V = u32;

    closed spec fn view(&self) -> u32 {
        self.id
    }
}

impl Attrib {
    /// The attribute whose array has the index `id`.
    pub(crate) fn at(id: u32) -> (attrib: Attrib)
        ensures
            attrib@ == id,
    {
        Attrib { id }
    }

    /// The index of the attribute's array.
    pub fn id(&self) -> (id: u32)
        ensures
            id == self@,
    {
        self.id
    }
}

/// The location of a uniform in a linked program. What type the uniform has
/// is decided by the method used to write it.
#[derive(Clone, Copy, Debug, PartialEq, Eq)]
pub struct Uniform {
    id: i32,
}

impl View for Uniform {
    type V = i32;

    closed spec fn view(&self) -> i32 {
        self.id
    }
}

impl Uniform {
    /// The uniform at the location `id`.
    pub(crate) fn at(id: i32) -> (uniform: Uniform)
        ensures
            uniform@ == id,
    {
        Uniform { id }
    }

    /// The location of the uniform.
    pub fn id(&self) -> (id: i32)
        ensures
            id == self@,
    {
        self.id
    }
}

/// The 16 values of a 4x4 matrix in the order in which they lie in memory:
/// `matrix[0]` first, then `matrix[1]`, and so on.
pub open spec fn contiguous(matrix: [[u32; 4]; 4]) -> Seq<u32> {
    Seq::new(16, |k: int| matrix@[k / 4]@[k % 4])
}

/// The right to write uniforms of the program that is active.
///
/// It holds no data. A value exists only while the closure handed to
/// `Program::use_program` runs. Each method is one write: it returns the one
/// call that performs it, and checks nothing about the value.
///
/// A float is given by its IEEE-754 bit pattern.
#[derive(Debug)]
pub struct ProgramUniformContext {
    scope: (),
}

impl ProgramUniformContext {
    /// The context for the program that was just activated.
    pub(crate) fn open() -> ProgramUniformContext {
        ProgramUniformContext { scope: () }
    }

    /// Writes the integer `v` to `u`.
    pub fn set_i32(&self, u: Uniform, v: i32) -> (call: Call)
        ensures
            call@ == (CallView::Uniform1i { location: u@, value: v }),
    {
        Call::Uniform1i { location: u.id, value: v }
    }

    /// Writes the float with the bits `v` to `u`.
    pub fn set_float(&self, u: Uniform, v: u32) -> (call: Call)
        ensures
            call@ == (CallView::Uniform1f { location: u@, bits: v }),
    {
        Call::Uniform1f { location: u.id, bits: v }
    }

    /// Writes `v` to `u` as an integer: 1 for `true`, 0 for `false`.
    pub fn set_bool(&self, u: Uniform, v: bool) -> (call: Call)
        ensures
            call@ == (CallView::Uniform1i { location: u@, value: if v { 1i32 } else { 0i32 } }),
    {
        Call::Uniform1i {
            location: u.id,
            value: match v {
                true => 1,
                false => 0,
            },
        }
    }

    /// Writes the vector of the three floats with the bits `v` to `u`.
    pub fn set_vec3(&self, u: Uniform, v: (u32, u32, u32)) -> (call: Call)
        ensures
            call@ == (CallView::Uniform3f { location: u@, x: v.0, y: v.1, z: v.2 }),
    {
        let (x, y, z) = v;
        Call::Uniform3f { location: u.id, x, y, z }
    }

    /// Writes the vector of the two floats with the bits `v` to `u`.
    pub fn set_vec2(&self, u: Uniform, v: (u32, u32)) -> (call: Call)
        ensures
            call@ == (CallView::Uniform2f { location: u@, x: v.0, y: v.1 }),
    {
        let (x, y) = v;
        Call::Uniform2f { location: u.id, x, y }
    }

    /// Writes the 4x4 matrix of the floats with the bits `mat` to `u`: its 16
    /// values as they lie in memory, which the driver reads column by column.
    pub fn set_mat4(&self, u: Uniform, mat: &[[u32; 4]; 4]) -> (call: Call)
        ensures
            call@ == (CallView::UniformMatrix4fv { location: u@, values: contiguous(*mat) }),
    {
        let mut values: Vec<u32> = Vec::new();
        let mut i: usize = 0;
        while i < 4
            invariant
                0 <= i <= 4,
                values@ == contiguous(*mat).take(4 * i as int),
            decreases 4 - i,
        {
            let mut j: usize = 0;
            while j < 4
                invariant
                    0 <= i < 4,
                    0 <= j <= 4,
                    values@ == contiguous(*mat).take(4 * i as int + j as int),
                decreases 4 - j,
            {
                let row = mat[i];
                values.push(row[j]);
                assert(values@ =~= contiguous(*mat).take(4 * i as int + j as int + 1));
                j += 1;
            }
            i += 1;
        }
        assert(values@ =~= contiguous(*mat));
        Call::UniformMatrix4fv { location: u.id, values }
    }
}

} // verus!
