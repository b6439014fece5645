//! Position, rotation and scale of an object, as single-precision bit
//! patterns. The matrices derived from them are computed outside this
//! library.
use vstd::prelude::*;

use crate::bits::{ONE, ZERO};
use crate::cow::CowCell;

verus! {

/// Position (x, y, z), rotation as a quaternion (x, y, z, w) and scale
/// (x, y, z).
#[derive(Copy, Clone, Debug, PartialEq, Eq)]
pub struct Transform {
    pub pos: [u32; 3],
    pub rot: [u32; 4],
    pub scale: [u32; 3],
}

/// The position of an object placed at the origin.
pub const ORIGIN: [u32; 3] = [ZERO, ZERO, ZERO];

/// The quaternion of no rotation.
pub const NO_ROTATION: [u32; 4] = [ZERO, ZERO, ZERO, ONE];

/// The scale that leaves sizes unchanged.
pub const UNIT_SCALE: [u32; 3] = [ONE, ONE, ONE];

/// The transform of an object at the origin, unrotated, at unit scale.
pub open spec fn is_identity(t: Transform) -> bool {
    t.pos == ORIGIN && t.rot == NO_ROTATION && t.scale == UNIT_SCALE
}

impl Transform {
    pub fn new(pos: [u32; 3], rot: [u32; 4], scale: [u32; 3]) -> (r: Transform)
        ensures
            r == (Transform { pos, rot, scale }),
    {
        Transform { pos, rot, scale }
    }

    pub fn identity() -> (r: Transform)
        ensures
            is_identity(r),
    {
        Transform { pos: ORIGIN, rot: NO_ROTATION, scale: UNIT_SCALE }
    }
}

/// A vector or quaternion held by the guest, by the bit patterns of its
/// components. Copies of the handle share the components until one of them
/// is changed.
pub struct LuaVector {
    pub vec: CowCell<Vec<u32>>,
}

impl LuaVector {
    pub fn new(components: Vec<u32>) -> (r: LuaVector)
        ensures
            r.vec@@ == components@,
    {
        LuaVector { vec: CowCell::new(components) }
    }

    pub fn len(&self) -> (r: usize)
        ensures
            r == self.vec@@.len(),
    {
        self.vec.get().len()
    }

    pub fn components(&self) -> (r: Vec<u32>)
        ensures
            r@ == self.vec@@,
    {
        let c = self.vec.get().clone();
        assert(c@ =~= self.vec@@);
        c
    }

    /// A second handle on the same components.
    pub fn share(&self) -> (r: LuaVector)
        ensures
            r.vec@@ == self.vec@@,
    {
        LuaVector { vec: self.vec.share() }
    }

    pub fn get(&self, i: usize) -> (r: u32)
        requires
            i < self.vec@@.len(),
        ensures
            r == self.vec@@[i as int],
    {
        self.vec.get()[i]
    }

    /// Changes component `i` of this handle; other handles keep the old
    /// components.
    pub fn set(&mut self, i: usize, x: u32)
        requires
            i < old(self).vec@@.len(),
        ensures
            final(self).vec@@ == old(self).vec@@.update(i as int, x),
    {
        let mut c = self.components();
        c.set(i, x);
        self.vec.set(c);
    }
}

/// A transform held by the guest. Copies of the handle share the transform
/// until one of them is changed.
pub struct LuaTransform {
    pub transform: CowCell<Transform>,
}

impl LuaTransform {
    pub fn from_transform(transform: Transform) -> (r: LuaTransform)
        ensures
            r.transform@ == transform,
    {
        LuaTransform { transform: CowCell::new(transform) }
    }

    pub fn get(&self) -> (r: Transform)
        ensures
            r == self.transform@,
    {
        *self.transform.get()
    }

    /// A second handle on the same transform.
    pub fn share(&self) -> (r: LuaTransform)
        ensures
            r.transform@ == self.transform@,
    {
        LuaTransform { transform: self.transform.share() }
    }

    pub fn get_rotation(&self) -> (r: [u32; 4])
        ensures
            r == self.transform@.rot,
    {
        self.transform.get().rot
    }

    pub fn set_rotation(&mut self, rot: [u32; 4])
        ensures
            final(self).transform@ == (Transform { rot, ..old(self).transform@ }),
    {
        let mut t = *self.transform.get();
        t.rot = rot;
        self.transform.set(t);
    }

    pub fn get_position(&self) -> (r: [u32; 3])
        ensures
            r == self.transform@.pos,
    {
        self.transform.get().pos
    }

    pub fn set_position(&mut self, pos: [u32; 3])
        ensures
            final(self).transform@ == (Transform { pos, ..old(self).transform@ }),
    {
        let mut t = *self.transform.get();
        t.pos = pos;
        self.transform.set(t);
    }

    pub fn get_scale(&self) -> (r: [u32; 3])
        ensures
            r == self.transform@.scale,
    {
        self.transform.get().scale
    }

    pub fn set_scale(&mut self, scale: [u32; 3])
        ensures
            final(self).transform@ == (Transform { scale, ..old(self).transform@ }),
    {
        let mut t = *self.transform.get();
        t.scale = scale;
        self.transform.set(t);
    }
}

} // verus!
