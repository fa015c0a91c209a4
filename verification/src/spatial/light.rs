//! Point lights and the fixed-size list of light data handed to the
//! fragment stage.

use vstd::prelude::*;

use crate::types::{OpaqueColor, Vec3Fx};

verus! {

/// Most lights a light list can hold.
pub const MAX_LIGHTS: usize = 20;

/// One light as the shader sees it: a position and a color.
#[derive(Clone, Copy, PartialEq, Eq, Structural, Debug)]
pub struct LightData {
    pub pos: Vec3Fx,
    pub color: OpaqueColor,
}

impl LightData {
    pub fn new(pos: Vec3Fx, color: OpaqueColor) -> (r: LightData)
        ensures
            r == (LightData { pos, color }),
    {
        LightData { pos, color }
    }
}

impl Default for LightData {
    /// The dark light at the origin.
    fn default() -> (r: LightData)
        ensures
            r == (LightData {
                pos: Vec3Fx { x: 0, y: 0, z: 0 },
                color: OpaqueColor { r: 0, g: 0, b: 0 },
            }),
    {
        LightData {
            pos: Vec3Fx { x: 0, y: 0, z: 0 },
            color: OpaqueColor { r: 0, g: 0, b: 0 },
        }
    }
}

/// A light source a component can carry.
pub trait Light {
    fn get_data(&self, pos: Vec3Fx) -> LightData;
}

/// A point light emitting from a position, with roughly sun-like
/// defaults available.
#[derive(Clone, Copy, PartialEq, Eq, Structural, Debug)]
pub struct PointLight {
    pub color: OpaqueColor,
}

impl PointLight {
    pub fn new(color: OpaqueColor) -> (r: PointLight)
        ensures
            r.color == color,
    {
        PointLight { color }
    }

    /// Creates a light with intensity and color approximately that of
    /// the sun.
    pub fn create_sun() -> (r: PointLight)
        ensures
            r.color == (OpaqueColor { r: 1000, g: 880, b: 480 }),
    {
        PointLight { color: OpaqueColor { r: 1000, g: 880, b: 480 } }
    }
}

impl Light for PointLight {
    fn get_data(&self, pos: Vec3Fx) -> LightData {
        LightData::new(pos, self.color)
    }
}

/// The fixed-capacity list of lights uploaded each frame. `count` lights
/// are live; the remaining slots hold the dark default.
pub struct LightsList {
    pub count: usize,
    pub lights: Vec<LightData>,
}

impl LightsList {
    pub open spec fn wf(self) -> bool {
        &&& self.lights@.len() == MAX_LIGHTS
        &&& self.count <= MAX_LIGHTS
    }

    pub fn new() -> (r: LightsList)
        ensures
            r.wf(),
            r.count == 0,
            forall|i: int|
                0 <= i < MAX_LIGHTS ==> r.lights@[i] == (LightData {
                    pos: Vec3Fx { x: 0, y: 0, z: 0 },
                    color: OpaqueColor { r: 0, g: 0, b: 0 },
                }),
    {
        let mut lights: Vec<LightData> = Vec::new();
        let mut i: usize = 0;
        while i < MAX_LIGHTS
            invariant
                i <= MAX_LIGHTS,
                lights@.len() == i as nat,
                forall|k: int|
                    0 <= k < i ==> lights@[k] == (LightData {
                        pos: Vec3Fx { x: 0, y: 0, z: 0 },
                        color: OpaqueColor { r: 0, g: 0, b: 0 },
                    }),
            decreases MAX_LIGHTS - i,
        {
            lights.push(LightData::default());
            i = i + 1;
        }
        LightsList { count: 0, lights }
    }

    /// Appends a light when a slot is free; a full list is left as it
    /// is.
    pub fn add_light(&mut self, data: LightData)
        requires
            old(self).wf(),
        ensures
            final(self).wf(),
            old(self).count < MAX_LIGHTS ==> {
                &&& final(self).count == old(self).count + 1
                &&& final(self).lights@ == old(self).lights@.update(old(self).count as int, data)
            },
            old(self).count >= MAX_LIGHTS ==> *final(self) == *old(self),
    {
        if self.count < MAX_LIGHTS {
            self.lights.set(self.count, data);
            self.count = self.count + 1;
        }
    }

    /// Removes the light at `index`, shifting the lights after it down
    /// and clearing the freed slot.
    pub fn remove_light(&mut self, index: usize) -> (r: LightData)
        requires
            old(self).wf(),
            index < old(self).count,
        ensures
            final(self).wf(),
            r == old(self).lights@[index as int],
            final(self).count == old(self).count - 1,
            forall|k: int| 0 <= k < index ==> final(self).lights@[k] == old(self).lights@[k],
            forall|k: int|
                index <= k < old(self).count - 1 ==> final(self).lights@[k] == old(
                    self,
                ).lights@[k + 1],
            final(self).lights@[old(self).count - 1] == (LightData {
                pos: Vec3Fx { x: 0, y: 0, z: 0 },
                color: OpaqueColor { r: 0, g: 0, b: 0 },
            }),
    {
        let data = self.lights[index];
        let mut k: usize = index;
        while k + 1 < self.count
            invariant
                index <= k < self.count,
                self.count == old(self).count,
                self.count <= MAX_LIGHTS,
                self.lights@.len() == MAX_LIGHTS,
                forall|j: int| 0 <= j < index ==> self.lights@[j] == old(self).lights@[j],
                forall|j: int|
                    index <= j < k ==> self.lights@[j] == old(self).lights@[j + 1],
                forall|j: int|
                    k <= j < MAX_LIGHTS ==> self.lights@[j] == old(self).lights@[j],
            decreases self.count - k,
        {
            let next = self.lights[k + 1];
            self.lights.set(k, next);
            k = k + 1;
        }
        self.lights.set(self.count - 1, LightData::default());
        self.count = self.count - 1;
        data
    }
}

} // verus!
