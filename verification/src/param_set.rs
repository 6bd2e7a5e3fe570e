//! Helper structs to easily represent collections of related parameters.

use crate::{Gene, Param, ParamHolder, ParamMut, RangedParam};
use vstd::prelude::*;

verus! {

/// Represents a collection of related parameters.
pub trait ParamSet<P: RangedParam>: ParamHolder {}

/// A 3D parameter set containing x, y and z fields.
#[derive(Debug, Copy, Clone)]
pub struct ParamSet3d<P: RangedParam> {
    pub x: P,
    pub y: P,
    pub z: P,
}

/// A 2D parameter set containing x and y.
#[derive(Debug, Copy, Clone)]
pub struct ParamSet2d<P: RangedParam> {
    pub x: P,
    pub y: P,
}

impl<P: RangedParam> ParamSet<P> for ParamSet3d<P> {}

impl<P: RangedParam> ParamSet<P> for ParamSet2d<P> {}

impl<P: RangedParam> ParamHolder for ParamSet3d<P> {
    open spec fn genes(&self) -> Seq<Gene> {
        seq![self.x.gene(), self.y.gene(), self.z.gene()]
    }

    fn param_count(&self) -> (count: usize)
        ensures
            count == 3,
    {
        3
    }

    /// Index 0 is `x`, 1 is `y` and 2 is `z`. No other index is taken: none
    /// wraps around. The two components that were not asked for stay as they
    /// are.
    fn get_param(&mut self, index: usize) -> (param: ParamMut<'_>)
        ensures
            index != 0 ==> final(self).x == old(self).x,
            index != 1 ==> final(self).y == old(self).y,
            index != 2 ==> final(self).z == old(self).z,
    {
        match index {
            0 => ParamMut::new(&mut self.x),
            1 => ParamMut::new(&mut self.y),
            2 => ParamMut::new(&mut self.z),
            _ => unreached(),
        }
    }
}

impl<P: RangedParam> ParamHolder for ParamSet2d<P> {
    open spec fn genes(&self) -> Seq<Gene> {
        seq![self.x.gene(), self.y.gene()]
    }

    fn param_count(&self) -> (count: usize)
        ensures
            count == 2,
    {
        2
    }

    /// Index 0 is `x` and 1 is `y`. No other index is taken: none wraps
    /// around. The component that was not asked for stays as it is.
    fn get_param(&mut self, index: usize) -> (param: ParamMut<'_>)
        ensures
            index != 0 ==> final(self).x == old(self).x,
            index != 1 ==> final(self).y == old(self).y,
    {
        match index {
            0 => ParamMut::new(&mut self.x),
            1 => ParamMut::new(&mut self.y),
            _ => unreached(),
        }
    }
}

impl<P: RangedParam> ParamSet3d<P> {
    /// Creates a new parameter set with the given values.
    pub fn new(x: P, y: P, z: P) -> (set: Self)
        ensures
            set.x == x,
            set.y == y,
            set.z == z,
    {
        Self { x, y, z }
    }

    /// Returns a tuple that contains each parameter, scaled with
    /// [`get_scaled`](RangedParam::get_scaled).
    pub fn components_scaled(&self) -> (scaled: (Param, Param, Param))
        ensures
            scaled.0 == self.x.gene().scaled(),
            scaled.1 == self.y.gene().scaled(),
            scaled.2 == self.z.gene().scaled(),
    {
        (self.x.get_scaled(), self.y.get_scaled(), self.z.get_scaled())
    }
}

impl<P: RangedParam> ParamSet2d<P> {
    /// Creates a new parameter set with the given values.
    pub fn new(x: P, y: P) -> (set: Self)
        ensures
            set.x == x,
            set.y == y,
    {
        Self { x, y }
    }

    /// Returns a tuple that contains each parameter, scaled with
    /// [`get_scaled`](RangedParam::get_scaled).
    pub fn components_scaled(&self) -> (scaled: (Param, Param))
        ensures
            scaled.0 == self.x.gene().scaled(),
            scaled.1 == self.y.gene().scaled(),
    {
        (self.x.get_scaled(), self.y.get_scaled())
    }
}

} // verus!
