//! Access to the genotype of an individual, and its modification in place.
//!
//! Independent of the phenotype, genes remain between zero and one, and can
//! be indexed, iterated or modified in place. In the phenotype a gene is
//! scaled to the range of its type.
//!
//! Numbers are fixed-point: a [`Param`] counts steps of one part in [`UNIT`],
//! so one is `UNIT`, a half is `UNIT / 2`, and every contract here is a
//! statement about integers.
//!
//! - [`RangedParam`] is a single gene, [`ParamHolder`] an entity with genes.
//! - [`ParamMut`] is what a holder hands out for an index: a gene of any
//!   type, borrowed, with the clamped addition that mutation is made of.
//! - [`Gene`] is what the contracts say a gene is.
//! - [`mutation`] mutates a holder, and [`param_set`] holds ready-made
//!   holders of two and three genes.

use vstd::prelude::*;

pub mod mutation;
pub mod param_set;

verus! {

/// The type of a single gene: a fixed-point number, in steps of `1 / UNIT`.
pub type Param = i64;

/// The number one as a [`Param`]: the upper end of every unscaled value.
pub const UNIT: Param = 1_000_000_000;

/// The value nearest to `v` between zero and one unit.
pub open spec fn clamp_unit(v: int) -> Param {
    if v < 0 {
        0
    } else if v > UNIT {
        UNIT
    } else {
        v as Param
    }
}

/// The value nearest to `v` that a [`Param`] can hold.
pub open spec fn saturate(v: int) -> Param {
    if v < Param::MIN {
        Param::MIN
    } else if v > Param::MAX {
        Param::MAX
    } else {
        v as Param
    }
}

/// The point of the range from `min` to `max` that lies `unscaled` parts in
/// `UNIT` of the way from `min`, rounded down to a whole step.
pub open spec fn scale(min: int, max: int, unscaled: int) -> int {
    min + ((max - min) * unscaled) / (UNIT as int)
}

/// What a gene is to the contracts: its unscaled value and the range it is
/// scaled to.
pub struct Gene {
    pub unscaled: Param,
    pub min: Param,
    pub max: Param,
}

impl Gene {
    /// Whether the unscaled value lies between zero and one unit.
    pub open spec fn clamped(self) -> bool {
        0 <= self.unscaled <= UNIT
    }

    /// The gene after `rhs` was added to its unscaled value and the sum
    /// clamped. The range stays.
    pub open spec fn offset(self, rhs: Param) -> Gene {
        Gene { unscaled: clamp_unit(self.unscaled + rhs), ..self }
    }

    /// The gene with another unscaled value.
    pub open spec fn with_unscaled(self, unscaled: Param) -> Gene {
        Gene { unscaled, ..self }
    }

    /// The value in the phenotype: the unscaled value scaled to the range.
    /// Nothing is clamped here, so a value outside zero to one lands outside
    /// the range, and one too large for a [`Param`] on the nearest that fits.
    pub open spec fn scaled(self) -> Param {
        saturate(scale(self.min as int, self.max as int, self.unscaled as int))
    }

    /// Whatever is added to a gene, its unscaled value then lies between zero
    /// and one unit, and its range is what it was.
    pub proof fn lemma_offset_clamped(self, rhs: Param)
        ensures
            self.offset(rhs).clamped(),
            self.offset(rhs).min == self.min,
            self.offset(rhs).max == self.max,
    {
    }

    /// Adding zero to a gene whose unscaled value lies between zero and one
    /// unit leaves the gene as it is.
    pub proof fn lemma_offset_zero(self)
        requires
            self.clamped(),
        ensures
            self.offset(0) == self,
    {
    }

    /// A gene at zero scales to the lower end of its range, a gene at one unit
    /// to the upper end.
    pub proof fn lemma_scaled_ends(self)
        ensures
            self.unscaled == 0 ==> self.scaled() == self.min,
            self.unscaled == UNIT ==> self.scaled() == self.max,
    {
    }

    /// The scaled value of a gene between zero and one unit is the scaling
    /// formula's own result, which lies between the ends of the range, in
    /// whichever order they stand.
    pub proof fn lemma_scaled_in_range(self)
        requires
            self.clamped(),
        ensures
            self.scaled() == scale(self.min as int, self.max as int, self.unscaled as int),
            self.min <= self.max ==> self.min <= self.scaled() <= self.max,
            self.max <= self.min ==> self.max <= self.scaled() <= self.min,
    {
        lemma_scale_between(self.min as int, self.max as int, self.unscaled as int);
    }
}

/// The scaling formula is exact but for the rounding: the step it returns is
/// the last one that the exact product reaches.
pub proof fn lemma_scale_exact(min: int, max: int, unscaled: int)
    ensures
        UNIT * (scale(min, max, unscaled) - min) <= (max - min) * unscaled,
        (max - min) * unscaled < UNIT * (scale(min, max, unscaled) - min) + UNIT,
{
}

/// Between zero and one unit the scaling formula stays between `min` and
/// `max`, in whichever order they stand.
pub proof fn lemma_scale_between(min: int, max: int, unscaled: int)
    requires
        0 <= unscaled <= UNIT,
    ensures
        min <= max ==> min <= scale(min, max, unscaled) <= max,
        max <= min ==> max <= scale(min, max, unscaled) <= min,
{
    let span: int = max - min;
    let product: int = span * unscaled;
    assert(span >= 0 ==> 0 <= product <= span * UNIT) by (nonlinear_arith)
        requires
            product == span * unscaled,
            0 <= unscaled <= UNIT,
    ;
    assert(span <= 0 ==> span * UNIT <= product <= 0) by (nonlinear_arith)
        requires
            product == span * unscaled,
            0 <= unscaled <= UNIT,
    ;
}

/// Computes [`Gene::scaled`] for the given range and unscaled value.
fn scale_value(min: Param, max: Param, unscaled: Param) -> (scaled: Param)
    ensures
        scaled == saturate(scale(min as int, max as int, unscaled as int)),
{
    let span: i128 = max as i128 - min as i128;
    assert(-0x8000_0000_0000_0000_0000_0000_0000_0000 < span * unscaled
        < 0x8000_0000_0000_0000_0000_0000_0000_0000) by (nonlinear_arith)
        requires
            -0x1_0000_0000_0000_0000 < span < 0x1_0000_0000_0000_0000,
            -0x8000_0000_0000_0000 <= unscaled < 0x8000_0000_0000_0000,
    ;
    let product: i128 = span * (unscaled as i128);
    let steps: i128 = product.checked_div_euclid(UNIT as i128).unwrap();
    let exact: i128 = min as i128 + steps;
    if exact < Param::MIN as i128 {
        Param::MIN
    } else if exact > Param::MAX as i128 {
        Param::MAX
    } else {
        exact as Param
    }
}

/// Access to a gene: its unscaled value, held between zero and one unit, and
/// its scaled value, the gene expressed in the phenotype.
pub trait RangedParam {
    /// The gene that this parameter is. An implementation that is to be
    /// verified defines it; left out, it is unspecified.
    open spec fn gene(&self) -> Gene {
        arbitrary()
    }

    /// The range of the scaled value, in the form `(min, max)`. For a value
    /// that is the same in the phenotype as in the genotype, return
    /// `(0, UNIT)`.
    fn range(&self) -> (range: (Param, Param))
        ensures
            range.0 == self.gene().min,
            range.1 == self.gene().max,
    ;

    /// Returns the *unscaled* parameter value.
    fn get(&self) -> (unscaled: Param)
        ensures
            unscaled == self.gene().unscaled,
    ;

    /// Returns a mutable reference to the raw parameter value. What is written
    /// through it becomes the unscaled value as it is, clamped or not; the
    /// range stays.
    fn get_mut(&mut self) -> (unscaled: &mut Param)
        ensures
            *unscaled == old(self).gene().unscaled,
            final(self).gene() == old(self).gene().with_unscaled(*final(unscaled)),
    ;

    /// Returns the parameter value scaled to the range returned by
    /// [`range`](RangedParam::range), i.e. the gene expressed in the phenotype.
    fn get_scaled(&self) -> (scaled: Param)
        ensures
            scaled == self.gene().scaled(),
    {
        let range: (Param, Param) = self.range();
        scale_value(range.0, range.1, self.get())
    }
}

/// A gene of any type, borrowed for writing. This is what a holder hands out
/// for an index, whatever the type of the gene there.
pub struct ParamMut<'a> {
    /// The raw value of the borrowed gene.
    pub unscaled: &'a mut Param,
    /// The range of the borrowed gene, in the form `(min, max)`.
    pub range: (Param, Param),
}

impl<'a> ParamMut<'a> {
    /// Borrows `param` as a gene of any type.
    pub fn new<P: RangedParam>(param: &'a mut P) -> (handle: ParamMut<'a>)
        ensures
            handle.gene() == old(param).gene(),
            final(param).gene() == old(param).gene().with_unscaled(*final(handle.unscaled)),
    {
        let range: (Param, Param) = param.range();
        ParamMut { unscaled: param.get_mut(), range }
    }

    /// Adds `rhs` to the unscaled value and clamps the sum between zero and
    /// one unit. The handle goes on borrowing the gene that it borrowed.
    pub fn add_assign(&mut self, rhs: Param)
        ensures
            final(self).gene() == old(self).gene().offset(rhs),
            *final(final(self).unscaled) == *final(old(self).unscaled),
    {
        let sum: i128 = *self.unscaled as i128 + rhs as i128;
        let clamped: Param = if sum < 0 {
            0
        } else if sum > UNIT as i128 {
            UNIT
        } else {
            sum as Param
        };
        *self.unscaled = clamped;
    }
}

impl<'a> RangedParam for ParamMut<'a> {
    open spec fn gene(&self) -> Gene {
        Gene { unscaled: *self.unscaled, min: self.range.0, max: self.range.1 }
    }

    fn range(&self) -> (range: (Param, Param)) {
        self.range
    }

    fn get(&self) -> (unscaled: Param) {
        *self.unscaled
    }

    /// The handle goes on borrowing the gene that it borrowed.
    fn get_mut(&mut self) -> (unscaled: &mut Param)
        ensures
            *final(final(self).unscaled) == *final(old(self).unscaled),
    {
        &mut *self.unscaled
    }
}

/// An entity with multiple parameters, i.e. a chromosome. Its genes are
/// numbered from zero, those of a nested holder in place, one after another.
pub trait ParamHolder {
    /// The genes of this holder, in the order of their indices. An
    /// implementation that is to be verified defines them; left out, they are
    /// unspecified.
    open spec fn genes(&self) -> Seq<Gene> {
        arbitrary()
    }

    /// The number of parameters/genes on this chromosome.
    fn param_count(&self) -> (count: usize)
        ensures
            count == self.genes().len(),
    ;

    /// Returns the gene at the given index, borrowed for writing. What is
    /// written through it is written to that gene and to no other.
    ///
    /// `index` must be below `self.param_count()`: no other index is
    /// answered, with a gene of another index or otherwise.
    fn get_param(&mut self, index: usize) -> (param: ParamMut<'_>)
        requires
            index < old(self).genes().len(),
        ensures
            param.gene() == old(self).genes()[index as int],
            final(self).genes() == old(self).genes().update(
                index as int,
                param.gene().with_unscaled(*final(param.unscaled)),
            ),
    ;

    /// Returns the gene at the given index as [`get_param`](ParamHolder::get_param)
    /// does, and `None` for an index that is not below `self.param_count()`:
    /// no gene stands in for one that is not there.
    fn try_get_param(&mut self, index: usize) -> (param: Option<ParamMut<'_>>)
        ensures
            param.is_some() <==> index < old(self).genes().len(),
            param matches Some(p) ==> p.gene() == old(self).genes()[index as int]
                && final(self).genes() == old(self).genes().update(
                index as int,
                p.gene().with_unscaled(*final(p.unscaled)),
            ),
            param.is_none() ==> final(self).genes() == old(self).genes(),
    {
        if index < self.param_count() {
            Some(self.get_param(index))
        } else {
            None
        }
    }
}

} // verus!
