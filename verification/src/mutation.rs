//! Gene mutation operators.

use crate::{Gene, Param, ParamHolder, ParamMut};
use vstd::prelude::*;

verus! {

/// Produces values to add to an unscaled gene value.
///
/// Keep in mind that the unscaled value is clamped between zero and one unit.
pub trait MutationGen {
    /// The value that `gen` returns after `skipped` further calls of it: with
    /// zero, what the next call returns. An implementation that is to be
    /// verified defines it; left out, it is unspecified.
    open spec fn upcoming(&self, skipped: nat) -> Param {
        arbitrary()
    }

    /// Returns a value that is added to an unscaled gene.
    fn gen(&mut self) -> (offset: Param)
        ensures
            offset == old(self).upcoming(0),
            forall|skipped: nat| #[trigger]
                final(self).upcoming(skipped) == old(self).upcoming(skipped + 1),
    ;
}

/// The genes after each was offset by the value that the generator had for
/// its index: the first value for the first gene, and so on.
pub open spec fn mutated<MG: MutationGen>(genes: Seq<Gene>, mut_gen: MG) -> Seq<Gene> {
    Seq::new(genes.len(), |i: int| genes[i].offset(mut_gen.upcoming(i as nat)))
}

/// However the generator's values fall, mutation leaves as many genes as it
/// found, each with an unscaled value between zero and one unit and with the
/// range it had.
pub proof fn lemma_mutated_clamped<MG: MutationGen>(genes: Seq<Gene>, mut_gen: MG)
    ensures
        mutated(genes, mut_gen).len() == genes.len(),
        forall|i: int|
            0 <= i < genes.len() ==> {
                let gene = #[trigger] mutated(genes, mut_gen)[i];
                gene.clamped() && gene.min == genes[i].min && gene.max == genes[i].max
            },
{
}

/// A generator whose values for these genes are all zero changes none of
/// them, if each has its unscaled value between zero and one unit. (One that
/// starts outside is clamped all the same.)
pub proof fn lemma_zero_offsets_change_nothing<MG: MutationGen>(genes: Seq<Gene>, mut_gen: MG)
    requires
        forall|i: int| 0 <= i < genes.len() ==> (#[trigger] genes[i]).clamped(),
        forall|i: nat| i < genes.len() ==> #[trigger] mut_gen.upcoming(i) == 0,
    ensures
        mutated(genes, mut_gen) == genes,
{
    assert(mutated(genes, mut_gen) =~= genes);
}

/// Mutates the given `ParamHolder` with the given `MutationGen` by iterating
/// through all genes and adding to each the result of calling the mutation
/// generator.
///
/// The genes are taken in the order of their indices, and the generator is
/// called once for each: the gene at index `i` gets the generator's value
/// number `i`, clamped addition leaves every unscaled value between zero and
/// one unit, and the generator is left as one call for each gene leaves it.
/// Where there is no gene, nothing is touched.
pub fn mutate<P: ParamHolder, MG: MutationGen>(param_holder: &mut P, mut_gen: &mut MG)
    ensures
        final(param_holder).genes() == mutated(old(param_holder).genes(), *old(mut_gen)),
        forall|i: int|
            0 <= i < final(param_holder).genes().len()
                ==> #[trigger] final(param_holder).genes()[i].clamped(),
        forall|skipped: nat| #[trigger]
            final(mut_gen).upcoming(skipped) == old(mut_gen).upcoming(
                old(param_holder).genes().len() + skipped,
            ),
        old(param_holder).genes().len() == 0 ==> *final(param_holder) == *old(param_holder)
            && *final(mut_gen) == *old(mut_gen),
{
    let n: usize = param_holder.param_count();

    for i in 0..n
        invariant
            n == old(param_holder).genes().len(),
            param_holder.genes().len() == n,
            forall|j: int|
                0 <= j < i ==> #[trigger] param_holder.genes()[j]
                    == old(param_holder).genes()[j].offset(old(mut_gen).upcoming(j as nat)),
            forall|j: int|
                i <= j < n ==> #[trigger] param_holder.genes()[j] == old(param_holder).genes()[j],
            forall|skipped: nat| #[trigger]
                mut_gen.upcoming(skipped) == old(mut_gen).upcoming(i as nat + skipped),
            n == 0 ==> *param_holder == *old(param_holder) && *mut_gen == *old(mut_gen),
    {
        let mut p: ParamMut<'_> = param_holder.get_param(i);
        p.add_assign(mut_gen.gen());
    }
    assert(param_holder.genes() =~= mutated(old(param_holder).genes(), *old(mut_gen)));
}

} // verus!
