use vstd::prelude::*;

use crate::qubit::Qubit;

verus! {

/// The unit with its two amplitudes exchanged.
pub open spec fn swapped<A>(q: Qubit<A>) -> Qubit<A> {
    Qubit { alpha: q.beta, beta: q.alpha }
}

/// What a controlled flip may leave in the target: the target flipped when
/// `fired`, unchanged otherwise.
pub open spec fn flipped_if<A>(fired: bool, target: Qubit<A>) -> Qubit<A> {
    if fired {
        swapped(target)
    } else {
        target
    }
}

/// Bit flip: exchanges the two amplitudes.
pub fn not_gate<A: Copy>(qubit: &mut Qubit<A>)
    ensures
        *final(qubit) == swapped(*old(qubit)),
{
    let a = qubit.alpha;
    qubit.alpha = qubit.beta;
    qubit.beta = a;
}

/// Controlled flip: samples `measure` once on the control and flips the
/// target exactly when that sample comes out as outcome 1. Nothing about the
/// control is stored or changed.
pub fn cnot<A: Copy, F: Fn(Qubit<A>) -> bool>(control: &Qubit<A>, target: &mut Qubit<A>, measure: F)
    requires
        measure.requires((*control,)),
    ensures
        exists|fired: bool|
            #[trigger] measure.ensures((*control,), fired) && *final(target) == flipped_if(
                fired,
                *old(target),
            ),
{
    let fired = measure(*control);
    if fired {
        not_gate(target);
    }
}

/// Applying the bit flip twice gives back the original amplitudes exactly.
pub proof fn lemma_not_involution<A>(q: Qubit<A>)
    ensures
        swapped(swapped(q)) == q,
{
}

} // verus!
