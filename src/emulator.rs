use vstd::prelude::*;

use crate::gates::{cnot, flipped_if, not_gate, swapped};
use crate::qubit::Qubit;

verus! {

/// Why a register operation was rejected.
#[derive(Clone, Copy, Debug, PartialEq, Eq, Structural)]
pub enum EmulatorError {
    /// The index (the first offending one, for two-unit operations) is not
    /// below the register's length.
    IndexOutOfRange(usize),
    /// A controlled operation named the same unit as control and target.
    InvalidControlTarget,
}

/// A fixed-length register of units, addressed by index `0..len`.
pub struct QuantumEmulator<A> {
    qubits: Vec<Qubit<A>>,
}

impl<A: Copy> View for QuantumEmulator<A> {
    type V = Seq<Qubit<A>>;

    closed spec fn view(&self) -> Seq<Qubit<A>> {
        self.qubits@
    }
}

/// The error owed to a single-unit operation on `index`, if any.
pub open spec fn index_check(len: nat, index: usize) -> Option<EmulatorError> {
    if index < len {
        None
    } else {
        Some(EmulatorError::IndexOutOfRange(index))
    }
}

/// The error owed to a controlled operation, if any: an index out of range
/// (the control's first), then a control equal to its target.
pub open spec fn control_target_check(len: nat, control: usize, target: usize) -> Option<
    EmulatorError,
> {
    if control >= len {
        Some(EmulatorError::IndexOutOfRange(control))
    } else if target >= len {
        Some(EmulatorError::IndexOutOfRange(target))
    } else if control == target {
        Some(EmulatorError::InvalidControlTarget)
    } else {
        None
    }
}

/// Flipping the same unit of a register twice gives back the register exactly.
pub proof fn lemma_apply_not_twice<A>(units: Seq<Qubit<A>>, index: int)
    requires
        0 <= index < units.len(),
    ensures
        ({
            let once = units.update(index, swapped(units[index]));
            once.update(index, swapped(once[index]))
        }) == units,
{
    let once = units.update(index, swapped(units[index]));
    assert(once.update(index, swapped(once[index])) =~= units);
}

impl<A: Copy> QuantumEmulator<A> {
    /// A register of `num_qubits` units, each equal to `ground`.
    pub fn new(num_qubits: usize, ground: Qubit<A>) -> (r: Self)
        ensures
            r@ == Seq::new(num_qubits as nat, |i: int| ground),
    {
        let mut qubits: Vec<Qubit<A>> = Vec::new();
        let mut i: usize = 0;
        while i < num_qubits
            invariant
                i <= num_qubits,
                qubits@ == Seq::new(i as nat, |j: int| ground),
            decreases num_qubits - i,
        {
            qubits.push(ground);
            i = i + 1;
            assert(qubits@ =~= Seq::new(i as nat, |j: int| ground));
        }
        QuantumEmulator { qubits }
    }

    /// The number of units.
    pub fn get_num_qubits(&self) -> (n: usize)
        ensures
            n == self@.len(),
    {
        self.qubits.len()
    }

    /// Applies `gate` to the unit at `index`, leaving every other unit as it was.
    pub fn apply_gate<F: Fn(Qubit<A>) -> Qubit<A>>(&mut self, index: usize, gate: F) -> (r: Result<
        (),
        EmulatorError,
    >)
        requires
            forall|q: Qubit<A>| #[trigger] gate.requires((q,)),
        ensures
            r is Ok <==> index < old(self)@.len(),
            match index_check(old(self)@.len(), index) {
                Some(e) => r == Err::<(), EmulatorError>(e) && final(self)@ == old(self)@,
                None => r is Ok && final(self)@ == old(self)@.update(index as int, final(self)@[index as int])
                    && gate.ensures((old(self)@[index as int],), final(self)@[index as int]),
            },
    {
        if index >= self.qubits.len() {
            return Err(EmulatorError::IndexOutOfRange(index));
        }
        let q = gate(self.qubits[index]);
        self.qubits.set(index, q);
        Ok(())
    }

    /// Flips the unit at `index`.
    pub fn apply_not(&mut self, index: usize) -> (r: Result<(), EmulatorError>)
        ensures
            r is Ok <==> index < old(self)@.len(),
            match index_check(old(self)@.len(), index) {
                Some(e) => r == Err::<(), EmulatorError>(e) && final(self)@ == old(self)@,
                None => r is Ok && final(self)@ == old(self)@.update(
                    index as int,
                    swapped(old(self)@[index as int]),
                ),
            },
    {
        if index >= self.qubits.len() {
            return Err(EmulatorError::IndexOutOfRange(index));
        }
        let mut q = self.qubits[index];
        not_gate(&mut q);
        self.qubits.set(index, q);
        Ok(())
    }

    /// Controlled flip of `target` by `control`: one fresh `measure` sample of
    /// the control decides whether the target is flipped. The control is
    /// never changed, and a rejected call changes nothing.
    pub fn apply_cnot<F: Fn(Qubit<A>) -> bool>(&mut self, control: usize, target: usize, measure: F) -> (r:
        Result<(), EmulatorError>)
        requires
            forall|q: Qubit<A>| #[trigger] measure.requires((q,)),
        ensures
            r is Ok <==> control < old(self)@.len() && target < old(self)@.len() && control != target,
            control == target && control < old(self)@.len() ==> r == Err::<(), EmulatorError>(
                EmulatorError::InvalidControlTarget,
            ),
            final(self)@.len() == old(self)@.len(),
            control < old(self)@.len() ==> final(self)@[control as int] == old(self)@[control as int],
            match control_target_check(old(self)@.len(), control, target) {
                Some(e) => r == Err::<(), EmulatorError>(e) && final(self)@ == old(self)@,
                None => r is Ok && exists|fired: bool|
                    #[trigger] measure.ensures((old(self)@[control as int],), fired)
                        && final(self)@ == old(self)@.update(
                        target as int,
                        flipped_if(fired, old(self)@[target as int]),
                    ),
            },
    {
        if control >= self.qubits.len() {
            return Err(EmulatorError::IndexOutOfRange(control));
        }
        if target >= self.qubits.len() {
            return Err(EmulatorError::IndexOutOfRange(target));
        }
        if control == target {
            return Err(EmulatorError::InvalidControlTarget);
        }
        let control_qubit = self.qubits[control];
        let mut target_qubit = self.qubits[target];
        cnot(&control_qubit, &mut target_qubit, measure);
        self.qubits.set(target, target_qubit);
        Ok(())
    }

    /// One `measure` sample of the unit at `index`; the register is unchanged.
    pub fn measure<F: Fn(Qubit<A>) -> bool>(&self, index: usize, measure: F) -> (r: Result<bool, EmulatorError>)
        requires
            forall|q: Qubit<A>| #[trigger] measure.requires((q,)),
        ensures
            r is Ok <==> index < self@.len(),
            match index_check(self@.len(), index) {
                Some(e) => r == Err::<bool, EmulatorError>(e),
                None => r is Ok && measure.ensures((self@[index as int],), r->Ok_0),
            },
    {
        if index >= self.qubits.len() {
            return Err(EmulatorError::IndexOutOfRange(index));
        }
        Ok(measure(self.qubits[index]))
    }

    /// One independent `measure` sample of every unit, in index order.
    pub fn measure_all<F: Fn(Qubit<A>) -> bool>(&self, measure: F) -> (r: Vec<bool>)
        requires
            forall|q: Qubit<A>| #[trigger] measure.requires((q,)),
        ensures
            r@.len() == self@.len(),
            forall|i: int| 0 <= i < self@.len() ==> measure.ensures((self@[i],), #[trigger] r@[i]),
    {
        let mut out: Vec<bool> = Vec::new();
        let mut i: usize = 0;
        while i < self.qubits.len()
            invariant
                i <= self@.len(),
                out@.len() == i,
                forall|q: Qubit<A>| #[trigger] measure.requires((q,)),
                forall|j: int| 0 <= j < i ==> measure.ensures((self@[j],), #[trigger] out@[j]),
            decreases self@.len() - i,
        {
            let b = measure(self.qubits[i]);
            out.push(b);
            i = i + 1;
        }
        out
    }

    /// The amplitudes `(alpha, beta)` of the unit at `index`.
    pub fn get_state(&self, index: usize) -> (r: Result<(A, A), EmulatorError>)
        ensures
            r is Ok <==> index < self@.len(),
            match index_check(self@.len(), index) {
                Some(e) => r == Err::<(A, A), EmulatorError>(e),
                None => r == Ok::<(A, A), EmulatorError>(
                    (self@[index as int].alpha, self@[index as int].beta),
                ),
            },
    {
        if index >= self.qubits.len() {
            return Err(EmulatorError::IndexOutOfRange(index));
        }
        let q = self.qubits[index];
        Ok((q.alpha, q.beta))
    }
}

} // verus!
