//! The constraint system: variables in allocation order and rank-1
//! constraints over them.

use crate::field::{modulus, Fr};
use crate::lc::{all_known, known_values, Assignment, LcSpec, LinearCombination, Variable};
use vstd::prelude::*;

verus! {

/// Whether a constraint system only records structure or also carries the
/// values of its variables.
#[derive(Clone, Copy, Debug, PartialEq, Eq, Structural)]
pub enum Mode {
    /// Structure only: values are neither asked for nor kept.
    Shape,
    /// Every variable is allocated with its value.
    Witness,
}

/// Why a step of circuit synthesis was refused.
#[derive(Clone, Copy, Debug, PartialEq, Eq, Structural)]
pub enum SynthesisError {
    /// A value was needed and not supplied.
    AssignmentMissing,
    /// A constraint names a variable that the system has not allocated.
    ShapeMismatch,
    /// The system is frozen and takes no more variables or constraints.
    SystemFrozen,
}

/// A rank-1 constraint `a * b = c`.
#[derive(Debug)]
pub struct Constraint {
    pub a: LinearCombination,
    pub b: LinearCombination,
    pub c: LinearCombination,
}

/// The mathematical content of a [`Constraint`].
pub struct ConstraintSpec {
    pub a: LcSpec,
    pub b: LcSpec,
    pub c: LcSpec,
}

impl ConstraintSpec {
    /// Every variable that occurs is within the given counts.
    pub open spec fn within(self, num_public: nat, num_private: nat) -> bool {
        &&& self.a.within(num_public, num_private)
        &&& self.b.within(num_public, num_private)
        &&& self.c.within(num_public, num_private)
    }

    /// Whether `a * b = c` holds in the field under the given values.
    pub open spec fn satisfied(self, values: Assignment) -> bool {
        (self.a.eval(values) * self.b.eval(values)) % modulus() == self.c.eval(values)
    }
}

impl View for Constraint {
    type V = ConstraintSpec;

    open spec fn view(&self) -> ConstraintSpec {
        ConstraintSpec { a: self.a@, b: self.b@, c: self.c@ }
    }
}

impl Clone for Constraint {
    fn clone(&self) -> (r: Constraint)
        ensures
            r@ == self@,
    {
        Constraint { a: self.a.clone(), b: self.b.clone(), c: self.c.clone() }
    }
}

/// The mathematical content of a sequence of values.
pub open spec fn values_spec(values: Seq<Option<Fr>>) -> Seq<Option<nat>> {
    Seq::new(
        values.len(),
        |i: int|
            match values[i] {
                Some(x) => Some(x.value()),
                None => None,
            },
    )
}

/// The mathematical content of a sequence of constraints.
pub open spec fn constraints_spec(constraints: Seq<Constraint>) -> Seq<ConstraintSpec> {
    Seq::new(constraints.len(), |i: int| constraints[i]@)
}

/// The numbers held by a sequence of values, an unknown value counting as 0.
pub open spec fn numbers(values: Seq<Option<nat>>) -> Seq<nat> {
    Seq::new(
        values.len(),
        |i: int|
            match values[i] {
                Some(x) => x,
                None => 0,
            },
    )
}

/// What a circuit's structure consists of: how many variables of each tag
/// there are, and the constraints in the order in which they were emitted.
pub struct Shape {
    pub num_public: nat,
    pub num_private: nat,
    pub constraints: Seq<ConstraintSpec>,
}

/// The mathematical content of a [`ConstraintSystem`].
pub struct SystemSpec {
    pub mode: Mode,
    pub frozen: bool,
    /// The values of the public variables, in allocation order.
    pub public: Seq<Option<nat>>,
    /// The values of the private variables, in allocation order.
    pub private: Seq<Option<nat>>,
    pub constraints: Seq<ConstraintSpec>,
}

impl SystemSpec {
    /// The empty system.
    pub open spec fn empty(mode: Mode) -> SystemSpec {
        SystemSpec {
            mode,
            frozen: false,
            public: Seq::empty(),
            private: Seq::empty(),
            constraints: Seq::empty(),
        }
    }

    /// In witness mode every variable has a value, in shape mode none has;
    /// the constraints name allocated variables only; and the variables can
    /// be counted in a `usize`.
    pub open spec fn wf(self) -> bool {
        &&& self.public.len() <= usize::MAX
        &&& self.private.len() <= usize::MAX
        &&& forall|i: int|
            0 <= i < self.public.len() ==> ((#[trigger] self.public[i]) is Some <==> self.mode
                == Mode::Witness)
        &&& forall|i: int|
            0 <= i < self.private.len() ==> ((#[trigger] self.private[i]) is Some <==> self.mode
                == Mode::Witness)
        &&& forall|i: int|
            0 <= i < self.constraints.len() ==> (#[trigger] self.constraints[i]).within(
                self.public.len(),
                self.private.len(),
            )
    }

    /// Whether the system has allocated `v`.
    pub open spec fn owns(self, v: Variable) -> bool {
        v.within(self.public.len(), self.private.len())
    }

    /// What the system keeps as the value of `v`.
    pub open spec fn slot(self, v: Variable) -> Option<nat>
        recommends
            self.owns(v),
    {
        match v {
            Variable::Public(i) => self.public[i as int],
            Variable::Private(i) => self.private[i as int],
        }
    }

    /// The structure of the system, without the values.
    pub open spec fn shape(self) -> Shape {
        Shape {
            num_public: self.public.len(),
            num_private: self.private.len(),
            constraints: self.constraints,
        }
    }

    /// The values of the variables.
    pub open spec fn values(self) -> Assignment {
        Assignment { public: numbers(self.public), private: numbers(self.private) }
    }

    /// Whether the values of the variables satisfy every constraint.
    pub open spec fn satisfied(self) -> bool {
        forall|i: int|
            0 <= i < self.constraints.len() ==> (#[trigger] self.constraints[i]).satisfied(
                self.values(),
            )
    }

    /// The value that is kept for a variable allocated with `value`.
    pub open spec fn kept(self, value: Option<nat>) -> Option<nat> {
        if self.mode == Mode::Witness {
            value
        } else {
            None
        }
    }

    /// Why an allocation with `value` is refused, if it is.
    pub open spec fn alloc_error(self, value: Option<nat>) -> Option<SynthesisError> {
        if self.frozen {
            Some(SynthesisError::SystemFrozen)
        } else if self.mode == Mode::Witness && value is None {
            Some(SynthesisError::AssignmentMissing)
        } else {
            None
        }
    }

    /// The system with one more public variable.
    pub open spec fn with_public(self, value: Option<nat>) -> SystemSpec {
        SystemSpec { public: self.public.push(self.kept(value)), ..self }
    }

    /// The system with one more private variable.
    pub open spec fn with_private(self, value: Option<nat>) -> SystemSpec {
        SystemSpec { private: self.private.push(self.kept(value)), ..self }
    }

    /// Why a constraint is refused, if it is.
    pub open spec fn enforce_error(self, constraint: ConstraintSpec) -> Option<SynthesisError> {
        if self.frozen {
            Some(SynthesisError::SystemFrozen)
        } else if !constraint.within(self.public.len(), self.private.len()) {
            Some(SynthesisError::ShapeMismatch)
        } else {
            None
        }
    }

    /// The system with one more constraint.
    pub open spec fn with_constraint(self, constraint: ConstraintSpec) -> SystemSpec {
        SystemSpec { constraints: self.constraints.push(constraint), ..self }
    }
}

/// A constraint system under construction or, once frozen, complete.
#[derive(Debug)]
pub struct ConstraintSystem {
    mode: Mode,
    frozen: bool,
    public: Vec<Option<Fr>>,
    private: Vec<Option<Fr>>,
    constraints: Vec<Constraint>,
}

impl View for ConstraintSystem {
    type V = SystemSpec;

    closed spec fn view(&self) -> SystemSpec {
        SystemSpec {
            mode: self.mode,
            frozen: self.frozen,
            public: values_spec(self.public@),
            private: values_spec(self.private@),
            constraints: constraints_spec(self.constraints@),
        }
    }
}

impl ConstraintSystem {
    /// The validity of a constraint system: see [`SystemSpec::wf`].
    pub open spec fn wf(&self) -> bool {
        self@.wf()
    }

    /// An empty system in the given mode.
    pub fn new(mode: Mode) -> (cs: ConstraintSystem)
        ensures
            cs.wf(),
            cs@ == SystemSpec::empty(mode),
    {
        let cs = ConstraintSystem {
            mode,
            frozen: false,
            public: Vec::new(),
            private: Vec::new(),
            constraints: Vec::new(),
        };
        assert(cs@.public =~= Seq::empty());
        assert(cs@.private =~= Seq::empty());
        assert(cs@.constraints =~= Seq::empty());
        cs
    }

    /// The mode the system was made in.
    pub fn mode(&self) -> (m: Mode)
        ensures
            m == self@.mode,
    {
        self.mode
    }

    /// Whether the system is frozen.
    pub fn is_frozen(&self) -> (b: bool)
        ensures
            b == self@.frozen,
    {
        self.frozen
    }

    /// The number of public variables.
    pub fn num_public(&self) -> (n: usize)
        ensures
            n == self@.public.len(),
    {
        self.public.len()
    }

    /// The number of private variables.
    pub fn num_private(&self) -> (n: usize)
        ensures
            n == self@.private.len(),
    {
        self.private.len()
    }

    /// The number of constraints.
    pub fn num_constraints(&self) -> (n: usize)
        ensures
            n == self@.constraints.len(),
    {
        self.constraints.len()
    }

    /// Allocates a public variable. In witness mode the value is required
    /// and kept; in shape mode it is not looked at.
    pub fn alloc_public(&mut self, value: Option<Fr>) -> (r: Result<Variable, SynthesisError>)
        requires
            old(self).wf(),
        ensures
            final(self).wf(),
            match old(self)@.alloc_error(value_spec(value)) {
                Some(e) => r == Err::<Variable, SynthesisError>(e) && final(self)@ == old(self)@,
                None => r == Ok::<Variable, SynthesisError>(
                    Variable::Public(old(self)@.public.len() as usize),
                ) && final(self)@ == old(self)@.with_public(value_spec(value)),
            },
    {
        if self.frozen {
            return Err(SynthesisError::SystemFrozen);
        }
        let kept = match self.mode {
            Mode::Witness => {
                if value.is_none() {
                    return Err(SynthesisError::AssignmentMissing);
                }
                value
            },
            Mode::Shape => None,
        };
        let index = self.public.len();
        self.public.push(kept);
        proof {
            assert(self.public.len() == self.public@.len());
            assert(final(self)@.public =~= old(self)@.with_public(value_spec(value)).public);
        }
        Ok(Variable::Public(index))
    }

    /// Allocates a private variable. In witness mode the value is required
    /// and kept; in shape mode it is not looked at.
    pub fn alloc_private(&mut self, value: Option<Fr>) -> (r: Result<Variable, SynthesisError>)
        requires
            old(self).wf(),
        ensures
            final(self).wf(),
            match old(self)@.alloc_error(value_spec(value)) {
                Some(e) => r == Err::<Variable, SynthesisError>(e) && final(self)@ == old(self)@,
                None => r == Ok::<Variable, SynthesisError>(
                    Variable::Private(old(self)@.private.len() as usize),
                ) && final(self)@ == old(self)@.with_private(value_spec(value)),
            },
    {
        if self.frozen {
            return Err(SynthesisError::SystemFrozen);
        }
        let kept = match self.mode {
            Mode::Witness => {
                if value.is_none() {
                    return Err(SynthesisError::AssignmentMissing);
                }
                value
            },
            Mode::Shape => None,
        };
        let index = self.private.len();
        self.private.push(kept);
        proof {
            assert(self.private.len() == self.private@.len());
            assert(final(self)@.private =~= old(self)@.with_private(value_spec(value)).private);
        }
        Ok(Variable::Private(index))
    }

    /// Adds the constraint `a * b = c`.
    pub fn enforce(
        &mut self,
        a: LinearCombination,
        b: LinearCombination,
        c: LinearCombination,
    ) -> (r: Result<(), SynthesisError>)
        requires
            old(self).wf(),
        ensures
            final(self).wf(),
            match old(self)@.enforce_error(ConstraintSpec { a: a@, b: b@, c: c@ }) {
                Some(e) => r == Err::<(), SynthesisError>(e) && final(self)@ == old(self)@,
                None => r == Ok::<(), SynthesisError>(()) && final(self)@ == old(
                    self,
                )@.with_constraint(ConstraintSpec { a: a@, b: b@, c: c@ }),
            },
    {
        if self.frozen {
            return Err(SynthesisError::SystemFrozen);
        }
        let np = self.public.len();
        let nv = self.private.len();
        if !(a.fits(np, nv) && b.fits(np, nv) && c.fits(np, nv)) {
            return Err(SynthesisError::ShapeMismatch);
        }
        let ghost constraint = ConstraintSpec { a: a@, b: b@, c: c@ };
        self.constraints.push(Constraint { a, b, c });
        proof {
            assert(final(self)@.constraints =~= old(self)@.with_constraint(
                constraint,
            ).constraints);
        }
        Ok(())
    }

    /// Freezes the system: from now on it takes no variables or constraints.
    pub fn freeze(&mut self)
        requires
            old(self).wf(),
        ensures
            final(self).wf(),
            final(self)@ == (SystemSpec { frozen: true, ..old(self)@ }),
    {
        self.frozen = true;
    }

    /// Whether the system has allocated `v`.
    pub fn owns(&self, v: Variable) -> (b: bool)
        ensures
            b == self@.owns(v),
    {
        match v {
            Variable::Public(i) => i < self.public.len(),
            Variable::Private(i) => i < self.private.len(),
        }
    }

    /// What the system keeps as the value of `v`.
    pub fn value(&self, v: Variable) -> (r: Option<Fr>)
        requires
            self@.owns(v),
        ensures
            value_spec(r) == self@.slot(v),
    {
        match v {
            Variable::Public(i) => self.public[i],
            Variable::Private(i) => self.private[i],
        }
    }

    /// The constraint at place `i`.
    pub fn constraint(&self, i: usize) -> (c: &Constraint)
        requires
            i < self@.constraints.len(),
        ensures
            c@ == self@.constraints[i as int],
    {
        &self.constraints[i]
    }

    /// The value of the public variable at place `i`.
    pub fn public_value(&self, i: usize) -> (v: Option<Fr>)
        requires
            i < self@.public.len(),
        ensures
            value_spec(v) == self@.public[i as int],
    {
        self.public[i]
    }

    /// The value of the private variable at place `i`.
    pub fn private_value(&self, i: usize) -> (v: Option<Fr>)
        requires
            i < self@.private.len(),
        ensures
            value_spec(v) == self@.private[i as int],
    {
        self.private[i]
    }

    /// The place of the first constraint that the values do not satisfy.
    pub fn first_unsatisfied(&self) -> (r: Option<usize>)
        requires
            self.wf(),
            self@.mode == Mode::Witness,
        ensures
            match r {
                Some(i) => i < self@.constraints.len() && !self@.constraints[i as int].satisfied(
                    self@.values(),
                ) && forall|k: int|
                    0 <= k < i ==> (#[trigger] self@.constraints[k]).satisfied(self@.values()),
                None => self@.satisfied(),
            },
    {
        let ghost sys = self@;
        let ghost values = sys.values();
        proof {
            assert(all_known(self.public@)) by {
                assert forall|k: int| 0 <= k < self.public@.len() implies (
                #[trigger] self.public@[k]) is Some by {
                    assert(sys.public[k] is Some);
                }
            }
            assert(all_known(self.private@)) by {
                assert forall|k: int| 0 <= k < self.private@.len() implies (
                #[trigger] self.private@[k]) is Some by {
                    assert(sys.private[k] is Some);
                }
            }
            assert(values.public =~= known_values(self.public@));
            assert(values.private =~= known_values(self.private@));
        }
        let mut i: usize = 0;
        while i < self.constraints.len()
            invariant
                i <= self.constraints.len(),
                sys == self@,
                sys.wf(),
                sys.constraints.len() == self.constraints.len(),
                values == sys.values(),
                values == (Assignment {
                    public: known_values(self.public@),
                    private: known_values(self.private@),
                }),
                all_known(self.public@),
                all_known(self.private@),
                sys.public.len() == self.public@.len(),
                sys.private.len() == self.private@.len(),
                forall|k: int| 0 <= k < i ==> (#[trigger] sys.constraints[k]).satisfied(values),
            decreases self.constraints.len() - i,
        {
            let c = &self.constraints[i];
            assert(sys.constraints[i as int] == c@);
            assert(sys.constraints[i as int].within(sys.public.len(), sys.private.len()));
            let a = c.a.evaluate(&self.public, &self.private);
            let b = c.b.evaluate(&self.public, &self.private);
            let right = c.c.evaluate(&self.public, &self.private);
            let left = a.mul(&b);
            if !(left == right) {
                proof {
                    if left.value() == right.value() {
                        left.lemma_value_injective(right);
                    }
                }
                return Some(i);
            }
            i += 1;
        }
        None
    }

    /// Whether the values of the variables satisfy every constraint.
    pub fn is_satisfied(&self) -> (b: bool)
        requires
            self.wf(),
            self@.mode == Mode::Witness,
        ensures
            b == self@.satisfied(),
    {
        self.first_unsatisfied().is_none()
    }

    /// The values of the public variables, in allocation order.
    pub fn public_inputs(&self) -> (inputs: Vec<Fr>)
        requires
            self.wf(),
            self@.mode == Mode::Witness,
        ensures
            crate::field::values(inputs@) == self@.values().public,
    {
        proof {
            assert forall|k: int| 0 <= k < self.public@.len() implies (
            #[trigger] self.public@[k]) is Some by {
                assert(self@.public[k] is Some);
            }
            assert(self@.values().public =~= known_values(self.public@));
        }
        known(&self.public)
    }

    /// The values of the private variables, in allocation order.
    pub fn witness(&self) -> (witness: Vec<Fr>)
        requires
            self.wf(),
            self@.mode == Mode::Witness,
        ensures
            crate::field::values(witness@) == self@.values().private,
    {
        proof {
            assert forall|k: int| 0 <= k < self.private@.len() implies (
            #[trigger] self.private@[k]) is Some by {
                assert(self@.private[k] is Some);
            }
            assert(self@.values().private =~= known_values(self.private@));
        }
        known(&self.private)
    }
}

/// The values of a sequence in which every value is known.
fn known(values: &Vec<Option<Fr>>) -> (r: Vec<Fr>)
    requires
        all_known(values@),
    ensures
        crate::field::values(r@) == known_values(values@),
{
    let mut r: Vec<Fr> = Vec::new();
    let mut i: usize = 0;
    while i < values.len()
        invariant
            i <= values.len(),
            all_known(values@),
            r@.len() == i,
            forall|k: int| 0 <= k < i ==> (#[trigger] r@[k]).value() == known_values(values@)[k],
        decreases values.len() - i,
    {
        assert(values@[i as int] is Some);
        let v = values[i].unwrap();
        r.push(v);
        i += 1;
    }
    assert(crate::field::values(r@) =~= known_values(values@));
    r
}

/// The mathematical content of an optional value.
pub open spec fn value_spec(value: Option<Fr>) -> Option<nat> {
    match value {
        Some(x) => Some(x.value()),
        None => None,
    }
}

} // verus!
