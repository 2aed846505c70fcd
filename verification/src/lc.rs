//! Variables and linear combinations of them.

use crate::field::{modulus, Fr};
use vstd::arithmetic::div_mod::{
    lemma_add_mod_noop, lemma_add_mod_noop_right, lemma_mod_twice, lemma_mul_mod_noop_left,
    lemma_small_mod,
};
use vstd::prelude::*;

verus! {

/// A handle to a variable of a constraint system.
///
/// The tag says whether the variable is part of the instance (`Public`) or
/// of the witness (`Private`); the number is its place among the variables
/// with the same tag, in the order of allocation.
#[derive(Clone, Copy, Debug, PartialEq, Eq, Structural)]
pub enum Variable {
    Public(usize),
    Private(usize),
}

/// One summand of a linear combination.
#[derive(Clone, Copy, Debug)]
pub struct Term {
    pub variable: Variable,
    pub coefficient: Fr,
}

/// The mathematical content of a [`Term`].
pub struct TermSpec {
    pub variable: Variable,
    pub coefficient: nat,
}

/// Values for the variables of a constraint system: the instance and the
/// witness, each in allocation order.
pub struct Assignment {
    pub public: Seq<nat>,
    pub private: Seq<nat>,
}

impl Variable {
    /// Whether the variable is one of the first `num_public` public or the
    /// first `num_private` private variables.
    pub open spec fn within(self, num_public: nat, num_private: nat) -> bool {
        match self {
            Variable::Public(i) => i < num_public,
            Variable::Private(i) => i < num_private,
        }
    }
}

impl Term {
    /// The mathematical content of the term.
    pub open spec fn spec(self) -> TermSpec {
        TermSpec { variable: self.variable, coefficient: self.coefficient.value() }
    }
}

impl Assignment {
    /// Whether the assignment gives `v` a value.
    pub open spec fn covers(self, v: Variable) -> bool {
        v.within(self.public.len(), self.private.len())
    }

    /// The value given to `v`.
    pub open spec fn value_of(self, v: Variable) -> nat
        recommends
            self.covers(v),
    {
        match v {
            Variable::Public(i) => self.public[i as int],
            Variable::Private(i) => self.private[i as int],
        }
    }
}

/// The numbers held by a sequence of values, an unknown value counting as 0.
pub open spec fn known_values(values: Seq<Option<Fr>>) -> Seq<nat> {
    Seq::new(
        values.len(),
        |i: int|
            match values[i] {
                Some(x) => x.value(),
                None => 0,
            },
    )
}

/// Whether every value of the sequence is known.
pub open spec fn all_known(values: Seq<Option<Fr>>) -> bool {
    forall|i: int| 0 <= i < values.len() ==> (#[trigger] values[i]) is Some
}

/// The sum of `coefficient * value` over the terms, as an integer.
pub open spec fn terms_sum(terms: Seq<TermSpec>, values: Assignment) -> nat
    decreases terms.len(),
{
    if terms.len() == 0 {
        0
    } else {
        terms_sum(terms.drop_last(), values) + terms.last().coefficient * values.value_of(
            terms.last().variable,
        )
    }
}

/// The mathematical content of a sequence of terms.
pub open spec fn terms_spec(terms: Seq<Term>) -> Seq<TermSpec> {
    Seq::new(terms.len(), |i: int| terms[i].spec())
}

/// The mathematical content of a [`LinearCombination`]: its terms in the
/// order in which their variables first appeared, and its constant term.
pub struct LcSpec {
    pub terms: Seq<TermSpec>,
    pub constant: Option<nat>,
}

impl LcSpec {
    /// The combination without terms and without a constant.
    pub open spec fn zero() -> LcSpec {
        LcSpec { terms: Seq::empty(), constant: None }
    }

    /// Whether some term is about `v`.
    pub open spec fn mentions(self, v: Variable) -> bool {
        exists|i: int| 0 <= i < self.terms.len() && self.terms[i].variable == v
    }

    /// The place of a term about `v`.
    pub open spec fn position(self, v: Variable) -> int
        recommends
            self.mentions(v),
    {
        choose|i: int| 0 <= i < self.terms.len() && self.terms[i].variable == v
    }

    /// No variable has two terms.
    pub open spec fn distinct(self) -> bool {
        forall|i: int, j: int|
            0 <= i < j < self.terms.len() ==> self.terms[i].variable != self.terms[j].variable
    }

    /// Every variable that occurs is within the given counts.
    pub open spec fn within(self, num_public: nat, num_private: nat) -> bool {
        forall|i: int|
            0 <= i < self.terms.len() ==> (#[trigger] self.terms[i]).variable.within(
                num_public,
                num_private,
            )
    }

    /// The constant term, zero where there is none.
    pub open spec fn constant_value(self) -> nat {
        match self.constant {
            Some(c) => c,
            None => 0,
        }
    }

    /// The value of the combination in the field.
    pub open spec fn eval(self, values: Assignment) -> nat {
        (self.constant_value() + terms_sum(self.terms, values)) % modulus()
    }

    /// The combination with `coefficient * v` added: the coefficient is
    /// added to that of the term about `v`, or a new term is put at the end.
    pub open spec fn with_term(self, v: Variable, coefficient: nat) -> LcSpec {
        if self.mentions(v) {
            let i = self.position(v);
            LcSpec {
                terms: self.terms.update(
                    i,
                    TermSpec {
                        variable: v,
                        coefficient: (self.terms[i].coefficient + coefficient) % modulus(),
                    },
                ),
                constant: self.constant,
            }
        } else {
            LcSpec {
                terms: self.terms.push(TermSpec { variable: v, coefficient }),
                constant: self.constant,
            }
        }
    }

    /// The combination with `c` added to its constant term.
    pub open spec fn with_constant(self, c: nat) -> LcSpec {
        LcSpec {
            terms: self.terms,
            constant: Some(
                match self.constant {
                    Some(k) => (k + c) % modulus(),
                    None => c,
                },
            ),
        }
    }

    /// The combination that is the constant `c`.
    pub open spec fn of_constant(c: nat) -> LcSpec {
        LcSpec { terms: Seq::empty(), constant: Some(c) }
    }

    /// The combination `1 * v`.
    pub open spec fn of_variable(v: Variable) -> LcSpec {
        LcSpec { terms: seq![TermSpec { variable: v, coefficient: 1 }], constant: None }
    }
}

/// Replacing one term changes the sum by the difference of the two terms.
proof fn lemma_terms_sum_update(terms: Seq<TermSpec>, i: int, t: TermSpec, values: Assignment)
    requires
        0 <= i < terms.len(),
    ensures
        terms_sum(terms.update(i, t), values) + terms[i].coefficient * values.value_of(
            terms[i].variable,
        ) == terms_sum(terms, values) + t.coefficient * values.value_of(t.variable),
    decreases terms.len(),
{
    let after = terms.update(i, t);
    if i == terms.len() - 1 {
        assert(after.drop_last() =~= terms.drop_last());
    } else {
        assert(after.drop_last() =~= terms.drop_last().update(i, t));
        assert(after.last() == terms.last());
        lemma_terms_sum_update(terms.drop_last(), i, t, values);
    }
}

/// What adding a term does to the value of a combination: the term's
/// coefficient times the value of its variable is added, in the field,
/// whether or not the variable had a term before.
pub proof fn law_with_term_adds(lc: LcSpec, v: Variable, coefficient: nat, values: Assignment)
    ensures
        lc.with_term(v, coefficient).eval(values) == (lc.eval(values) + coefficient
            * values.value_of(v)) % modulus(),
{
    let m = modulus() as int;
    let k = lc.constant_value() as int;
    let sum = terms_sum(lc.terms, values) as int;
    let x = values.value_of(v) as int;
    let step = coefficient as int * x;
    let after = lc.with_term(v, coefficient);
    if lc.mentions(v) {
        let i = lc.position(v);
        let old_c = lc.terms[i].coefficient as int;
        let new_c = ((old_c + coefficient) % m);
        lemma_terms_sum_update(
            lc.terms,
            i,
            TermSpec { variable: v, coefficient: new_c as nat },
            values,
        );
        let rest = sum - old_c * x;
        assert(terms_sum(after.terms, values) == rest + new_c * x);
        lemma_mul_mod_noop_left(old_c + coefficient, x, m);
        assert((new_c * x) % m == ((old_c + coefficient) * x) % m);
        lemma_add_mod_noop_right(k + rest, new_c * x, m);
        lemma_add_mod_noop_right(k + rest, (old_c + coefficient) * x, m);
        assert((old_c + coefficient) * x == old_c * x + step) by (nonlinear_arith)
            requires
                step == coefficient as int * x,
        ;
        assert(k + rest + (old_c + coefficient) * x == k + sum + step);
    } else {
        assert(after.terms.drop_last() =~= lc.terms);
        assert(terms_sum(after.terms, values) == sum + step);
    }
    assert(((k + sum) % m + step) % m == (k + sum + step) % m) by {
        lemma_add_mod_noop(k + sum, step, m);
        lemma_add_mod_noop((k + sum) % m, step, m);
        lemma_mod_twice(k + sum, m);
    }
}

/// The value of a combination of one variable.
pub proof fn lemma_eval_variable(v: Variable, values: Assignment)
    ensures
        LcSpec::of_variable(v).eval(values) == values.value_of(v) % modulus(),
{
    let terms = LcSpec::of_variable(v).terms;
    assert(terms.drop_last() =~= Seq::empty());
    assert(terms_sum(terms, values) == terms_sum(terms.drop_last(), values)
        + terms.last().coefficient * values.value_of(terms.last().variable));
    assert(terms_sum(terms.drop_last(), values) == 0);
    assert(1 * values.value_of(v) == values.value_of(v)) by (nonlinear_arith);
}

/// The value of a combination that is a constant.
pub proof fn lemma_eval_constant(c: nat, values: Assignment)
    ensures
        LcSpec::of_constant(c).eval(values) == c % modulus(),
{
}

/// The value of the sum of two variables.
pub proof fn lemma_eval_pair(x: Variable, y: Variable, values: Assignment)
    ensures
        LcSpec::of_variable(x).with_term(y, 1).eval(values) == (values.value_of(x)
            + values.value_of(y)) % modulus(),
{
    lemma_eval_variable(x, values);
    law_with_term_adds(LcSpec::of_variable(x), y, 1, values);
    assert(1 * values.value_of(y) == values.value_of(y)) by (nonlinear_arith);
    lemma_add_mod_noop(
        values.value_of(x) as int,
        values.value_of(y) as int,
        modulus() as int,
    );
    lemma_add_mod_noop(
        (values.value_of(x) % modulus()) as int,
        values.value_of(y) as int,
        modulus() as int,
    );
    lemma_mod_twice(values.value_of(x) as int, modulus() as int);
}

/// Adding a term about an allocated variable keeps a combination within
/// the allocated variables.
pub proof fn lemma_with_term_within(
    lc: LcSpec,
    v: Variable,
    coefficient: nat,
    num_public: nat,
    num_private: nat,
)
    requires
        lc.within(num_public, num_private),
        v.within(num_public, num_private),
    ensures
        lc.with_term(v, coefficient).within(num_public, num_private),
{
    let after = lc.with_term(v, coefficient);
    assert forall|i: int| 0 <= i < after.terms.len() implies (
    #[trigger] after.terms[i]).variable.within(num_public, num_private) by {
        if lc.mentions(v) {
            if i != lc.position(v) {
                assert(after.terms[i] == lc.terms[i]);
            }
        } else {
            if i < lc.terms.len() {
                assert(after.terms[i] == lc.terms[i]);
            }
        }
    }
}

/// A single variable that is allocated is within the allocated variables.
pub proof fn lemma_of_variable_within(v: Variable, num_public: nat, num_private: nat)
    requires
        v.within(num_public, num_private),
    ensures
        LcSpec::of_variable(v).within(num_public, num_private),
{
}

/// A linear combination of variables with coefficients in the field, and
/// an optional constant term. No variable occurs in two terms.
#[derive(Debug)]
pub struct LinearCombination {
    terms: Vec<Term>,
    constant: Option<Fr>,
}

impl View for LinearCombination {
    type V = LcSpec;

    closed spec fn view(&self) -> LcSpec {
        LcSpec {
            terms: terms_spec(self.terms@),
            constant: match self.constant {
                Some(c) => Some(c.value()),
                None => None,
            },
        }
    }
}

impl Clone for LinearCombination {
    fn clone(&self) -> (lc: LinearCombination)
        ensures
            lc@ == self@,
    {
        proof {
            use_type_invariant(self);
        }
        let mut terms: Vec<Term> = Vec::new();
        let mut i: usize = 0;
        while i < self.terms.len()
            invariant
                i <= self.terms.len(),
                terms@ == self.terms@.take(i as int),
            decreases self.terms.len() - i,
        {
            terms.push(self.terms[i]);
            i += 1;
        }
        assert(terms@ == self.terms@);
        LinearCombination { terms, constant: self.constant }
    }
}

impl LinearCombination {
    #[verifier::type_invariant]
    pub open spec fn wf(&self) -> bool {
        self@.distinct()
    }

    /// The combination without terms and without a constant.
    pub fn zero() -> (lc: LinearCombination)
        ensures
            lc@ == LcSpec::zero(),
    {
        let terms: Vec<Term> = Vec::new();
        assert(terms_spec(terms@) =~= Seq::empty());
        LinearCombination { terms, constant: None }
    }

    /// The combination that is the constant `c`.
    pub fn from_constant(c: Fr) -> (lc: LinearCombination)
        ensures
            lc@ == LcSpec::of_constant(c.value()),
    {
        let terms: Vec<Term> = Vec::new();
        assert(terms_spec(terms@) =~= Seq::empty());
        LinearCombination { terms, constant: Some(c) }
    }

    /// The combination `1 * v`.
    pub fn from_variable(v: Variable) -> (lc: LinearCombination)
        ensures
            lc@ == LcSpec::of_variable(v),
    {
        let mut terms: Vec<Term> = Vec::new();
        terms.push(Term { variable: v, coefficient: Fr::one() });
        assert(terms_spec(terms@) =~= LcSpec::of_variable(v).terms);
        LinearCombination { terms, constant: None }
    }

    /// The number of terms.
    pub fn len(&self) -> (n: usize)
        ensures
            n == self@.terms.len(),
    {
        self.terms.len()
    }

    /// The term at place `i`.
    pub fn term(&self, i: usize) -> (t: Term)
        requires
            i < self@.terms.len(),
        ensures
            t.spec() == self@.terms[i as int],
    {
        self.terms[i]
    }

    /// The constant term.
    pub fn constant(&self) -> (c: Option<Fr>)
        ensures
            c is Some == self@.constant is Some,
            c is Some ==> c->0.value() == self@.constant->0,
    {
        self.constant
    }

    /// The combination with `coefficient * v` added.
    #[verifier::loop_isolation(false)]
    pub fn add_term(self, v: Variable, coefficient: Fr) -> (lc: LinearCombination)
        ensures
            lc@ == self@.with_term(v, coefficient.value()),
    {
        proof {
            use_type_invariant(&self);
        }
        let ghost before = self@;
        let constant = self.constant;
        let mut terms = self.terms;
        let mut i: usize = 0;
        while i < terms.len()
            invariant
                i <= terms.len(),
                before.terms == terms_spec(terms@),
                before.distinct(),
                forall|k: int| 0 <= k < i ==> before.terms[k].variable != v,
            decreases terms.len() - i,
        {
            let t = terms[i];
            assert(before.terms[i as int] == t.spec());
            if t.variable == v {
                let sum = t.coefficient.add(&coefficient);
                let ghost earlier = terms@;
                terms.set(i, Term { variable: v, coefficient: sum });
                proof {
                    assert(forall|k: int|
                        0 <= k < terms@.len() && k != i ==> terms@[k] == earlier[k]);
                    assert(before.terms[i as int].variable == v);
                    assert(before.mentions(v));
                    assert(before.position(v) == i);
                    assert(terms_spec(terms@) =~= before.with_term(v, coefficient.value()).terms);
                }
                return LinearCombination { terms, constant };
            }
            i += 1;
        }
        terms.push(Term { variable: v, coefficient });
        proof {
            assert(!before.mentions(v));
            assert(terms_spec(terms@) =~= before.with_term(v, coefficient.value()).terms);
        }
        LinearCombination { terms, constant }
    }

    /// Whether every variable that occurs is within the given counts.
    pub fn fits(&self, num_public: usize, num_private: usize) -> (b: bool)
        ensures
            b == self@.within(num_public as nat, num_private as nat),
    {
        let ghost lc = self@;
        let mut i: usize = 0;
        while i < self.terms.len()
            invariant
                i <= self.terms.len(),
                lc == self@,
                lc.terms.len() == self.terms.len(),
                forall|k: int|
                    0 <= k < i ==> (#[trigger] lc.terms[k]).variable.within(
                        num_public as nat,
                        num_private as nat,
                    ),
            decreases self.terms.len() - i,
        {
            let t = self.terms[i];
            assert(lc.terms[i as int] == t.spec());
            let inside = match t.variable {
                Variable::Public(k) => k < num_public,
                Variable::Private(k) => k < num_private,
            };
            if !inside {
                return false;
            }
            i += 1;
        }
        true
    }

    /// The value of the combination in the field, under known values for
    /// the variables.
    pub fn evaluate(&self, public: &Vec<Option<Fr>>, private: &Vec<Option<Fr>>) -> (r: Fr)
        requires
            self@.within(public@.len(), private@.len()),
            all_known(public@),
            all_known(private@),
        ensures
            r.value() == self@.eval(
                Assignment { public: known_values(public@), private: known_values(private@) },
            ),
    {
        let ghost values = Assignment {
            public: known_values(public@),
            private: known_values(private@),
        };
        let ghost lc = self@;
        let mut acc = match self.constant {
            Some(c) => c,
            None => Fr::zero(),
        };
        proof {
            use_type_invariant(&acc);
            lemma_small_mod(acc.value(), modulus());
            assert(lc.terms.take(0) =~= Seq::empty());
        }
        let mut i: usize = 0;
        while i < self.terms.len()
            invariant
                i <= self.terms.len(),
                lc == self@,
                lc.terms.len() == self.terms.len(),
                lc.within(public@.len(), private@.len()),
                all_known(public@),
                all_known(private@),
                values == (Assignment {
                    public: known_values(public@),
                    private: known_values(private@),
                }),
                acc.value() == (lc.constant_value() + terms_sum(lc.terms.take(i as int), values))
                    % modulus(),
            decreases self.terms.len() - i,
        {
            let t = self.terms[i];
            assert(lc.terms[i as int] == t.spec());
            let value = match t.variable {
                Variable::Public(k) => public[k].unwrap(),
                Variable::Private(k) => private[k].unwrap(),
            };
            assert(value.value() == values.value_of(t.variable));
            let product = t.coefficient.mul(&value);
            let ghost before = acc.value();
            acc = acc.add(&product);
            proof {
                let sum = lc.constant_value() + terms_sum(lc.terms.take(i as int), values);
                let step = t.coefficient.value() * value.value();
                assert(lc.terms.take(i + 1).drop_last() =~= lc.terms.take(i as int));
                assert(lc.terms.take(i + 1).last() == lc.terms[i as int]);
                assert(terms_sum(lc.terms.take(i + 1), values) == terms_sum(
                    lc.terms.take(i as int),
                    values,
                ) + step);
                lemma_add_mod_noop(sum as int, step as int, modulus() as int);
            }
            i += 1;
        }
        assert(lc.terms.take(i as int) =~= lc.terms);
        acc
    }

    /// The combination with `c` added to its constant term.
    pub fn add_constant(self, c: Fr) -> (lc: LinearCombination)
        ensures
            lc@ == self@.with_constant(c.value()),
    {
        proof {
            use_type_invariant(&self);
        }
        let constant = match self.constant {
            Some(k) => k.add(&c),
            None => c,
        };
        LinearCombination { terms: self.terms, constant: Some(constant) }
    }
}

} // verus!
