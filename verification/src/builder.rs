//! Gates built from rank-1 constraints: product, equality, multiplexer and
//! multiply-add, and the factorization circuit made of them.
//!
//! Every gate first checks that it can be added at all, so that a gate that
//! is refused leaves the system as it was. A gate with a result allocates
//! a private variable for it, which in witness mode holds what the values
//! of its inputs give.

use crate::circuit::{lemma_product_constraint, product_constraint};
use crate::cs::{
    value_spec, ConstraintSpec, ConstraintSystem, Mode, SynthesisError, SystemSpec,
};
use crate::field::{modulus, Fr};
use crate::lc::{
    lemma_eval_constant, lemma_eval_pair, lemma_eval_variable, lemma_of_variable_within,
    lemma_with_term_within, Assignment, LcSpec, LinearCombination, Variable,
};
use vstd::prelude::*;

verus! {

/// The constraint `x * 1 = y`.
pub open spec fn equality_constraint(x: Variable, y: Variable) -> ConstraintSpec {
    ConstraintSpec {
        a: LcSpec::of_variable(x),
        b: LcSpec::of_constant(1),
        c: LcSpec::of_variable(y),
    }
}

/// The constraint `(x + y) * 1 = z`.
pub open spec fn sum_constraint(x: Variable, y: Variable, z: Variable) -> ConstraintSpec {
    ConstraintSpec {
        a: LcSpec::of_variable(x).with_term(y, 1),
        b: LcSpec::of_constant(1),
        c: LcSpec::of_variable(z),
    }
}

/// The constraint `(x + y) * 1 = z + w`.
pub open spec fn balance_constraint(
    x: Variable,
    y: Variable,
    z: Variable,
    w: Variable,
) -> ConstraintSpec {
    ConstraintSpec {
        a: LcSpec::of_variable(x).with_term(y, 1),
        b: LcSpec::of_constant(1),
        c: LcSpec::of_variable(z).with_term(w, 1),
    }
}

/// `x * 1 = y` is satisfied exactly when the values of `x` and `y` are
/// congruent.
pub proof fn lemma_equality_constraint(x: Variable, y: Variable, values: Assignment)
    ensures
        equality_constraint(x, y).satisfied(values) <==> values.value_of(x) % modulus()
            == values.value_of(y) % modulus(),
{
    lemma_eval_variable(x, values);
    lemma_eval_variable(y, values);
    lemma_eval_constant(1, values);
    let v = values.value_of(x) % modulus();
    assert(v * 1 == v) by (nonlinear_arith);
}

/// `(x + y) * 1 = z` is satisfied exactly when the sum of the values of
/// `x` and `y` is congruent to the value of `z`.
pub proof fn lemma_sum_constraint(x: Variable, y: Variable, z: Variable, values: Assignment)
    ensures
        sum_constraint(x, y, z).satisfied(values) <==> (values.value_of(x) + values.value_of(y))
            % modulus() == values.value_of(z) % modulus(),
{
    lemma_eval_pair(x, y, values);
    lemma_eval_variable(z, values);
    lemma_eval_constant(1, values);
    let v = (values.value_of(x) + values.value_of(y)) % modulus();
    assert(v * 1 == v) by (nonlinear_arith);
}

/// `(x + y) * 1 = z + w` is satisfied exactly when the two sums of values
/// are congruent.
pub proof fn lemma_balance_constraint(
    x: Variable,
    y: Variable,
    z: Variable,
    w: Variable,
    values: Assignment,
)
    ensures
        balance_constraint(x, y, z, w).satisfied(values) <==> (values.value_of(x)
            + values.value_of(y)) % modulus() == (values.value_of(z) + values.value_of(w))
            % modulus(),
{
    lemma_eval_pair(x, y, values);
    lemma_eval_pair(z, w, values);
    lemma_eval_constant(1, values);
    let v = (values.value_of(x) + values.value_of(y)) % modulus();
    assert(v * 1 == v) by (nonlinear_arith);
}

/// Why a gate over two variables is refused, if it is.
pub open spec fn misuse2(sys: SystemSpec, a: Variable, b: Variable) -> Option<SynthesisError> {
    if sys.frozen {
        Some(SynthesisError::SystemFrozen)
    } else if !sys.owns(a) || !sys.owns(b) {
        Some(SynthesisError::ShapeMismatch)
    } else {
        None
    }
}

/// Why a gate over three variables is refused, if it is.
pub open spec fn misuse3(sys: SystemSpec, a: Variable, b: Variable, c: Variable) -> Option<
    SynthesisError,
> {
    if sys.frozen {
        Some(SynthesisError::SystemFrozen)
    } else if !sys.owns(a) || !sys.owns(b) || !sys.owns(c) {
        Some(SynthesisError::ShapeMismatch)
    } else {
        None
    }
}

/// The place of the next private variable.
pub open spec fn next_private(sys: SystemSpec, offset: nat) -> Variable {
    Variable::Private((sys.private.len() + offset) as usize)
}

/// The place of the next public variable.
pub open spec fn next_public(sys: SystemSpec) -> Variable {
    Variable::Public(sys.public.len() as usize)
}

/// The product of the values of two variables, in the field.
pub open spec fn product_value(sys: SystemSpec, a: Variable, b: Variable) -> nat {
    (sys.values().value_of(a) * sys.values().value_of(b)) % modulus()
}

/// The system after a product gate: one more private variable, which holds
/// the product, and the constraint `a * b = product`.
pub open spec fn mul_system(sys: SystemSpec, a: Variable, b: Variable) -> SystemSpec {
    sys.with_private(Some(product_value(sys, a, b))).with_constraint(
        product_constraint(a, b, next_private(sys, 0)),
    )
}

/// The system after an equality gate.
pub open spec fn connect_system(sys: SystemSpec, x: Variable, y: Variable) -> SystemSpec {
    sys.with_constraint(equality_constraint(x, y))
}

/// The value that a multiplexer picks: that of `then` where the flag is 1,
/// else that of `otherwise`.
pub open spec fn select_value(
    sys: SystemSpec,
    flag: Variable,
    then: Variable,
    otherwise: Variable,
) -> nat {
    if sys.values().value_of(flag) == 1 {
        sys.values().value_of(then)
    } else {
        sys.values().value_of(otherwise)
    }
}

/// The system after a multiplexer: private variables for `flag * then`,
/// for `flag * otherwise` and for the result `r`, and the constraint
/// `r + flag * otherwise = flag * then + otherwise`.
pub open spec fn select_system(
    sys: SystemSpec,
    flag: Variable,
    then: Variable,
    otherwise: Variable,
) -> SystemSpec {
    mul_system(mul_system(sys, flag, then), flag, otherwise).with_private(
        Some(select_value(sys, flag, then, otherwise)),
    ).with_constraint(
        balance_constraint(
            next_private(sys, 2),
            next_private(sys, 1),
            next_private(sys, 0),
            otherwise,
        ),
    )
}

/// The value of `a * b + c` in the field.
pub open spec fn mul_add_value(sys: SystemSpec, a: Variable, b: Variable, c: Variable) -> nat {
    (product_value(sys, a, b) + sys.values().value_of(c)) % modulus()
}

/// The system after a multiply-add: private variables for `a * b` and for
/// the result `r`, and the constraint `a * b + c = r`.
pub open spec fn mul_add_system(
    sys: SystemSpec,
    a: Variable,
    b: Variable,
    c: Variable,
) -> SystemSpec {
    mul_system(sys, a, b).with_private(Some(mul_add_value(sys, a, b, c))).with_constraint(
        sum_constraint(next_private(sys, 0), c, next_private(sys, 1)),
    )
}

/// The number that stands for a truth value.
pub open spec fn truth_value(value: Option<bool>) -> Option<nat> {
    match value {
        Some(b) => Some(if b { 1nat } else { 0nat }),
        None => None,
    }
}

/// The system after the allocation of a flag: one more private variable
/// and the constraint `flag * flag = flag`, which holds it to 0 or 1.
pub open spec fn flag_system(sys: SystemSpec, value: Option<bool>) -> SystemSpec {
    sys.with_private(truth_value(value)).with_constraint(
        product_constraint(next_private(sys, 0), next_private(sys, 0), next_private(sys, 0)),
    )
}

/// Allocates a private variable.
pub fn add_virtual_target(cs: &mut ConstraintSystem, value: Option<Fr>) -> (r: Result<
    Variable,
    SynthesisError,
>)
    requires
        old(cs).wf(),
    ensures
        final(cs).wf(),
        match old(cs)@.alloc_error(value_spec(value)) {
            Some(e) => r == Err::<Variable, SynthesisError>(e) && final(cs)@ == old(cs)@,
            None => r == Ok::<Variable, SynthesisError>(next_private(old(cs)@, 0)) && final(cs)@
                == old(cs)@.with_private(value_spec(value)),
        },
{
    cs.alloc_private(value)
}

/// Allocates a public variable.
pub fn add_virtual_public_input(cs: &mut ConstraintSystem, value: Option<Fr>) -> (r: Result<
    Variable,
    SynthesisError,
>)
    requires
        old(cs).wf(),
    ensures
        final(cs).wf(),
        match old(cs)@.alloc_error(value_spec(value)) {
            Some(e) => r == Err::<Variable, SynthesisError>(e) && final(cs)@ == old(cs)@,
            None => r == Ok::<Variable, SynthesisError>(next_public(old(cs)@)) && final(cs)@
                == old(cs)@.with_public(value_spec(value)),
        },
{
    cs.alloc_public(value)
}

/// Allocates a private flag and holds it to 0 or 1.
pub fn add_virtual_bool_target_safe(cs: &mut ConstraintSystem, value: Option<bool>) -> (r: Result<
    Variable,
    SynthesisError,
>)
    requires
        old(cs).wf(),
    ensures
        final(cs).wf(),
        match old(cs)@.alloc_error(truth_value(value)) {
            Some(e) => r == Err::<Variable, SynthesisError>(e) && final(cs)@ == old(cs)@,
            None => r == Ok::<Variable, SynthesisError>(next_private(old(cs)@, 0)) && final(cs)@
                == flag_system(old(cs)@, value),
        },
{
    let element = match value {
        Some(true) => Some(Fr::one()),
        Some(false) => Some(Fr::zero()),
        None => None,
    };
    let flag = match cs.alloc_private(element) {
        Ok(v) => v,
        Err(e) => { return Err(e); },
    };
    match cs.enforce(
        LinearCombination::from_variable(flag),
        LinearCombination::from_variable(flag),
        LinearCombination::from_variable(flag),
    ) {
        Ok(()) => Ok(flag),
        Err(e) => Err(e),
    }
}

/// The product of the values of two variables of the system, where the
/// system keeps values.
fn product_of(cs: &ConstraintSystem, a: Variable, b: Variable) -> (r: Option<Fr>)
    requires
        cs.wf(),
        cs@.owns(a),
        cs@.owns(b),
    ensures
        cs@.mode == Mode::Witness ==> value_spec(r) == Some(product_value(cs@, a, b)),
{
    match (cs.value(a), cs.value(b)) {
        (Some(x), Some(y)) => Some(x.mul(&y)),
        _ => None,
    }
}

/// Adds a product gate and returns the variable that holds `a * b`.
pub fn mul(cs: &mut ConstraintSystem, a: Variable, b: Variable) -> (r: Result<
    Variable,
    SynthesisError,
>)
    requires
        old(cs).wf(),
    ensures
        final(cs).wf(),
        match misuse2(old(cs)@, a, b) {
            Some(e) => r == Err::<Variable, SynthesisError>(e) && final(cs)@ == old(cs)@,
            None => r == Ok::<Variable, SynthesisError>(next_private(old(cs)@, 0)) && final(cs)@
                == mul_system(old(cs)@, a, b),
        },
{
    if cs.is_frozen() {
        return Err(SynthesisError::SystemFrozen);
    }
    if !cs.owns(a) || !cs.owns(b) {
        return Err(SynthesisError::ShapeMismatch);
    }
    let value = product_of(cs, a, b);
    let product = match cs.alloc_private(value) {
        Ok(v) => v,
        Err(e) => { return Err(e); },
    };
    match cs.enforce(
        LinearCombination::from_variable(a),
        LinearCombination::from_variable(b),
        LinearCombination::from_variable(product),
    ) {
        Ok(()) => Ok(product),
        Err(e) => Err(e),
    }
}

/// Adds an equality gate between two variables.
pub fn connect(cs: &mut ConstraintSystem, x: Variable, y: Variable) -> (r: Result<
    (),
    SynthesisError,
>)
    requires
        old(cs).wf(),
    ensures
        final(cs).wf(),
        match misuse2(old(cs)@, x, y) {
            Some(e) => r == Err::<(), SynthesisError>(e) && final(cs)@ == old(cs)@,
            None => r == Ok::<(), SynthesisError>(()) && final(cs)@ == connect_system(
                old(cs)@,
                x,
                y,
            ),
        },
{
    if cs.is_frozen() {
        return Err(SynthesisError::SystemFrozen);
    }
    if !cs.owns(x) || !cs.owns(y) {
        return Err(SynthesisError::ShapeMismatch);
    }
    cs.enforce(
        LinearCombination::from_variable(x),
        LinearCombination::from_constant(Fr::one()),
        LinearCombination::from_variable(y),
    )
}

/// Adds a multiplexer and returns the variable that holds the value of
/// `then` where the flag is 1 and that of `otherwise` where it is 0. The
/// flag is meant to be held to 0 or 1 by a constraint of its own.
pub fn select(cs: &mut ConstraintSystem, flag: Variable, then: Variable, otherwise: Variable) -> (r:
    Result<Variable, SynthesisError>)
    requires
        old(cs).wf(),
    ensures
        final(cs).wf(),
        match misuse3(old(cs)@, flag, then, otherwise) {
            Some(e) => r == Err::<Variable, SynthesisError>(e) && final(cs)@ == old(cs)@,
            None => r == Ok::<Variable, SynthesisError>(next_private(old(cs)@, 2)) && final(cs)@
                == select_system(old(cs)@, flag, then, otherwise),
        },
{
    if cs.is_frozen() {
        return Err(SynthesisError::SystemFrozen);
    }
    if !cs.owns(flag) || !cs.owns(then) || !cs.owns(otherwise) {
        return Err(SynthesisError::ShapeMismatch);
    }
    let picked = match (cs.value(flag), cs.value(then), cs.value(otherwise)) {
        (Some(f), Some(x), Some(y)) => {
            let one = Fr::one();
            proof {
                if f.value() == one.value() {
                    f.lemma_value_injective(one);
                }
            }
            if f == one {
                Some(x)
            } else {
                Some(y)
            }
        },
        _ => None,
    };
    let ghost start = cs@;
    let taken = match self::mul(cs, flag, then) {
        Ok(v) => v,
        Err(e) => { return Err(e); },
    };
    let left = match self::mul(cs, flag, otherwise) {
        Ok(v) => v,
        Err(e) => { return Err(e); },
    };
    let result = match cs.alloc_private(picked) {
        Ok(v) => v,
        Err(e) => { return Err(e); },
    };
    proof {
        let np = cs@.public.len();
        let nv = cs@.private.len();
        lemma_of_variable_within(result, np, nv);
        lemma_with_term_within(LcSpec::of_variable(result), left, 1, np, nv);
        lemma_of_variable_within(taken, np, nv);
        lemma_with_term_within(LcSpec::of_variable(taken), otherwise, 1, np, nv);
    }
    match cs.enforce(
        LinearCombination::from_variable(result).add_term(left, Fr::one()),
        LinearCombination::from_constant(Fr::one()),
        LinearCombination::from_variable(taken).add_term(otherwise, Fr::one()),
    ) {
        Ok(()) => Ok(result),
        Err(e) => Err(e),
    }
}

/// Adds a multiply-add and returns the variable that holds `a * b + c`.
pub fn mul_add(cs: &mut ConstraintSystem, a: Variable, b: Variable, c: Variable) -> (r: Result<
    Variable,
    SynthesisError,
>)
    requires
        old(cs).wf(),
    ensures
        final(cs).wf(),
        match misuse3(old(cs)@, a, b, c) {
            Some(e) => r == Err::<Variable, SynthesisError>(e) && final(cs)@ == old(cs)@,
            None => r == Ok::<Variable, SynthesisError>(next_private(old(cs)@, 1)) && final(cs)@
                == mul_add_system(old(cs)@, a, b, c),
        },
{
    if cs.is_frozen() {
        return Err(SynthesisError::SystemFrozen);
    }
    if !cs.owns(a) || !cs.owns(b) || !cs.owns(c) {
        return Err(SynthesisError::ShapeMismatch);
    }
    let total = match (product_of(cs, a, b), cs.value(c)) {
        (Some(x), Some(y)) => Some(x.add(&y)),
        _ => None,
    };
    let product = match self::mul(cs, a, b) {
        Ok(v) => v,
        Err(e) => { return Err(e); },
    };
    let result = match cs.alloc_private(total) {
        Ok(v) => v,
        Err(e) => { return Err(e); },
    };
    proof {
        let np = cs@.public.len();
        let nv = cs@.private.len();
        lemma_of_variable_within(product, np, nv);
        lemma_with_term_within(LcSpec::of_variable(product), c, 1, np, nv);
    }
    match cs.enforce(
        LinearCombination::from_variable(product).add_term(c, Fr::one()),
        LinearCombination::from_constant(Fr::one()),
        LinearCombination::from_variable(result),
    ) {
        Ok(()) => Ok(result),
        Err(e) => Err(e),
    }
}

/// Why the factorization circuit is refused, if it is.
pub open spec fn factorization_error(
    sys: SystemSpec,
    a: Option<nat>,
    b: Option<nat>,
    n: Option<nat>,
) -> Option<SynthesisError> {
    if sys.frozen {
        Some(SynthesisError::SystemFrozen)
    } else if sys.mode == Mode::Witness && (a is None || b is None || n is None) {
        Some(SynthesisError::AssignmentMissing)
    } else {
        None
    }
}

/// The system after the factorization circuit: private variables for the
/// two factors and for their product, a public variable for `n`, a product
/// gate and an equality gate between the product and `n`.
pub open spec fn factorization_system(
    sys: SystemSpec,
    a: Option<nat>,
    b: Option<nat>,
    n: Option<nat>,
) -> SystemSpec {
    connect_system(
        mul_system(
            sys.with_private(a).with_private(b),
            next_private(sys, 0),
            next_private(sys, 1),
        ).with_public(n),
        next_private(sys, 2),
        next_public(sys),
    )
}

/// Builds the factorization circuit from gates: allocates the factors,
/// multiplies them, allocates the public `n` and connects the product to
/// it. Returns the variables of the two factors and of their product.
pub fn create_factorization_circuit(
    cs: &mut ConstraintSystem,
    a: Option<Fr>,
    b: Option<Fr>,
    n: Option<Fr>,
) -> (r: Result<(Variable, Variable, Variable), SynthesisError>)
    requires
        old(cs).wf(),
    ensures
        final(cs).wf(),
        match factorization_error(old(cs)@, value_spec(a), value_spec(b), value_spec(n)) {
            Some(e) => r == Err::<(Variable, Variable, Variable), SynthesisError>(e) && final(cs)@
                == old(cs)@,
            None => r == Ok::<(Variable, Variable, Variable), SynthesisError>(
                (next_private(old(cs)@, 0), next_private(old(cs)@, 1), next_private(old(cs)@, 2)),
            ) && final(cs)@ == factorization_system(
                old(cs)@,
                value_spec(a),
                value_spec(b),
                value_spec(n),
            ),
        },
{
    if cs.is_frozen() {
        return Err(SynthesisError::SystemFrozen);
    }
    if cs.mode() == Mode::Witness && (a.is_none() || b.is_none() || n.is_none()) {
        return Err(SynthesisError::AssignmentMissing);
    }
    let first = match cs.alloc_private(a) {
        Ok(v) => v,
        Err(e) => { return Err(e); },
    };
    let second = match cs.alloc_private(b) {
        Ok(v) => v,
        Err(e) => { return Err(e); },
    };
    let product = match self::mul(cs, first, second) {
        Ok(v) => v,
        Err(e) => { return Err(e); },
    };
    let input = match cs.alloc_public(n) {
        Ok(v) => v,
        Err(e) => { return Err(e); },
    };
    match connect(cs, product, input) {
        Ok(()) => Ok((first, second, product)),
        Err(e) => Err(e),
    }
}

/// The structure that every step of a recursion over the factorization
/// circuit shares: the circuit, with its product connected to a second
/// public input.
pub open spec fn common_system() -> SystemSpec {
    let base = factorization_system(SystemSpec::empty(Mode::Shape), None, None, None);
    SystemSpec {
        frozen: true,
        ..connect_system(base.with_public(None), Variable::Private(2), Variable::Public(1))
    }
}

/// Builds the structure that every step of a recursion over the
/// factorization circuit shares, and returns it frozen, with the variables
/// of the two factors.
pub fn common_data_for_recursion() -> (r: (ConstraintSystem, Variable, Variable))
    ensures
        r.0.wf(),
        r.0@ == common_system(),
        r.1 == Variable::Private(0),
        r.2 == Variable::Private(1),
{
    let mut cs = ConstraintSystem::new(Mode::Shape);
    let (a, b, product) = match create_factorization_circuit(&mut cs, None, None, None) {
        Ok(targets) => targets,
        Err(_) => vstd::pervasive::unreached(),
    };
    let n = match cs.alloc_public(None) {
        Ok(v) => v,
        Err(_) => vstd::pervasive::unreached(),
    };
    match connect(&mut cs, product, n) {
        Ok(()) => {},
        Err(_) => vstd::pervasive::unreached(),
    }
    cs.freeze();
    (cs, a, b)
}

/// The factorization circuit built from gates is satisfied exactly when
/// the product of the factors is congruent to `n`.
pub proof fn law_gates_mean_the_product(a: nat, b: nat, n: nat)
    ensures
        factorization_system(SystemSpec::empty(Mode::Witness), Some(a), Some(b), Some(n)).satisfied()
            <==> (a * b) % modulus() == n % modulus(),
{
    let sys = factorization_system(SystemSpec::empty(Mode::Witness), Some(a), Some(b), Some(n));
    let values = sys.values();
    let first = Variable::Private(0);
    let second = Variable::Private(1);
    let product = Variable::Private(2);
    let input = Variable::Public(0);
    assert(sys.constraints.len() == 2);
    assert(sys.constraints[0] == product_constraint(first, second, product));
    assert(sys.constraints[1] == equality_constraint(product, input));
    assert(values.value_of(first) == a);
    assert(values.value_of(second) == b);
    assert(values.value_of(product) == (a * b) % modulus());
    assert(values.value_of(input) == n);
    lemma_product_constraint(first, second, product, values);
    lemma_equality_constraint(product, input, values);
    vstd::arithmetic::div_mod::lemma_mod_twice((a * b) as int, modulus() as int);
}

} // verus!
