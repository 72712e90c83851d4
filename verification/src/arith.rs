//! Arithmetic over the runtime's numbers. A number is an immediate integer
//! or a heap float named by its IEEE-754 bits; the float operations belong
//! to the numeric tower outside this core (they never hold a reference
//! across a collection point), so this module computes with the integers and
//! hands float bits through untouched where no arithmetic is asked of them.

use vstd::prelude::*;

use crate::object::Arena;

verus! {

/// A number's decoded value: an immediate integer, or a heap float named by
/// its bits.
#[derive(Clone, Copy, PartialEq, Eq, Structural, Debug)]
pub enum NumberValue {
    Int(i64),
    Float(u64),
}

/// A numeric heap value, decoded.
#[derive(Clone, Copy, PartialEq, Eq, Structural, Debug)]
pub struct Number {
    pub value: NumberValue,
}

impl Number {
    pub fn val(&self) -> (r: NumberValue)
        ensures
            r == self.value,
    {
        self.value
    }

    pub fn from_int(x: i64) -> (r: Number)
        ensures
            r.value == NumberValue::Int(x),
    {
        Number { value: NumberValue::Int(x) }
    }

    pub fn from_float_bits(bits: u64) -> (r: Number)
        ensures
            r.value == NumberValue::Float(bits),
    {
        Number { value: NumberValue::Float(bits) }
    }

    pub open spec fn is_int(&self) -> bool {
        self.value is Int
    }

    /// The integer a number holds; meaningful only for integers.
    pub open spec fn int_val(&self) -> int {
        self.value->Int_0 as int
    }
}

impl From<i64> for Number {
    fn from(x: i64) -> (r: Number) {
        Number::from_int(x)
    }
}

impl vstd::std_specs::convert::FromSpecImpl<i64> for Number {
    open spec fn obeys_from_spec() -> bool {
        true
    }

    open spec fn from_spec(x: i64) -> Number {
        Number { value: NumberValue::Int(x) }
    }
}

/// Every number in the sequence is an immediate integer.
pub open spec fn all_int(s: Seq<Number>) -> bool {
    forall|i: int| 0 <= i < s.len() ==> (#[trigger] s[i]).is_int()
}

pub open spec fn in_i64(x: int) -> bool {
    i64::MIN <= x <= i64::MAX
}

/// The sum of a sequence of integer numbers.
pub open spec fn sum_of(s: Seq<Number>) -> int
    decreases s.len(),
{
    if s.len() == 0 {
        0
    } else {
        sum_of(s.drop_last()) + s.last().int_val()
    }
}

/// The product of a sequence of integer numbers.
pub open spec fn prod_of(s: Seq<Number>) -> int
    decreases s.len(),
{
    if s.len() == 0 {
        1
    } else {
        prod_of(s.drop_last()) * s.last().int_val()
    }
}

pub open spec fn abs_of(a: int) -> int {
    if a < 0 {
        -a
    } else {
        a
    }
}

/// Truncating (round-toward-zero) integer division, the machine's signed
/// division: the quotient of the magnitudes, negated when exactly one
/// operand is negative.
pub open spec fn tdiv(a: int, b: int) -> int
    recommends
        b != 0,
{
    if (a < 0) == (b < 0) {
        abs_of(a) / abs_of(b)
    } else {
        -(abs_of(a) / abs_of(b))
    }
}

/// Machine signed division, carried out on magnitudes so that the quotient
/// is pinned for every sign combination.
fn div_i64(a: i64, b: i64) -> (r: i64)
    requires
        b != 0,
        !(a == i64::MIN && b == -1),
    ensures
        r as int == tdiv(a as int, b as int),
{
    let neg: bool = (a < 0) != (b < 0);
    let mag_a: u64 = if a >= 0 {
        a as u64
    } else if a == i64::MIN {
        9223372036854775808u64
    } else {
        (-a) as u64
    };
    let mag_b: u64 = if b > 0 {
        b as u64
    } else if b == i64::MIN {
        9223372036854775808u64
    } else {
        (-b) as u64
    };
    let q: u64 = mag_a / mag_b;
    proof {
        assert(mag_a == abs_of(a as int));
        assert(mag_b == abs_of(b as int));
        vstd::arithmetic::div_mod::lemma_div_is_ordered_by_denominator(
            mag_a as int,
            1,
            mag_b as int,
        );
        assert(q <= mag_a);
        if mag_b >= 2 {
            vstd::arithmetic::div_mod::lemma_div_is_ordered_by_denominator(
                mag_a as int,
                2,
                mag_b as int,
            );
            assert(q <= mag_a as int / 2);
        }
        vstd::arithmetic::div_mod::lemma_div_basics(mag_a as int);
        assert(mag_b == 1 ==> q == mag_a);
    }
    if neg {
        if q == 9223372036854775808u64 {
            i64::MIN
        } else {
            -(q as i64)
        }
    } else {
        q as i64
    }
}

/// The left fold of truncating division of `init` by each element in turn.
pub open spec fn quot_of(init: int, s: Seq<Number>) -> int
    decreases s.len(),
{
    if s.len() == 0 {
        init
    } else {
        tdiv(quot_of(init, s.drop_last()), s.last().int_val())
    }
}

/// The starting value of a subtraction: the given number, or zero.
pub open spec fn sub_init(number: Option<Number>) -> int {
    match number {
        Some(n) => n.int_val(),
        None => 0,
    }
}

/// Sum the arguments; no arguments sum to zero. Integer addition only: a
/// float among the arguments sends the whole fold to the numeric tower.
pub fn add(vars: &[Number], _arena: &Arena) -> (r: Number)
    requires
        all_int(vars@),
        forall|k: int| 0 <= k <= vars@.len() ==> in_i64(sum_of(#[trigger] vars@.take(k))),
    ensures
        r.value == NumberValue::Int(sum_of(vars@) as i64),
{
    let ghost whole = vars@;
    let mut acc: i64 = 0;
    let mut i: usize = 0;
    proof {
        assert(whole.take(0) =~= Seq::<Number>::empty());
    }
    while i < vars.len()
        invariant
            i <= whole.len(),
            vars@ == whole,
            all_int(whole),
            forall|k: int| 0 <= k <= whole.len() ==> in_i64(sum_of(#[trigger] whole.take(k))),
            acc == sum_of(whole.take(i as int)),
        decreases whole.len() - i,
    {
        let x: Number = *vstd::slice::slice_index_get(vars, i);
        proof {
            assert(whole.take(i + 1).drop_last() =~= whole.take(i as int));
            assert(whole.take(i + 1).last() == whole[i as int]);
            assert(in_i64(sum_of(whole.take(i + 1))));
        }
        match x.value {
            NumberValue::Int(v) => {
                acc = acc + v;
            },
            NumberValue::Float(_) => {
                proof {
                    assert(whole[i as int].is_int());
                }
                unreached()
            },
        }
        i = i + 1;
    }
    proof {
        assert(whole.take(whole.len() as int) =~= whole);
    }
    Number::from_int(acc)
}

/// Subtract each later argument from the first, or from zero if it is
/// absent; a single argument is negated. Integer subtraction only.
pub fn sub(number: Option<Number>, numbers: &[Number], _arena: &Arena) -> (r: Number)
    requires
        number matches Some(n) ==> n.is_int(),
        all_int(numbers@),
        numbers@.len() == 0 ==> in_i64(-sub_init(number)),
        forall|k: int| 0 <= k <= numbers@.len() ==> in_i64(
            sub_init(number) - sum_of(#[trigger] numbers@.take(k)),
        ),
    ensures
        numbers@.len() == 0 ==> r.value == NumberValue::Int((-sub_init(number)) as i64),
        numbers@.len() > 0 ==> r.value == NumberValue::Int(
            (sub_init(number) - sum_of(numbers@)) as i64,
        ),
{
    let init: i64 = match number {
        Some(n) => match n.val() {
            NumberValue::Int(v) => v,
            NumberValue::Float(_) => unreached(),
        },
        None => 0,
    };
    if numbers.len() == 0 {
        return Number::from_int(-init);
    }
    let ghost whole = numbers@;
    let mut acc: i64 = init;
    let mut i: usize = 0;
    proof {
        assert(whole.take(0) =~= Seq::<Number>::empty());
    }
    while i < numbers.len()
        invariant
            i <= whole.len(),
            numbers@ == whole,
            all_int(whole),
            forall|k: int| 0 <= k <= whole.len() ==> in_i64(
                sub_init(number) - sum_of(#[trigger] whole.take(k)),
            ),
            acc == sub_init(number) - sum_of(whole.take(i as int)),
        decreases whole.len() - i,
    {
        let x: Number = *vstd::slice::slice_index_get(numbers, i);
        proof {
            assert(whole.take(i + 1).drop_last() =~= whole.take(i as int));
            assert(whole.take(i + 1).last() == whole[i as int]);
            assert(in_i64(sub_init(number) - sum_of(whole.take(i + 1))));
        }
        match x.value {
            NumberValue::Int(v) => {
                acc = acc - v;
            },
            NumberValue::Float(_) => {
                proof {
                    assert(whole[i as int].is_int());
                }
                unreached()
            },
        }
        i = i + 1;
    }
    proof {
        assert(whole.take(whole.len() as int) =~= whole);
    }
    Number::from_int(acc)
}

/// Multiply the arguments; no arguments multiply to one. Integer
/// multiplication only.
pub fn mul(numbers: &[Number], _arena: &Arena) -> (r: Number)
    requires
        all_int(numbers@),
        forall|k: int| 0 <= k <= numbers@.len() ==> in_i64(prod_of(#[trigger] numbers@.take(k))),
    ensures
        r.value == NumberValue::Int(prod_of(numbers@) as i64),
{
    let ghost whole = numbers@;
    let mut acc: i64 = 1;
    let mut i: usize = 0;
    proof {
        assert(whole.take(0) =~= Seq::<Number>::empty());
    }
    while i < numbers.len()
        invariant
            i <= whole.len(),
            numbers@ == whole,
            all_int(whole),
            forall|k: int| 0 <= k <= whole.len() ==> in_i64(prod_of(#[trigger] whole.take(k))),
            acc == prod_of(whole.take(i as int)),
        decreases whole.len() - i,
    {
        let x: Number = *vstd::slice::slice_index_get(numbers, i);
        proof {
            assert(whole.take(i + 1).drop_last() =~= whole.take(i as int));
            assert(whole.take(i + 1).last() == whole[i as int]);
            assert(in_i64(prod_of(whole.take(i + 1))));
        }
        match x.value {
            NumberValue::Int(v) => {
                acc = acc * v;
            },
            NumberValue::Float(_) => {
                proof {
                    assert(whole[i as int].is_int());
                }
                unreached()
            },
        }
        i = i + 1;
    }
    proof {
        assert(whole.take(whole.len() as int) =~= whole);
    }
    Number::from_int(acc)
}

/// Divide the first argument by each divisor in turn, truncating toward
/// zero. With no divisors the number is handed back unchanged — a float
/// passes through bit-for-bit. Integer division only otherwise; a zero
/// divisor, like a float, is the numeric tower's to reject.
pub fn div(number: Number, divisors: &[Number], _arena: &Arena) -> (r: Number)
    requires
        divisors@.len() > 0 ==> number.is_int(),
        all_int(divisors@),
        forall|k: int| 0 <= k < divisors@.len() ==> (#[trigger] divisors@[k]).int_val() != 0,
        forall|k: int| 0 <= k < divisors@.len() ==> !(quot_of(
            number.int_val(),
            #[trigger] divisors@.take(k),
        ) == i64::MIN && divisors@[k].int_val() == -1),
    ensures
        divisors@.len() == 0 ==> r == number,
        divisors@.len() > 0 ==> r.value == NumberValue::Int(
            quot_of(number.int_val(), divisors@) as i64,
        ),
{
    if divisors.len() == 0 {
        return number;
    }
    let ghost whole = divisors@;
    let init: i64 = match number.val() {
        NumberValue::Int(v) => v,
        NumberValue::Float(_) => unreached(),
    };
    let mut acc: i64 = init;
    let mut i: usize = 0;
    proof {
        assert(whole.take(0) =~= Seq::<Number>::empty());
    }
    while i < divisors.len()
        invariant
            i <= whole.len(),
            divisors@ == whole,
            number.is_int(),
            init == number.int_val(),
            all_int(whole),
            forall|k: int| 0 <= k < whole.len() ==> (#[trigger] whole[k]).int_val() != 0,
            forall|k: int| 0 <= k < whole.len() ==> !(quot_of(
                number.int_val(),
                #[trigger] whole.take(k),
            ) == i64::MIN && whole[k].int_val() == -1),
            acc == quot_of(init as int, whole.take(i as int)),
        decreases whole.len() - i,
    {
        let x: Number = *vstd::slice::slice_index_get(divisors, i);
        proof {
            assert(whole.take(i + 1).drop_last() =~= whole.take(i as int));
            assert(whole.take(i + 1).last() == whole[i as int]);
            assert(whole.take(i as int) =~= whole.take(i as int));
        }
        match x.value {
            NumberValue::Int(v) => {
                acc = div_i64(acc, v);
            },
            NumberValue::Float(_) => {
                proof {
                    assert(whole[i as int].is_int());
                }
                unreached()
            },
        }
        i = i + 1;
    }
    proof {
        assert(whole.take(whole.len() as int) =~= whole);
    }
    Number::from_int(acc)
}

/// One more than an integer argument.
pub fn plus_one(number: Number) -> (r: Number)
    requires
        number.is_int(),
        number.int_val() < i64::MAX,
    ensures
        r.value == NumberValue::Int((number.int_val() + 1) as i64),
{
    match number.val() {
        NumberValue::Int(v) => Number::from_int(v + 1),
        NumberValue::Float(_) => unreached(),
    }
}

/// One less than an integer argument.
pub fn minus_one(number: Number) -> (r: Number)
    requires
        number.is_int(),
        number.int_val() > i64::MIN,
    ensures
        r.value == NumberValue::Int((number.int_val() - 1) as i64),
{
    match number.val() {
        NumberValue::Int(v) => Number::from_int(v - 1),
        NumberValue::Float(_) => unreached(),
    }
}

} // verus!

verus! {

} // verus!
