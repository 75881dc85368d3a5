//! Prime-field elements.
//!
//! Each field type holds its canonical residue as a plain integer. The 62-bit field's
//! arithmetic is carried out by winterfell; the other two fields reduce directly.

use vstd::prelude::*;
use vstd::arithmetic::power::pow;
use winterfell::math::FieldElement;
use winterfell::math::StarkField;
use winterfell::math::fields::f62;

verus! {

/// The capabilities that the permutations and constraints need from a prime field.
pub trait PrimeField: Sized + Copy {
    /// The prime modulus.
    spec fn modulus() -> int;

    /// Exponents handed to `exp` are below this bound.
    spec fn exp_limit() -> int;

    /// The canonical residue of the element.
    spec fn val(&self) -> int;

    /// The modulus exceeds two and every 64-bit exponent is accepted.
    proof fn lemma_modulus()
        ensures
            Self::modulus() > 2,
            Self::exp_limit() >= 0x1_0000_0000_0000_0000,
    ;

    /// The additive identity.
    fn zero() -> (r: Self)
        ensures
            r.val() == 0,
    ;

    /// The multiplicative identity.
    fn one() -> (r: Self)
        ensures
            r.val() == 1,
    ;

    /// The sum.
    fn add(self, o: Self) -> (r: Self)
        ensures
            r.val() == (self.val() + o.val()) % Self::modulus(),
    ;

    /// The difference.
    fn sub(self, o: Self) -> (r: Self)
        ensures
            r.val() == (self.val() - o.val()) % Self::modulus(),
    ;

    /// The product.
    fn mul(self, o: Self) -> (r: Self)
        ensures
            r.val() == (self.val() * o.val()) % Self::modulus(),
    ;

    /// The `e`-th power.
    fn exp(self, e: u128) -> (r: Self)
        requires
            e < Self::exp_limit(),
        ensures
            r.val() == pow(self.val(), e as nat) % Self::modulus(),
    ;

    /// The element of residue `x`; parameter tables are read through this.
    fn from_u128(x: u128) -> (r: Self)
        ensures
            r.val() == (x as int) % Self::modulus(),
    ;

    /// The canonical residue as an integer.
    fn as_int(&self) -> (r: u128)
        ensures
            r == self.val(),
    ;
}

/// The modulus of the 62-bit field.
pub const MODULUS_62: u64 = 4611624995532046337;

/// The modulus of the 64-bit field.
pub const MODULUS_64: u64 = 0xFFFFFFFF00000001;

/// The modulus of the 128-bit field.
pub const MODULUS_128: u128 = 340282366920938463463374557953744961537;

/// An element of the field of order `MODULUS_62`; its arithmetic is winterfell's.
#[derive(Clone, Copy, Debug, PartialEq, Eq, Structural)]
pub struct Felt62 {
    v: u64,
}

/// An element of the field of order `MODULUS_64`.
#[derive(Clone, Copy, Debug, PartialEq, Eq, Structural)]
pub struct Felt64 {
    v: u64,
}

/// An element of the field of order `MODULUS_128`.
#[derive(Clone, Copy, Debug, PartialEq, Eq, Structural)]
pub struct Felt128 {
    v: u128,
}

// Arithmetic helpers
// ------------------------------------------------------------------------------------------------

/// The residues of a sequence of field elements.
pub open spec fn vals<F: PrimeField>(s: Seq<F>) -> Seq<int> {
    s.map_values(|x: F| x.val())
}

/// Every entry lies in `[0, m)`.
pub open spec fn canonical_seq(s: Seq<int>, m: int) -> bool {
    forall|i: int| 0 <= i < s.len() ==> 0 <= #[trigger] s[i] < m
}

proof fn lemma_square_step(r: int, b: int, k: nat, m: int)
    requires
        m > 0,
    ensures
        k % 2 == 1 ==> ((r * b) % m * pow((b * b) % m, k / 2)) % m == (r * pow(b, k)) % m,
        k % 2 == 0 ==> (r * pow((b * b) % m, k / 2)) % m == (r * pow(b, k)) % m,
{
    let j = k / 2;
    vstd::arithmetic::power::lemma_pow_mod_noop(b * b, j, m);
    vstd::arithmetic::power::lemma_square_is_pow2(b);
    vstd::arithmetic::power::lemma_pow_multiplies(b, 2, j);
    assert(pow(b * b, j) == pow(b, 2 * j));
    vstd::arithmetic::div_mod::lemma_mul_mod_noop_right(r, pow((b * b) % m, j), m);
    vstd::arithmetic::div_mod::lemma_mul_mod_noop_right(r, pow(b * b, j), m);
    if k % 2 == 1 {
        vstd::arithmetic::power::lemma_pow_adds(b, 2 * j, 1);
        vstd::arithmetic::power::lemma_pow1(b);
        assert(pow(b, k) == pow(b, 2 * j) * b);
        vstd::arithmetic::div_mod::lemma_mul_mod_noop_left(r * b, pow((b * b) % m, j), m);
        vstd::arithmetic::div_mod::lemma_mul_mod_noop_right(r * b, pow((b * b) % m, j), m);
        vstd::arithmetic::div_mod::lemma_mul_mod_noop_right(r * b, pow(b * b, j), m);
        assert((r * b) * pow(b, 2 * j) == r * (pow(b, 2 * j) * b)) by (nonlinear_arith);
    } else {
        assert(k == 2 * j);
    }
}

// The 62-bit field
// ------------------------------------------------------------------------------------------------

impl Felt62 {
    #[verifier::type_invariant]
    spec fn canonical(self) -> bool {
        self.v < MODULUS_62
    }

    /// The element of residue `x` modulo `MODULUS_62`.
    pub fn new(x: u64) -> (r: Self)
        ensures
            r.val() == (x as int) % (MODULUS_62 as int),
    {
        Felt62 { v: f62_reduce(x) }
    }
}

impl PrimeField for Felt62 {
    open spec fn modulus() -> int {
        MODULUS_62 as int
    }

    open spec fn exp_limit() -> int {
        0x1_0000_0000_0000_0000
    }

    closed spec fn val(&self) -> int {
        self.v as int
    }

    proof fn lemma_modulus() {
    }

    fn zero() -> (r: Self) {
        Felt62::new(0)
    }

    fn one() -> (r: Self) {
        Felt62::new(1)
    }

    fn add(self, o: Self) -> (r: Self) {
        Felt62 { v: f62_add(self.v, o.v) }
    }

    fn sub(self, o: Self) -> (r: Self) {
        Felt62 { v: f62_sub(self.v, o.v) }
    }

    fn mul(self, o: Self) -> (r: Self) {
        Felt62 { v: f62_mul(self.v, o.v) }
    }

    fn exp(self, e: u128) -> (r: Self) {
        Felt62 { v: f62_exp(self.v, e as u64) }
    }

    fn from_u128(x: u128) -> (r: Self) {
        Felt62 { v: f62_from_wide(x) }
    }

    fn as_int(&self) -> (r: u128) {
        self.v as u128
    }
}

/// Relies on winterfell's `From<u128>` for `f62::BaseElement` and `as_int`: a 128-bit integer
/// is taken to its canonical residue modulo `MODULUS_62`.
#[verifier::external_body]
fn f62_from_wide(x: u128) -> (r: u64)
    ensures
        r == (x as int) % (MODULUS_62 as int),
{
    f62::BaseElement::from(x).as_int()
}

/// Relies on winterfell's `f62::BaseElement::new` and `as_int`: an integer is taken to its
/// canonical residue modulo `MODULUS_62`.
#[verifier::external_body]
fn f62_reduce(x: u64) -> (r: u64)
    ensures
        r == (x as int) % (MODULUS_62 as int),
{
    f62::BaseElement::new(x).as_int()
}

/// Relies on winterfell's `Add` for `f62::BaseElement`: the sum modulo `MODULUS_62`.
#[verifier::external_body]
fn f62_add(a: u64, b: u64) -> (r: u64)
    ensures
        r == (a as int + b as int) % (MODULUS_62 as int),
{
    (f62::BaseElement::new(a) + f62::BaseElement::new(b)).as_int()
}

/// Relies on winterfell's `Sub` for `f62::BaseElement`: the difference modulo `MODULUS_62`.
#[verifier::external_body]
fn f62_sub(a: u64, b: u64) -> (r: u64)
    ensures
        r == (a as int - b as int) % (MODULUS_62 as int),
{
    (f62::BaseElement::new(a) - f62::BaseElement::new(b)).as_int()
}

/// Relies on winterfell's `Mul` for `f62::BaseElement`: the product modulo `MODULUS_62`.
#[verifier::external_body]
fn f62_mul(a: u64, b: u64) -> (r: u64)
    ensures
        r == (a as int * b as int) % (MODULUS_62 as int),
{
    (f62::BaseElement::new(a) * f62::BaseElement::new(b)).as_int()
}

/// Relies on winterfell's `FieldElement::exp` for `f62::BaseElement`: the power modulo `MODULUS_62`.
#[verifier::external_body]
fn f62_exp(a: u64, e: u64) -> (r: u64)
    ensures
        r == pow(a as int, e as nat) % (MODULUS_62 as int),
{
    f62::BaseElement::new(a).exp(e).as_int()
}

// The 64-bit field
// ------------------------------------------------------------------------------------------------

impl Felt64 {
    #[verifier::type_invariant]
    spec fn canonical(self) -> bool {
        self.v < MODULUS_64
    }

    /// The element of residue `x` modulo `MODULUS_64`.
    pub fn new(x: u64) -> (r: Self)
        ensures
            r.val() == (x as int) % (MODULUS_64 as int),
    {
        Felt64 { v: x % MODULUS_64 }
    }
}

/// The product of two residues modulo `MODULUS_64`.
fn mul_mod_p64(a: u64, b: u64) -> (r: u64)
    ensures
        r == (a as int * b as int) % (MODULUS_64 as int),
{
    let x = a as u128;
    let y = b as u128;
    proof {
        assert(x * y <= 0xFFFF_FFFF_FFFF_FFFF * 0xFFFF_FFFF_FFFF_FFFF) by (nonlinear_arith)
            requires
                x <= 0xFFFF_FFFF_FFFF_FFFF,
                y <= 0xFFFF_FFFF_FFFF_FFFF,
        ;
    }
    let p: u128 = (x * y) % (MODULUS_64 as u128);
    p as u64
}

/// A power modulo `MODULUS_64`, by repeated squaring.
fn pow_mod_p64(a: u64, e: u128) -> (r: u64)
    requires
        a < MODULUS_64,
    ensures
        r == pow(a as int, e as nat) % (MODULUS_64 as int),
{
    let mut r: u64 = 1;
    let mut b: u64 = a;
    let mut k: u128 = e;
    proof {
        vstd::arithmetic::power::lemma_pow_mod_noop(a as int, e as nat, MODULUS_64 as int);
    }
    while k > 0
        invariant
            r < MODULUS_64,
            b < MODULUS_64,
            (r * pow(b as int, k as nat)) % (MODULUS_64 as int) == pow(a as int, e as nat) % (MODULUS_64 as int),
        decreases k,
    {
        proof {
            lemma_square_step(r as int, b as int, k as nat, MODULUS_64 as int);
        }
        if k % 2 == 1 {
            r = mul_mod_p64(r, b);
        }
        b = mul_mod_p64(b, b);
        k = k / 2;
    }
    proof {
        vstd::arithmetic::power::lemma_pow0(b as int);
        vstd::arithmetic::div_mod::lemma_small_mod(r as nat, MODULUS_64 as nat);
    }
    r
}

impl PrimeField for Felt64 {
    open spec fn modulus() -> int {
        MODULUS_64 as int
    }

    open spec fn exp_limit() -> int {
        (0x1_0000_0000_0000_0000 * 0x1_0000_0000_0000_0000) as int
    }

    closed spec fn val(&self) -> int {
        self.v as int
    }

    proof fn lemma_modulus() {
    }

    fn zero() -> (r: Self) {
        Felt64::new(0)
    }

    fn one() -> (r: Self) {
        Felt64::new(1)
    }

    fn add(self, o: Self) -> (r: Self) {
        let s: u128 = (self.v as u128 + o.v as u128) % (MODULUS_64 as u128);
        Felt64 { v: s as u64 }
    }

    fn sub(self, o: Self) -> (r: Self) {
        proof {
            use_type_invariant(&self);
            use_type_invariant(&o);
        }
        let d: u64 = if self.v >= o.v {
            self.v - o.v
        } else {
            MODULUS_64 - (o.v - self.v)
        };
        Felt64 { v: d }
    }

    fn mul(self, o: Self) -> (r: Self) {
        Felt64 { v: mul_mod_p64(self.v, o.v) }
    }

    fn exp(self, e: u128) -> (r: Self) {
        proof {
            use_type_invariant(&self);
        }
        Felt64 { v: pow_mod_p64(self.v, e) }
    }

    fn from_u128(x: u128) -> (r: Self) {
        Felt64 { v: (x % (MODULUS_64 as u128)) as u64 }
    }

    fn as_int(&self) -> (r: u128) {
        self.v as u128
    }
}

// The 128-bit field
// ------------------------------------------------------------------------------------------------

/// The sum of two residues modulo `MODULUS_128`, without leaving `u128`.
fn add_mod_p128(a: u128, b: u128) -> (r: u128)
    requires
        a < MODULUS_128,
        b < MODULUS_128,
    ensures
        r == (a as int + b as int) % (MODULUS_128 as int),
{
    if a >= MODULUS_128 - b {
        proof {
            vstd::arithmetic::div_mod::lemma_small_mod((a + b - MODULUS_128) as nat, MODULUS_128 as nat);
            vstd::arithmetic::div_mod::lemma_mod_sub_multiples_vanish(a + b, MODULUS_128 as int);
        }
        a - (MODULUS_128 - b)
    } else {
        proof {
            vstd::arithmetic::div_mod::lemma_small_mod((a + b) as nat, MODULUS_128 as nat);
        }
        a + b
    }
}

proof fn lemma_double_and_add_step(r: int, x: int, k: nat, ab: int, m: int)
    requires
        m > 0,
        (r + x * k) % m == ab % m,
    ensures
        k % 2 == 1 ==> ((r + x) % m + ((x + x) % m) * (k / 2)) % m == ab % m,
        k % 2 == 0 ==> (r + ((x + x) % m) * (k / 2)) % m == ab % m,
{
    let j = k / 2;
    vstd::arithmetic::div_mod::lemma_mul_mod_noop_left(x + x, j as int, m);
    assert((x + x) * j == x * (2 * j)) by (nonlinear_arith);
    if k % 2 == 1 {
        assert(x * k == x * (2 * j) + x) by (nonlinear_arith)
            requires
                k == 2 * j + 1,
        ;
        vstd::arithmetic::div_mod::lemma_add_mod_noop(r + x, ((x + x) % m) * j, m);
        vstd::arithmetic::div_mod::lemma_add_mod_noop(r + x, (x + x) * j, m);
        vstd::arithmetic::div_mod::lemma_mod_twice(r + x, m);
        vstd::arithmetic::div_mod::lemma_add_mod_noop((r + x) % m, ((x + x) % m) * j, m);
    } else {
        assert(k == 2 * j);
        vstd::arithmetic::div_mod::lemma_add_mod_noop(r, ((x + x) % m) * j, m);
        vstd::arithmetic::div_mod::lemma_add_mod_noop(r, (x + x) * j, m);
    }
}

/// The product of two residues modulo `MODULUS_128`, by doubling and adding.
fn mul_mod_p128(a: u128, b: u128) -> (r: u128)
    requires
        a < MODULUS_128,
        b < MODULUS_128,
    ensures
        r == (a as int * b as int) % (MODULUS_128 as int),
{
    let mut r: u128 = 0;
    let mut x: u128 = a;
    let mut k: u128 = b;
    while k > 0
        invariant
            r < MODULUS_128,
            x < MODULUS_128,
            (r + x * k) % (MODULUS_128 as int) == (a * b) % (MODULUS_128 as int),
        decreases k,
    {
        proof {
            lemma_double_and_add_step(r as int, x as int, k as nat, a * b, MODULUS_128 as int);
        }
        if k % 2 == 1 {
            r = add_mod_p128(r, x);
        }
        x = add_mod_p128(x, x);
        k = k / 2;
    }
    proof {
        vstd::arithmetic::div_mod::lemma_small_mod(r as nat, MODULUS_128 as nat);
    }
    r
}

/// A power modulo `MODULUS_128`, by repeated squaring.
fn pow_mod_p128(a: u128, e: u128) -> (r: u128)
    requires
        a < MODULUS_128,
    ensures
        r == pow(a as int, e as nat) % (MODULUS_128 as int),
{
    let mut r: u128 = 1;
    let mut b: u128 = a;
    let mut k: u128 = e;
    proof {
        vstd::arithmetic::power::lemma_pow_mod_noop(a as int, e as nat, MODULUS_128 as int);
    }
    while k > 0
        invariant
            r < MODULUS_128,
            b < MODULUS_128,
            (r * pow(b as int, k as nat)) % (MODULUS_128 as int) == pow(a as int, e as nat) % (MODULUS_128 as int),
        decreases k,
    {
        proof {
            lemma_square_step(r as int, b as int, k as nat, MODULUS_128 as int);
        }
        if k % 2 == 1 {
            r = mul_mod_p128(r, b);
        }
        b = mul_mod_p128(b, b);
        k = k / 2;
    }
    proof {
        vstd::arithmetic::power::lemma_pow0(b as int);
        vstd::arithmetic::div_mod::lemma_small_mod(r as nat, MODULUS_128 as nat);
    }
    r
}

impl Felt128 {
    #[verifier::type_invariant]
    spec fn canonical(self) -> bool {
        self.v < MODULUS_128
    }

    /// The element of residue `x` modulo `MODULUS_128`.
    pub fn new(x: u128) -> (r: Self)
        ensures
            r.val() == (x as int) % (MODULUS_128 as int),
    {
        Felt128 { v: x % MODULUS_128 }
    }
}

impl PrimeField for Felt128 {
    open spec fn modulus() -> int {
        MODULUS_128 as int
    }

    open spec fn exp_limit() -> int {
        (0x1_0000_0000_0000_0000 * 0x1_0000_0000_0000_0000) as int
    }

    closed spec fn val(&self) -> int {
        self.v as int
    }

    proof fn lemma_modulus() {
    }

    fn zero() -> (r: Self) {
        Felt128::new(0)
    }

    fn one() -> (r: Self) {
        Felt128::new(1)
    }

    fn add(self, o: Self) -> (r: Self) {
        proof {
            use_type_invariant(&self);
            use_type_invariant(&o);
        }
        Felt128 { v: add_mod_p128(self.v, o.v) }
    }

    fn sub(self, o: Self) -> (r: Self) {
        proof {
            use_type_invariant(&self);
            use_type_invariant(&o);
        }
        let d: u128 = if self.v >= o.v {
            self.v - o.v
        } else {
            MODULUS_128 - (o.v - self.v)
        };
        Felt128 { v: d }
    }

    fn mul(self, o: Self) -> (r: Self) {
        proof {
            use_type_invariant(&self);
            use_type_invariant(&o);
        }
        Felt128 { v: mul_mod_p128(self.v, o.v) }
    }

    fn exp(self, e: u128) -> (r: Self) {
        proof {
            use_type_invariant(&self);
        }
        Felt128 { v: pow_mod_p128(self.v, e) }
    }

    fn from_u128(x: u128) -> (r: Self) {
        Felt128::new(x)
    }

    fn as_int(&self) -> (r: u128) {
        self.v as u128
    }
}

} // verus!
