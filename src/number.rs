use vstd::prelude::*;

verus! {

/// Largest magnitude of a mantissa that a [`Number`] holds.
pub const MAX_MANTISSA: i64 = 999_999_999_999_999;

/// Largest number of decimal places that a [`Number`] holds.
pub const MAX_SCALE: u32 = 12;

pub open spec fn pow10(n: nat) -> int
    decreases n,
{
    if n == 0 {
        1
    } else {
        10 * pow10((n - 1) as nat)
    }
}

pub proof fn lemma_pow10_positive(n: nat)
    ensures
        pow10(n) >= 1,
    decreases n,
{
    if n > 0 {
        lemma_pow10_positive((n - 1) as nat);
    }
}

/// How `a` compares with `b`.
pub open spec fn ordering(a: int, b: int) -> core::cmp::Ordering {
    if a < b {
        core::cmp::Ordering::Less
    } else if a > b {
        core::cmp::Ordering::Greater
    } else {
        core::cmp::Ordering::Equal
    }
}

pub open spec fn is_digit(c: char) -> bool {
    '0' <= c && c <= '9'
}

pub open spec fn digit_value(c: char) -> int {
    c as int - '0' as int
}

/// The value of a string of decimal digits.
pub open spec fn digits_value(s: Seq<char>) -> int
    decreases s.len(),
{
    if s.len() == 0 {
        0
    } else {
        digits_value(s.drop_last()) * 10 + digit_value(s.last())
    }
}

/// The number of digits in `t` from `i` on, up to the first non-digit.
pub open spec fn digit_run(t: Seq<char>, i: int) -> nat
    decreases t.len() - i,
{
    if 0 <= i < t.len() && is_digit(t[i]) {
        1 + digit_run(t, i + 1)
    } else {
        0
    }
}

pub open spec fn sign_len(t: Seq<char>) -> int {
    if t.len() > 0 && (t[0] == '+' || t[0] == '-') {
        1
    } else {
        0
    }
}

pub open spec fn int_end(t: Seq<char>) -> int {
    sign_len(t) + digit_run(t, sign_len(t))
}

pub open spec fn has_fraction(t: Seq<char>) -> bool {
    int_end(t) + 1 < t.len() && t[int_end(t)] == '.' && is_digit(t[int_end(t) + 1])
}

/// Where the mantissa of `t` ends: `[+-]? digits* ('.' digits+)?`.
pub open spec fn mantissa_end(t: Seq<char>) -> int {
    if has_fraction(t) {
        int_end(t) + 1 + digit_run(t, int_end(t) + 1)
    } else {
        int_end(t)
    }
}

/// All the digits of the numeric part, the decimal point left out.
pub open spec fn numeric_digits(t: Seq<char>) -> Seq<char> {
    if has_fraction(t) {
        t.subrange(sign_len(t), int_end(t)) + t.subrange(int_end(t) + 1, mantissa_end(t))
    } else {
        t.subrange(sign_len(t), int_end(t))
    }
}

pub open spec fn numeric_scale(t: Seq<char>) -> int {
    if has_fraction(t) {
        mantissa_end(t) - int_end(t) - 1
    } else {
        0
    }
}

pub open spec fn has_numeric_prefix(t: Seq<char>) -> bool {
    int_end(t) > sign_len(t) || has_fraction(t)
}

/// The mantissa of `t` fits a [`Number`].
pub open spec fn mantissa_fits(t: Seq<char>) -> bool {
    &&& has_numeric_prefix(t)
    &&& digits_value(numeric_digits(t)) <= MAX_MANTISSA
    &&& numeric_scale(t) <= MAX_SCALE
}

/// The value of the mantissa of `t`, before any exponent.
pub open spec fn mantissa_number(t: Seq<char>) -> Number {
    let v = digits_value(numeric_digits(t));
    Number {
        mantissa: (if t.len() > 0 && t[0] == '-' { -v } else { v }) as i64,
        scale: numeric_scale(t) as u32,
    }
}

/// An exponent follows the mantissa: `e` or `E`, a sign at most, and a digit.
pub open spec fn has_exponent(t: Seq<char>) -> bool {
    let e = mantissa_end(t);
    &&& has_numeric_prefix(t)
    &&& 0 <= e < t.len()
    &&& (t[e] == 'e' || t[e] == 'E')
    &&& ((e + 1 < t.len() && is_digit(t[e + 1]))
        || (e + 2 < t.len() && (t[e + 1] == '+' || t[e + 1] == '-') && is_digit(t[e + 2])))
}

/// Where the digits of the exponent begin.
pub open spec fn exponent_start(t: Seq<char>) -> int {
    let e = mantissa_end(t);
    if t[e + 1] == '+' || t[e + 1] == '-' {
        e + 2
    } else {
        e + 1
    }
}

/// The exponent, zero where there is none.
pub open spec fn exponent_value(t: Seq<char>) -> int {
    if has_exponent(t) {
        let s = exponent_start(t);
        let v = digits_value(t.subrange(s, s + digit_run(t, s)));
        if t[mantissa_end(t) + 1] == '-' {
            -v
        } else {
            v
        }
    } else {
        0
    }
}

/// Where the numeric part of `t` ends: `[+-]? digits* ('.' digits+)? ([eE] [+-]? digits+)?`.
pub open spec fn numeric_end(t: Seq<char>) -> int {
    if has_exponent(t) {
        exponent_start(t) + digit_run(t, exponent_start(t))
    } else {
        mantissa_end(t)
    }
}

/// The power of ten that the digits are multiplied by.
pub open spec fn numeric_shift(t: Seq<char>) -> int {
    exponent_value(t) - numeric_scale(t)
}

/// The numeric part of `t` fits a [`Number`]: its mantissa does, and the digits moved by
/// the exponent still do.
pub open spec fn numeric_fits(t: Seq<char>) -> bool {
    let v = digits_value(numeric_digits(t));
    &&& mantissa_fits(t)
    &&& if numeric_shift(t) >= 0 {
        v * pow10(numeric_shift(t) as nat) <= MAX_MANTISSA
    } else {
        -numeric_shift(t) <= MAX_SCALE
    }
}

/// The value of the numeric part of `t`.
pub open spec fn numeric_number(t: Seq<char>) -> Number {
    let v = digits_value(numeric_digits(t));
    let sh = numeric_shift(t);
    let m = if sh >= 0 { v * pow10(sh as nat) } else { v };
    Number {
        mantissa: (if t.len() > 0 && t[0] == '-' { -m } else { m }) as i64,
        scale: (if sh >= 0 { 0 } else { -sh }) as u32,
    }
}

pub proof fn lemma_digits_nonneg(s: Seq<char>)
    requires
        forall|i: int| 0 <= i < s.len() ==> is_digit(#[trigger] s[i]),
    ensures
        digits_value(s) >= 0,
    decreases s.len(),
{
    if s.len() > 0 {
        lemma_digits_nonneg(s.drop_last());
    }
}

/// A prefix of a digit string is worth no more than the whole.
pub proof fn lemma_digits_prefix(s: Seq<char>, k: int)
    requires
        0 <= k <= s.len(),
        forall|i: int| 0 <= i < s.len() ==> is_digit(#[trigger] s[i]),
    ensures
        digits_value(s.subrange(0, k)) <= digits_value(s),
    decreases s.len(),
{
    if k < s.len() {
        let d = s.drop_last();
        lemma_digits_prefix(d, k);
        assert(d.subrange(0, k) =~= s.subrange(0, k));
        lemma_digits_nonneg(d);
    } else {
        assert(s.subrange(0, k) =~= s);
    }
}

/// An exact decimal number: `mantissa / 10^scale`.
#[derive(Clone, Copy, Debug, PartialEq, Eq, Structural)]
pub struct Number {
    pub mantissa: i64,
    pub scale: u32,
}

impl Number {
    pub open spec fn wf(self) -> bool {
        -MAX_MANTISSA <= self.mantissa <= MAX_MANTISSA && self.scale <= MAX_SCALE
    }

    /// The number as a fraction `(numerator, denominator)`.
    pub open spec fn num(self) -> int {
        self.mantissa as int
    }

    pub open spec fn den(self) -> int {
        pow10(self.scale as nat)
    }

    /// Two numbers stand for the same value.
    pub open spec fn same(self, o: Number) -> bool {
        self.num() * o.den() == o.num() * self.den()
    }

    pub open spec fn from_int_spec(v: i64) -> Number {
        Number { mantissa: v, scale: 0 }
    }

    pub fn from_int(v: i64) -> (r: Number)
        requires
            -MAX_MANTISSA <= v <= MAX_MANTISSA,
        ensures
            r.wf(),
            r == Number::from_int_spec(v),
    {
        Number { mantissa: v, scale: 0 }
    }

    pub fn zero() -> (r: Number)
        ensures
            r.wf(),
            r.mantissa == 0,
            r.scale == 0,
    {
        Number { mantissa: 0, scale: 0 }
    }

    pub fn one() -> (r: Number)
        ensures
            r.wf(),
            r.mantissa == 1,
            r.scale == 0,
    {
        Number { mantissa: 1, scale: 0 }
    }

    pub fn is_zero(&self) -> (r: bool)
        ensures
            r == (self.mantissa == 0),
    {
        self.mantissa == 0
    }

    pub fn is_negative(&self) -> (r: bool)
        ensures
            r == (self.mantissa < 0),
    {
        self.mantissa < 0
    }

    /// An exact decimal is never infinite.
    pub fn is_infinite(&self) -> (r: bool)
        ensures
            !r,
    {
        false
    }

    /// Whether the number is at least one.
    pub fn at_least_one(&self) -> (r: bool)
        requires
            self.wf(),
        ensures
            r == (self.num() >= self.den()),
    {
        let one = scale_up(1, self.scale);
        self.mantissa as i128 >= one
    }

    /// Whether this number is smaller than `o`.
    pub fn less_than(&self, o: &Number) -> (r: bool)
        requires
            self.wf(),
            o.wf(),
        ensures
            r == (self.num() * o.den() < o.num() * self.den()),
    {
        let po = scale_up(1, o.scale);
        let ps = scale_up(1, self.scale);
        proof {
            lemma_pow10_positive(o.scale as nat);
            lemma_pow10_positive(self.scale as nat);
            lemma_pow10_monotone(o.scale as nat, MAX_SCALE as nat);
            lemma_pow10_monotone(self.scale as nat, MAX_SCALE as nat);
            lemma_pow10_twelve();
            lemma_mul_bound(self.mantissa as int, o.den());
            lemma_mul_bound(o.mantissa as int, self.den());
        }
        let a = self.mantissa as i128 * po;
        let b = o.mantissa as i128 * ps;
        a < b
    }

    /// The product, where it fits a number: `None` when its mantissa or scale would not.
    pub open spec fn times(self, o: Number) -> Option<Number> {
        let m = self.mantissa * o.mantissa;
        let sc = self.scale + o.scale;
        if -MAX_MANTISSA <= m <= MAX_MANTISSA && sc <= MAX_SCALE {
            Some(Number { mantissa: m as i64, scale: sc as u32 })
        } else {
            None
        }
    }

    pub fn mul(&self, o: &Number) -> (r: Option<Number>)
        requires
            self.wf(),
            o.wf(),
        ensures
            r == self.times(*o),
            r is Some ==> r->Some_0.wf(),
    {
        proof {
            assert(-1_000_000_000_000_000_000_000_000_000_000 <= self.mantissa * o.mantissa
                <= 1_000_000_000_000_000_000_000_000_000_000) by (nonlinear_arith)
                requires -MAX_MANTISSA <= self.mantissa <= MAX_MANTISSA, -MAX_MANTISSA <= o.mantissa <= MAX_MANTISSA;
        }
        let m = self.mantissa as i128 * o.mantissa as i128;
        if -(MAX_MANTISSA as i128) <= m && m <= MAX_MANTISSA as i128 && self.scale + o.scale <= MAX_SCALE {
            Some(Number { mantissa: m as i64, scale: self.scale + o.scale })
        } else {
            None
        }
    }

    /// The sum, at the larger of the two scales, where it fits a number.
    pub open spec fn plus(self, o: Number) -> Option<Number> {
        let sc: int = if self.scale >= o.scale { self.scale as int } else { o.scale as int };
        let m = self.mantissa * pow10((sc - self.scale) as nat) + o.mantissa * pow10((sc - o.scale) as nat);
        if -MAX_MANTISSA <= m <= MAX_MANTISSA {
            Some(Number { mantissa: m as i64, scale: sc as u32 })
        } else {
            None
        }
    }

    pub fn add(&self, o: &Number) -> (r: Option<Number>)
        requires
            self.wf(),
            o.wf(),
        ensures
            r == self.plus(*o),
            r is Some ==> r->Some_0.wf(),
    {
        let sc = if self.scale >= o.scale { self.scale } else { o.scale };
        let a = scale_up(self.mantissa, sc - self.scale);
        let b = scale_up(o.mantissa, sc - o.scale);
        proof {
            lemma_pow10_positive((sc - self.scale) as nat);
            lemma_pow10_positive((sc - o.scale) as nat);
            lemma_pow10_monotone((sc - self.scale) as nat, MAX_SCALE as nat);
            lemma_pow10_monotone((sc - o.scale) as nat, MAX_SCALE as nat);
            lemma_pow10_twelve();
            lemma_mul_bound(self.mantissa as int, pow10((sc - self.scale) as nat));
            lemma_mul_bound(o.mantissa as int, pow10((sc - o.scale) as nat));
        }
        let m = a + b;
        if -(MAX_MANTISSA as i128) <= m && m <= MAX_MANTISSA as i128 {
            Some(Number { mantissa: m as i64, scale: sc })
        } else {
            None
        }
    }

    /// How this number compares with `o` by value.
    pub fn compare(&self, o: &Number) -> (r: core::cmp::Ordering)
        requires
            self.wf(),
            o.wf(),
        ensures
            r == ordering(self.num() * o.den(), o.num() * self.den()),
    {
        if self.less_than(o) {
            core::cmp::Ordering::Less
        } else if o.less_than(self) {
            core::cmp::Ordering::Greater
        } else {
            core::cmp::Ordering::Equal
        }
    }

    /// Whether two numbers stand for the same value (`1.0` and `1` do).
    pub fn same_value(&self, o: &Number) -> (r: bool)
        requires
            self.wf(),
            o.wf(),
        ensures
            r == self.same(*o),
    {
        let a = scale_up(self.mantissa, MAX_SCALE - self.scale);
        let b = scale_up(o.mantissa, MAX_SCALE - o.scale);
        proof {
            lemma_pow10_add(self.scale as nat, (MAX_SCALE - self.scale) as nat);
            lemma_pow10_add(o.scale as nat, (MAX_SCALE - o.scale) as nat);
            lemma_pow10_positive(MAX_SCALE as nat);
            lemma_pow10_positive(self.scale as nat);
            lemma_pow10_positive(o.scale as nat);
            lemma_pow10_positive((MAX_SCALE - self.scale) as nat);
            lemma_pow10_positive((MAX_SCALE - o.scale) as nat);
            lemma_cross(self.num(), o.num(), self.den(), o.den(),
                pow10((MAX_SCALE - self.scale) as nat), pow10((MAX_SCALE - o.scale) as nat),
                pow10(MAX_SCALE as nat));
        }
        a == b
    }
}

pub proof fn lemma_pow10_add(a: nat, b: nat)
    ensures
        pow10(a) * pow10(b) == pow10(a + b),
    decreases a,
{
    if a > 0 {
        lemma_pow10_add((a - 1) as nat, b);
        assert(pow10(a) * pow10(b) == 10 * (pow10((a - 1) as nat) * pow10(b))) by (nonlinear_arith)
            requires pow10(a) == 10 * pow10((a - 1) as nat);
    }
}

proof fn lemma_cross(x: int, y: int, dx: int, dy: int, fx: int, fy: int, big: int)
    requires
        dx >= 1, dy >= 1, fx >= 1, fy >= 1,
        dx * fx == big,
        dy * fy == big,
    ensures
        (x * fx == y * fy) == (x * dy == y * dx),
{
    assert((x * fx) * (dx * dy) == (x * dy) * big) by (nonlinear_arith)
        requires dx * fx == big;
    assert((y * fy) * (dx * dy) == (y * dx) * big) by (nonlinear_arith)
        requires dy * fy == big;
    assert(dx * dy >= 1) by (nonlinear_arith) requires dx >= 1, dy >= 1;
    assert(big >= 1) by (nonlinear_arith) requires dx >= 1, fx >= 1, dx * fx == big;
    if x * fx == y * fy {
        assert((x * dy) * big == (y * dx) * big);
        assert(x * dy == y * dx) by (nonlinear_arith)
            requires (x * dy) * big == (y * dx) * big, big >= 1;
    }
    if x * dy == y * dx {
        assert((x * fx) * (dx * dy) == (y * fy) * (dx * dy));
        assert(x * fx == y * fy) by (nonlinear_arith)
            requires (x * fx) * (dx * dy) == (y * fy) * (dx * dy), dx * dy >= 1;
    }
}

/// `m * 10^k` as an `i128`.
pub fn scale_up(m: i64, k: u32) -> (r: i128)
    requires
        -MAX_MANTISSA <= m <= MAX_MANTISSA,
        k <= MAX_SCALE,
    ensures
        r == m * pow10(k as nat),
{
    let mut r: i128 = m as i128;
    let mut i: u32 = 0;
    proof {
        lemma_pow10_monotone(0, MAX_SCALE as nat);
    }
    while i < k
        invariant
            i <= k,
            k <= MAX_SCALE,
            -MAX_MANTISSA <= m <= MAX_MANTISSA,
            r == m * pow10(i as nat),
            pow10(i as nat) <= pow10(MAX_SCALE as nat),
        decreases k - i,
    {
        proof {
            lemma_pow10_monotone((i + 1) as nat, MAX_SCALE as nat);
            lemma_pow10_twelve();
            lemma_pow10_positive(i as nat);
            assert(m * pow10(i as nat) * 10 <= MAX_MANTISSA * 1_000_000_000_000) by (nonlinear_arith)
                requires -MAX_MANTISSA <= m <= MAX_MANTISSA, pow10(i as nat) * 10 <= 1_000_000_000_000,
                    pow10(i as nat) >= 1;
            assert(m * pow10(i as nat) * 10 >= -MAX_MANTISSA * 1_000_000_000_000) by (nonlinear_arith)
                requires -MAX_MANTISSA <= m <= MAX_MANTISSA, pow10(i as nat) * 10 <= 1_000_000_000_000,
                    pow10(i as nat) >= 1;
            assert(m * pow10((i + 1) as nat) == m * pow10(i as nat) * 10) by (nonlinear_arith)
                requires pow10((i + 1) as nat) == 10 * pow10(i as nat);
        }
        r = r * 10;
        i = i + 1;
    }
    r
}

/// A mantissa times a power of ten up to the largest scale fits in an `i128`.
pub proof fn lemma_mul_bound(m: int, p: int)
    requires
        -MAX_MANTISSA <= m <= MAX_MANTISSA,
        1 <= p <= 1_000_000_000_000,
    ensures
        -1_000_000_000_000_000_000_000_000_000 <= m * p <= 1_000_000_000_000_000_000_000_000_000,
{
    assert(-1_000_000_000_000_000_000_000_000_000 <= m * p <= 1_000_000_000_000_000_000_000_000_000)
        by (nonlinear_arith)
        requires -MAX_MANTISSA <= m <= MAX_MANTISSA, 1 <= p <= 1_000_000_000_000;
}

pub proof fn lemma_pow10_twelve()
    ensures
        pow10(12) == 1_000_000_000_000,
{
    reveal_with_fuel(pow10, 13);
}

pub proof fn lemma_pow10_monotone(a: nat, b: nat)
    requires
        a <= b,
    ensures
        pow10(a) <= pow10(b),
    decreases b,
{
    if a < b {
        lemma_pow10_monotone(a, (b - 1) as nat);
        lemma_pow10_positive((b - 1) as nat);
    }
}

/// Reads the mantissa `[+-]? digits* ('.' digits+)?` at the start of `t`: its value and
/// the number of characters it takes.
pub fn parse_mantissa(t: &str) -> (r: Option<(Number, usize)>)
    ensures
        match r {
            Some((n, e)) => mantissa_fits(t@) && n == mantissa_number(t@) && e == mantissa_end(t@)
                && n.wf() && e <= t@.len(),
            None => !mantissa_fits(t@),
        },
{
    let ghost s = t@;
    let len = t.unicode_len();
    let mut i: usize = 0;
    let mut neg = false;
    if len > 0 {
        let c = t.get_char(0);
        if c == '+' || c == '-' {
            neg = c == '-';
            i = 1;
        }
    }
    let s0 = i;
    assert(s0 == sign_len(s));
    let mut m: i64 = 0;
    // integer digits
    loop
        invariant
            len == s.len(),
            s == t@,
            s0 == sign_len(s),
            s0 <= i <= len,
            neg == (s.len() > 0 && s[0] == '-'),
            forall|j: int| s0 <= j < i ==> is_digit(#[trigger] s[j]),
            digit_run(s, s0 as int) == (i - s0) + digit_run(s, i as int),
            m == digits_value(s.subrange(s0 as int, i as int)),
            0 <= m <= MAX_MANTISSA,
        ensures
            digit_run(s, i as int) == 0,
            s0 <= i <= len,
            forall|j: int| s0 <= j < i ==> is_digit(#[trigger] s[j]),
            digit_run(s, s0 as int) == (i - s0) + digit_run(s, i as int),
            m == digits_value(s.subrange(s0 as int, i as int)),
            0 <= m <= MAX_MANTISSA,
        decreases len - i,
    {
        if i >= len {
            assert(digit_run(s, i as int) == 0);
            break;
        }
        let c = t.get_char(i);
        if !('0' <= c && c <= '9') {
            assert(digit_run(s, i as int) == 0);
            break;
        }
        let d = (c as u32 - '0' as u32) as i64;
        proof {
            assert(s.subrange(s0 as int, i + 1).drop_last() =~= s.subrange(s0 as int, i as int));
        }
        if m > (MAX_MANTISSA - d) / 10 {
            proof {
                assert(digit_run(s, i as int) == 1 + digit_run(s, i + 1));
                lemma_numeric_digits_prefix(s, (i + 1 - s0) as int);
            }
            return None;
        }
        m = m * 10 + d;
        i = i + 1;
    }
    let ie = i;
    assert(ie == int_end(s));
    let mut scale: u32 = 0;
    if len - i > 1 && t.get_char(i) == '.' && {
        let c = t.get_char(i + 1);
        '0' <= c && c <= '9'
    } {
        assert(has_fraction(s));
        i = i + 1;
        let ghost a = s.subrange(s0 as int, ie as int);
        assert(a + s.subrange(ie + 1, i as int) =~= a);
        loop
            invariant
                len == s.len(),
                s == t@,
                s0 == sign_len(s),
                ie == int_end(s),
                has_fraction(s),
                a == s.subrange(s0 as int, ie as int),
                ie + 1 <= i <= len,
                scale == i - ie - 1,
                neg == (s.len() > 0 && s[0] == '-'),
                forall|j: int| s0 <= j < ie ==> is_digit(#[trigger] s[j]),
                forall|j: int| ie + 1 <= j < i ==> is_digit(#[trigger] s[j]),
                digit_run(s, ie + 1) == (i - ie - 1) + digit_run(s, i as int),
                m == digits_value(a + s.subrange(ie + 1, i as int)),
                0 <= m <= MAX_MANTISSA,
                scale <= MAX_SCALE,
            ensures
                digit_run(s, i as int) == 0,
                ie + 1 <= i <= len,
                scale == i - ie - 1,
                digit_run(s, ie + 1) == (i - ie - 1) + digit_run(s, i as int),
                m == digits_value(a + s.subrange(ie + 1, i as int)),
                0 <= m <= MAX_MANTISSA,
                scale <= MAX_SCALE,
            decreases len - i,
        {
            if i >= len {
                assert(digit_run(s, i as int) == 0);
                break;
            }
            let c = t.get_char(i);
            if !('0' <= c && c <= '9') {
                assert(digit_run(s, i as int) == 0);
                break;
            }
            let d = (c as u32 - '0' as u32) as i64;
            proof {
                assert((a + s.subrange(ie + 1, i + 1)).drop_last() =~= a + s.subrange(ie + 1, i as int));
                assert(digit_run(s, i as int) == 1 + digit_run(s, i + 1));
            }
            if m > (MAX_MANTISSA - d) / 10 || scale == MAX_SCALE {
                proof {
                    let k = (i - s0) as int;
                    let nd = numeric_digits(s);
                    lemma_digit_run(s, ie + 1);
                    assert(mantissa_end(s) >= i + 1);
                    assert(nd == a + s.subrange(ie + 1, mantissa_end(s)));
                    assert(numeric_digits(s).subrange(0, k) =~= a + s.subrange(ie + 1, i + 1));
                    lemma_numeric_digits_all(s);
                    lemma_digits_prefix(numeric_digits(s), k);
                }
                return None;
            }
            m = m * 10 + d;
            scale = scale + 1;
            i = i + 1;
        }
        assert(i == mantissa_end(s));
        assert(numeric_digits(s) =~= a + s.subrange(ie + 1, i as int));
    } else {
        assert(!has_fraction(s));
        if ie == s0 {
            return None;
        }
    }
    let n = Number { mantissa: if neg { -m } else { m }, scale };
    Some((n, i))
}

/// Every character of [`numeric_digits`] is a digit.
proof fn lemma_numeric_digits_all(t: Seq<char>)
    ensures
        forall|i: int| 0 <= i < numeric_digits(t).len() ==> is_digit(#[trigger] numeric_digits(t)[i]),
{
    lemma_digit_run(t, sign_len(t));
    if has_fraction(t) {
        lemma_digit_run(t, int_end(t) + 1);
    }
}

proof fn lemma_digit_run(t: Seq<char>, i: int)
    requires
        0 <= i <= t.len(),
    ensures
        i + digit_run(t, i) <= t.len(),
        forall|j: int| i <= j < i + digit_run(t, i) ==> is_digit(#[trigger] t[j]),
    decreases t.len() - i,
{
    if i < t.len() && is_digit(t[i]) {
        lemma_digit_run(t, i + 1);
    }
}

/// Overflow on a prefix of the digits means overflow on all of them.
proof fn lemma_numeric_digits_prefix(t: Seq<char>, k: int)
    requires
        sign_len(t) + k <= int_end(t),
        0 <= k,
    ensures
        digits_value(t.subrange(sign_len(t), sign_len(t) + k)) <= digits_value(numeric_digits(t)),
{
    lemma_numeric_digits_all(t);
    lemma_digit_run(t, sign_len(t));
    assert(numeric_digits(t).subrange(0, k) =~= t.subrange(sign_len(t), sign_len(t) + k));
    lemma_digits_prefix(numeric_digits(t), k);
}

/// Where the exponent stops counting exactly; a larger one moves any digits out of range.
const EXPONENT_CAP: i64 = 100;

/// `v * 10^a` is at most `v * 10^b` for `a <= b`.
proof fn lemma_shift_grows(v: int, a: nat, b: nat)
    requires
        v >= 0,
        a <= b,
    ensures
        v * pow10(a) <= v * pow10(b),
{
    lemma_pow10_monotone(a, b);
    assert(v * pow10(a) <= v * pow10(b)) by (nonlinear_arith)
        requires v >= 0, pow10(a) <= pow10(b);
}

proof fn lemma_pow10_sixteen()
    ensures
        pow10(16) > MAX_MANTISSA,
{
    reveal_with_fuel(pow10, 17);
}

/// Reads the numeric part `[+-]? digits* ('.' digits+)? ([eE] [+-]? digits+)?` at the start
/// of `t`: its value and the number of characters it takes.
pub fn parse_numeric(t: &str) -> (r: Option<(Number, usize)>)
    ensures
        match r {
            Some((n, e)) => numeric_fits(t@) && n == numeric_number(t@) && e == numeric_end(t@)
                && n.wf() && e <= t@.len(),
            None => !numeric_fits(t@),
        },
{
    let ghost s = t@;
    let (n0, e0) = match parse_mantissa(t) {
        Some(x) => x,
        None => return None,
    };
    proof {
        lemma_numeric_digits_all(s);
        lemma_digits_nonneg(numeric_digits(s));
    }
    let ghost dv = digits_value(numeric_digits(s));
    let neg = n0.mantissa < 0;
    let mag: i64 = if neg { -n0.mantissa } else { n0.mantissa };
    assert(mag == dv);
    let len = t.unicode_len();
    // the exponent, if one follows
    let mut has_exp = false;
    let mut exp_start: usize = 0;
    let mut exp_neg = false;
    if e0 < len {
        let c = t.get_char(e0);
        if c == 'e' || c == 'E' {
            if len - e0 > 1 && is_digit_char(t.get_char(e0 + 1)) {
                has_exp = true;
                exp_start = e0 + 1;
            } else if len - e0 > 2 && (t.get_char(e0 + 1) == '+' || t.get_char(e0 + 1) == '-')
                && is_digit_char(t.get_char(e0 + 2)) {
                has_exp = true;
                exp_start = e0 + 2;
                exp_neg = t.get_char(e0 + 1) == '-';
            }
        }
    }
    assert(has_exp == has_exponent(s));
    let mut ev: i64 = 0;
    let mut j: usize = exp_start;
    if has_exp {
        assert(exp_start == exponent_start(s));
        while j < len
            invariant
                len == s.len(),
                s == t@,
                exp_start <= j <= len,
                forall|k: int| exp_start <= k < j ==> is_digit(#[trigger] s[k]),
                digit_run(s, exp_start as int) == (j - exp_start) + digit_run(s, j as int),
                ev == if digits_value(s.subrange(exp_start as int, j as int)) < EXPONENT_CAP {
                    digits_value(s.subrange(exp_start as int, j as int))
                } else {
                    EXPONENT_CAP as int
                },
                0 <= ev <= EXPONENT_CAP,
            ensures
                digit_run(s, j as int) == 0,
                exp_start <= j <= len,
                digit_run(s, exp_start as int) == (j - exp_start) + digit_run(s, j as int),
                ev == if digits_value(s.subrange(exp_start as int, j as int)) < EXPONENT_CAP {
                    digits_value(s.subrange(exp_start as int, j as int))
                } else {
                    EXPONENT_CAP as int
                },
                0 <= ev <= EXPONENT_CAP,
            decreases len - j,
        {
            let c = t.get_char(j);
            if !is_digit_char(c) {
                assert(digit_run(s, j as int) == 0);
                break;
            }
            let d = (c as u32 - '0' as u32) as i64;
            proof {
                assert(s.subrange(exp_start as int, j + 1).drop_last() =~= s.subrange(exp_start as int, j as int));
                lemma_digits_nonneg(s.subrange(exp_start as int, j as int));
            }
            ev = if ev >= EXPONENT_CAP || ev * 10 + d >= EXPONENT_CAP { EXPONENT_CAP } else { ev * 10 + d };
            j = j + 1;
        }
        assert(j == numeric_end(s));
    } else {
        j = e0;
    }
    let scale = n0.scale as i64;
    assert(scale == numeric_scale(s));
    assert(0 <= scale <= MAX_SCALE);
    assert(0 <= ev <= EXPONENT_CAP);
    if ev >= EXPONENT_CAP {
        // the exponent is at least the cap: only zero digits can move that far up
        proof {
            lemma_digits_nonneg(s.subrange(exp_start as int, j as int));
        }
        if exp_neg || mag != 0 {
            proof {
                if !exp_neg {
                    lemma_pow10_sixteen();
                    lemma_pow10_monotone(16, numeric_shift(s) as nat);
                    lemma_shift_grows(dv, 0, numeric_shift(s) as nat);
                    assert(dv * pow10(numeric_shift(s) as nat) >= pow10(numeric_shift(s) as nat)) by (nonlinear_arith)
                        requires dv >= 1, pow10(numeric_shift(s) as nat) >= 0;
                }
            }
            return None;
        }
        proof {
            assert(numeric_shift(s) >= 0);
            assert(dv * pow10(numeric_shift(s) as nat) == 0) by (nonlinear_arith)
                requires dv == 0;
        }
        return Some((Number { mantissa: 0, scale: 0 }, j));
    }
    let shift: i64 = (if exp_neg { -ev } else { ev }) - scale;
    assert(shift == numeric_shift(s));
    if shift < 0 {
        if -shift > MAX_SCALE as i64 {
            return None;
        }
        let n = Number { mantissa: if neg { -mag } else { mag }, scale: (-shift) as u32 };
        return Some((n, j));
    }
    // move the digits up by `shift` places
    let mut r: i64 = mag;
    let mut k: i64 = 0;
    proof {
        assert(dv * pow10(0) == dv);
    }
    while k < shift
        invariant
            0 <= k <= shift,
            shift == numeric_shift(s),
            s == t@,
            mantissa_fits(s),
            dv == digits_value(numeric_digits(s)),
            n0 == mantissa_number(s),
            neg == (n0.mantissa < 0),
            mag == dv,
            j == numeric_end(s),
            j <= s.len(),
            dv >= 0,
            r == dv * pow10(k as nat),
            0 <= r <= MAX_MANTISSA,
        decreases shift - k,
    {
        if r > MAX_MANTISSA / 10 {
            proof {
                assert(dv * pow10((k + 1) as nat) == 10 * r) by (nonlinear_arith)
                    requires r == dv * pow10(k as nat), pow10((k + 1) as nat) == 10 * pow10(k as nat);
                lemma_shift_grows(dv, (k + 1) as nat, shift as nat);
                assert(dv * pow10(numeric_shift(s) as nat) > MAX_MANTISSA);
                assert(!numeric_fits(s));
            }
            return None;
        }
        proof {
            assert(dv * pow10((k + 1) as nat) == 10 * r) by (nonlinear_arith)
                requires r == dv * pow10(k as nat), pow10((k + 1) as nat) == 10 * pow10(k as nat);
        }
        r = r * 10;
        k = k + 1;
    }
    let n = Number { mantissa: if neg { -r } else { r }, scale: 0 };
    Some((n, j))
}

fn is_digit_char(c: char) -> (r: bool)
    ensures
        r == is_digit(c),
{
    '0' <= c && c <= '9'
}

} // verus!
