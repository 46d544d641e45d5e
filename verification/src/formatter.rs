//! Numbers, groups of numbers, roots and fractions as plain text and as
//! LaTeX.

use vstd::prelude::*;
use vstd::string::*;
use crate::helper::{choose_str, one_of};
use crate::text::{decimal, join3, push_decimal};

verus! {

pub const LABEL_KMH: &'static str = "\\text{kmh}^{-1}";

pub const LABEL_KMS: &'static str = "\\text{kms}^{-1}";

pub const LABEL_MH: &'static str = "\\text{mh}^{-1}";

pub const LABEL_MS: &'static str = "\\text{ms}^{-1}";

pub const LABEL_KG: &'static str = "\\text{kg}";

pub const LABEL_G: &'static str = "\\text{g}";

pub const LABEL_KAS: &'static str = "\\text{kms}^{-2}";

pub const LABEL_KAH: &'static str = "\\text{kmh}^{-2}";

pub const LABEL_AS: &'static str = "\\text{ms}^{-2}";

pub const LABEL_AH: &'static str = "\\text{mh}^{-2}";

pub const LABEL_M: &'static str = "\\text{m}";

pub const LABEL_KM: &'static str = "\\text{km}";

pub const LABEL_KMH_RAW: &'static str = "kmh^-1";

pub const LABEL_KMS_RAW: &'static str = "kms^-1";

pub const LABEL_MH_RAW: &'static str = "mh^-1";

pub const LABEL_MS_RAW: &'static str = "ms^-1";

pub const LABEL_KG_RAW: &'static str = "kg";

pub const LABEL_G_RAW: &'static str = "g";

pub const LABEL_KAS_RAW: &'static str = "kms^-2";

pub const LABEL_KAH_RAW: &'static str = "kmh^-2";

pub const LABEL_AS_RAW: &'static str = "ms^-2";

pub const LABEL_AH_RAW: &'static str = "mh^-2";

pub const LABEL_M_RAW: &'static str = "m";

pub const LABEL_KM_RAW: &'static str = "km";

/// The number of components that have a label.
pub const LABELLED_COMPONENTS_LEN: usize = 10;

pub const DEFAULT_SIG_FIGURES: usize = 3;

/// The plain label of a vector's component: `i`, `j`, `k` and so on.
pub open spec fn component_raw_text(i: int) -> Seq<char> {
    if i == 0 {
        "i"@
    } else if i == 1 {
        "j"@
    } else if i == 2 {
        "k"@
    } else if i == 3 {
        "l"@
    } else if i == 4 {
        "m"@
    } else if i == 5 {
        "n"@
    } else if i == 6 {
        "w"@
    } else if i == 7 {
        "p"@
    } else if i == 8 {
        "q"@
    } else {
        "r"@
    }
}

/// The LaTeX label of a vector's component: a bold letter under a hat.
pub open spec fn component_text(i: int) -> Seq<char> {
    if i == 0 {
        "\\hat{\\mathbf{i}}"@
    } else if i == 1 {
        "\\hat{\\mathbf{j}}"@
    } else if i == 2 {
        "\\hat{\\mathbf{k}}"@
    } else if i == 3 {
        "\\hat{\\mathbf{l}}"@
    } else if i == 4 {
        "\\hat{\\mathbf{m}}"@
    } else if i == 5 {
        "\\hat{\\mathbf{n}}"@
    } else if i == 6 {
        "\\hat{\\mathbf{w}}"@
    } else if i == 7 {
        "\\hat{\\mathbf{p}}"@
    } else if i == 8 {
        "\\hat{\\mathbf{q}}"@
    } else {
        "\\hat{\\mathbf{r}}"@
    }
}

/// The plain label of the component at a place.
pub fn labelled_component_raw(i: usize) -> (r: &'static str)
    requires
        i < LABELLED_COMPONENTS_LEN,
    ensures
        r@ == component_raw_text(i as int),
{
    if i == 0 {
        "i"
    } else if i == 1 {
        "j"
    } else if i == 2 {
        "k"
    } else if i == 3 {
        "l"
    } else if i == 4 {
        "m"
    } else if i == 5 {
        "n"
    } else if i == 6 {
        "w"
    } else if i == 7 {
        "p"
    } else if i == 8 {
        "q"
    } else {
        "r"
    }
}

/// The LaTeX label of the component at a place.
pub fn labelled_component(i: usize) -> (r: &'static str)
    requires
        i < LABELLED_COMPONENTS_LEN,
    ensures
        r@ == component_text(i as int),
{
    if i == 0 {
        "\\hat{\\mathbf{i}}"
    } else if i == 1 {
        "\\hat{\\mathbf{j}}"
    } else if i == 2 {
        "\\hat{\\mathbf{k}}"
    } else if i == 3 {
        "\\hat{\\mathbf{l}}"
    } else if i == 4 {
        "\\hat{\\mathbf{m}}"
    } else if i == 5 {
        "\\hat{\\mathbf{n}}"
    } else if i == 6 {
        "\\hat{\\mathbf{w}}"
    } else if i == 7 {
        "\\hat{\\mathbf{p}}"
    } else if i == 8 {
        "\\hat{\\mathbf{q}}"
    } else {
        "\\hat{\\mathbf{r}}"
    }
}

/// The Greek letters that can name an angle, as LaTeX.
pub open spec fn labelled_symbols_spec() -> Seq<&'static str> {
    seq![
        "\\alpha",
        "\\beta",
        "\\gamma",
        "\\delta",
        "\\epsilon",
        "\\zeta",
        "\\eta",
        "\\theta",
        "\\iota",
        "\\kappa",
    ]
}

/// The capital letters that can name a thing, plain. There is no `T`: it
/// stands for time.
pub open spec fn labelled_identifiers_raw_spec() -> Seq<&'static str> {
    seq![
        "A",
        "B",
        "C",
        "D",
        "E",
        "F",
        "G",
        "H",
        "I",
        "J",
        "K",
        "L",
        "M",
        "N",
        "O",
        "P",
        "Q",
        "R",
        "S",
        "U",
        "V",
        "W",
        "X",
        "Y",
        "Z",
    ]
}

/// The capital letters that can name a thing, as bold LaTeX, in the order of
/// the plain ones.
pub open spec fn labelled_identifiers_spec() -> Seq<&'static str> {
    seq![
        "\\mathbf{A}",
        "\\mathbf{B}",
        "\\mathbf{C}",
        "\\mathbf{D}",
        "\\mathbf{E}",
        "\\mathbf{F}",
        "\\mathbf{G}",
        "\\mathbf{H}",
        "\\mathbf{I}",
        "\\mathbf{J}",
        "\\mathbf{K}",
        "\\mathbf{L}",
        "\\mathbf{M}",
        "\\mathbf{N}",
        "\\mathbf{O}",
        "\\mathbf{P}",
        "\\mathbf{Q}",
        "\\mathbf{R}",
        "\\mathbf{S}",
        "\\mathbf{U}",
        "\\mathbf{V}",
        "\\mathbf{W}",
        "\\mathbf{X}",
        "\\mathbf{Y}",
        "\\mathbf{Z}",
    ]
}

/// The Greek letters that can name an angle.
pub fn labelled_symbols() -> (r: Vec<&'static str>)
    ensures
        r@ == labelled_symbols_spec(),
{
    let mut out: Vec<&'static str> = Vec::new();
    out.push("\\alpha");
    out.push("\\beta");
    out.push("\\gamma");
    out.push("\\delta");
    out.push("\\epsilon");
    out.push("\\zeta");
    out.push("\\eta");
    out.push("\\theta");
    out.push("\\iota");
    out.push("\\kappa");
    assert(out@ =~= labelled_symbols_spec());
    out
}

/// The plain capital letters that can name a thing.
pub fn labelled_identifiers_raw() -> (r: Vec<&'static str>)
    ensures
        r@ == labelled_identifiers_raw_spec(),
{
    let mut out: Vec<&'static str> = Vec::new();
    out.push("A");
    out.push("B");
    out.push("C");
    out.push("D");
    out.push("E");
    out.push("F");
    out.push("G");
    out.push("H");
    out.push("I");
    out.push("J");
    out.push("K");
    out.push("L");
    out.push("M");
    out.push("N");
    out.push("O");
    out.push("P");
    out.push("Q");
    out.push("R");
    out.push("S");
    out.push("U");
    out.push("V");
    out.push("W");
    out.push("X");
    out.push("Y");
    out.push("Z");
    assert(out@ =~= labelled_identifiers_raw_spec());
    out
}

/// The bold capital letters that can name a thing.
pub fn labelled_identifiers() -> (r: Vec<&'static str>)
    ensures
        r@ == labelled_identifiers_spec(),
{
    let mut out: Vec<&'static str> = Vec::new();
    out.push("\\mathbf{A}");
    out.push("\\mathbf{B}");
    out.push("\\mathbf{C}");
    out.push("\\mathbf{D}");
    out.push("\\mathbf{E}");
    out.push("\\mathbf{F}");
    out.push("\\mathbf{G}");
    out.push("\\mathbf{H}");
    out.push("\\mathbf{I}");
    out.push("\\mathbf{J}");
    out.push("\\mathbf{K}");
    out.push("\\mathbf{L}");
    out.push("\\mathbf{M}");
    out.push("\\mathbf{N}");
    out.push("\\mathbf{O}");
    out.push("\\mathbf{P}");
    out.push("\\mathbf{Q}");
    out.push("\\mathbf{R}");
    out.push("\\mathbf{S}");
    out.push("\\mathbf{U}");
    out.push("\\mathbf{V}");
    out.push("\\mathbf{W}");
    out.push("\\mathbf{X}");
    out.push("\\mathbf{Y}");
    out.push("\\mathbf{Z}");
    assert(out@ =~= labelled_identifiers_spec());
    out
}

/// A text set in LaTeX's inline math mode.
pub open spec fn math_text(inner: Seq<char>) -> Seq<char> {
    "\\("@ + inner + "\\)"@
}

/// Sets a text in LaTeX's inline math mode.
pub fn math_mode(inner: &str) -> (r: String)
    ensures
        r@ == math_text(inner@),
{
    join3("\\(", inner, "\\)")
}

/// The remainder that Rust's `%` gives: it has the sign of the dividend.
pub open spec fn rem(a: int, b: int) -> int {
    if a >= 0 {
        a % b
    } else {
        -((-a) % b)
    }
}

/// The absolute value.
pub open spec fn abs(a: int) -> int {
    if a < 0 {
        -a
    } else {
        a
    }
}

/// What Euclid's algorithm on remainders leaves of two integers.
pub open spec fn euclid(a: int, b: int) -> int
    decreases abs(b),
{
    if b == 0 {
        a
    } else {
        euclid(b, rem(a, abs(b)))
    }
}

/// `d` divides `n`: `n` is a multiple of `d`.
pub open spec fn divides(d: int, n: int) -> bool {
    exists|k: int| n == #[trigger] (k * d)
}

/// The greatest common divisor of two integers by Euclid's algorithm; its
/// sign is that of the last remainder, as the remainders of negative numbers
/// are negative. The remainder of `i32::MIN` by `-1` does not exist, so the
/// two pairs that lead to it are left out.
pub fn gcd(a: i32, b: i32) -> (r: i32)
    requires
        !(a == i32::MIN && b == -1),
        !(a == -1 && b == i32::MIN),
    ensures
        r == euclid(a as int, b as int),
{
    let mut x = a;
    let mut y = b;
    while y != 0
        invariant
            !(x == i32::MIN && y == -1),
            !(x == -1 && y == i32::MIN),
            euclid(x as int, y as int) == euclid(a as int, b as int),
        decreases abs(y as int),
    {
        let temp = y;
        let next = signed_rem(x, y);
        proof {
            lemma_rem_small(x as int, abs(y as int));
        }
        x = temp;
        y = next;
    }
    x
}

/// Of two integers that are not negative, `euclid` is the greatest common
/// divisor: it is not negative, it divides both, every integer that divides
/// both divides it, and it is 0 only where both are.
pub proof fn lemma_euclid_is_the_gcd(a: int, b: int)
    requires
        a >= 0,
        b >= 0,
    ensures
        euclid(a, b) >= 0,
        divides(euclid(a, b), a),
        divides(euclid(a, b), b),
        forall|d: int| divides(d, a) && divides(d, b) ==> #[trigger] divides(d, euclid(a, b)),
        euclid(a, b) == 0 <==> a == 0 && b == 0,
    decreases b,
{
    if b == 0 {
        assert(a == 1 * a);
        assert(0 == 0 * a);
    } else {
        let q = a / b;
        let r = a % b;
        assert(0 <= r < b && a == q * b + r) by (nonlinear_arith)
            requires
                b > 0,
                q == a / b,
                r == a % b,
        ;
        lemma_euclid_is_the_gcd(b, r);
        let g = euclid(b, r);
        let kb = choose|k: int| b == #[trigger] (k * g);
        let kr = choose|k: int| r == #[trigger] (k * g);
        assert(a == (q * kb + kr) * g) by (nonlinear_arith)
            requires
                a == q * b + r,
                b == kb * g,
                r == kr * g,
        ;
        assert forall|d: int| divides(d, a) && divides(d, b) implies #[trigger] divides(
            d,
            euclid(a, b),
        ) by {
            let ka = choose|k: int| a == #[trigger] (k * d);
            let kd = choose|k: int| b == #[trigger] (k * d);
            assert(r == (ka - q * kd) * d) by (nonlinear_arith)
                requires
                    a == q * b + r,
                    a == ka * d,
                    b == kd * d,
            ;
            assert(divides(d, r));
        }
    }
}

/// Of any two integers, the size of `euclid` is `euclid` of their sizes:
/// signs change the sign of the result and nothing else.
pub proof fn lemma_euclid_size(a: int, b: int)
    ensures
        abs(euclid(a, b)) == euclid(abs(a), abs(b)),
    decreases abs(b),
{
    if b != 0 {
        lemma_rem_small(a, abs(b));
        lemma_euclid_size(b, rem(a, abs(b)));
    }
}

/// The remainder of a division is smaller in size than the divisor.
proof fn lemma_rem_small(a: int, b: int)
    requires
        b > 0,
    ensures
        abs(rem(a, b)) < b,
{
    if a >= 0 {
        assert(0 <= a % b < b) by (nonlinear_arith)
            requires
                b > 0,
        ;
    } else {
        assert(0 <= (-a) % b < b) by (nonlinear_arith)
            requires
                b > 0,
        ;
    }
}

/// The remainder `a % b` as Rust defines it, worked out on sizes.
fn signed_rem(a: i32, b: i32) -> (r: i32)
    requires
        b != 0,
        !(a == i32::MIN && b == -1),
    ensures
        r == rem(a as int, abs(b as int)),
{
    let size_a: u32 = if a < 0 {
        (-(a as i64)) as u32
    } else {
        a as u32
    };
    let size_b: u32 = if b < 0 {
        (-(b as i64)) as u32
    } else {
        b as u32
    };
    let size_r: u32 = size_a % size_b;
    if a < 0 {
        (-(size_r as i64)) as i32
    } else {
        size_r as i32
    }
}

/// No square larger than one divides the number.
pub open spec fn square_free(n: int) -> bool {
    forall|k: int| k >= 2 ==> #[trigger] (n % (k * k)) != 0
}

/// The largest index for which the squares tried by `simplify_square_root`
/// fit in an `i32`.
pub const MAX_RADICAND: i32 = 46340;

/// Takes the squares out of a radicand: `n` is the square of the first
/// number times the second, and the second has no square factor left among
/// the numbers up to `n`. What is not positive has no root here and gives
/// two zeros.
pub fn simplify_square_root(n: i32) -> (r: (i32, i32))
    requires
        n <= MAX_RADICAND,
    ensures
        n <= 0 ==> r == (0i32, 0i32),
        n >= 1 ==> r.0 >= 1 && r.1 >= 1 && r.0 * r.0 * r.1 == n,
        n >= 1 ==> forall|k: int| 2 <= k <= n ==> #[trigger] ((r.1 as int) % (k * k)) != 0,
{
    if n <= 0 {
        return (0, 0);
    }
    if n == 1 {
        assert forall|k: int| 2 <= k <= 1 implies #[trigger] (1int % (k * k)) != 0 by {}
        return (1, 1);
    }
    let mut remaining: i32 = n;
    let mut mul: i32 = 1;
    let mut i: i32 = 2;
    assert(mul * mul * remaining == n) by (nonlinear_arith)
        requires
            mul == 1,
            remaining == n,
    ;
    while i <= n
        invariant
            2 <= i <= n + 1,
            2 <= n <= MAX_RADICAND,
            1 <= mul,
            1 <= remaining <= n,
            mul * mul * remaining == n,
            forall|k: int| 2 <= k < i ==> #[trigger] ((remaining as int) % (k * k)) != 0,
        decreases n + 1 - i,
    {
        assert(i * i <= MAX_RADICAND * MAX_RADICAND) by (nonlinear_arith)
            requires
                2 <= i <= MAX_RADICAND,
        ;
        let square: i32 = i * i;
        assert(square >= 4) by (nonlinear_arith)
            requires
                square == i * i,
                i >= 2,
        ;
        while remaining % square == 0
            invariant
                2 <= i <= n,
                2 <= n <= MAX_RADICAND,
                square == i * i,
                square >= 4,
                1 <= mul,
                1 <= remaining <= n,
                mul * mul * remaining == n,
                forall|k: int| 2 <= k < i ==> #[trigger] ((remaining as int) % (k * k)) != 0,
            decreases remaining,
        {
            let quotient: i32 = remaining / square;
            proof {
                lemma_take_square(n as int, mul as int, remaining as int, i as int);
                assert forall|k: int| 2 <= k < i implies #[trigger] ((quotient as int) % (k * k))
                    != 0 by {
                    assert(k * k > 0) by (nonlinear_arith)
                        requires
                            k >= 2,
                    ;
                    lemma_factor_of_quotient(remaining as int, square as int, k * k);
                }
            }
            mul = mul * i;
            remaining = quotient;
        }
        i += 1;
    }
    (mul, remaining)
}

/// Taking one square out keeps the product, and everything in bounds.
proof fn lemma_take_square(n: int, mul: int, remaining: int, i: int)
    requires
        i >= 2,
        mul >= 1,
        remaining >= 1,
        mul * mul * remaining == n,
        remaining % (i * i) == 0,
    ensures
        1 <= remaining / (i * i) < remaining,
        (mul * i) * (mul * i) * (remaining / (i * i)) == n,
        1 <= mul * i <= n,
{
    let sq = i * i;
    let q = remaining / sq;
    assert(sq >= 4) by (nonlinear_arith)
        requires
            i >= 2,
            sq == i * i,
    ;
    vstd::arithmetic::div_mod::lemma_fundamental_div_mod(remaining, sq);
    assert(remaining == sq * q);
    assert(q >= 1 && q < remaining) by (nonlinear_arith)
        requires
            remaining == sq * q,
            remaining >= 1,
            sq >= 4,
    ;
    assert((mul * i) * (mul * i) * q == mul * mul * (sq * q)) by (nonlinear_arith)
        requires
            sq == i * i,
    ;
    assert(mul * i >= 1 && mul * i <= (mul * i) * (mul * i) * q) by (nonlinear_arith)
        requires
            mul >= 1,
            i >= 2,
            q >= 1,
    ;
}

/// What divides a quotient divides the number that was divided.
proof fn lemma_factor_of_quotient(n: int, d: int, k: int)
    requires
        d > 0,
        k > 0,
        n >= 0,
        n % d == 0,
        n % k != 0,
    ensures
        (n / d) % k != 0,
{
    if (n / d) % k == 0 {
        let q = n / d;
        vstd::arithmetic::div_mod::lemma_fundamental_div_mod(n, d);
        vstd::arithmetic::div_mod::lemma_fundamental_div_mod(q, k);
        let m = q / k;
        assert(n == k * (d * m)) by (nonlinear_arith)
            requires
                n == d * q,
                q == k * m,
        ;
        vstd::arithmetic::div_mod::lemma_mod_multiples_basic(d * m, k);
        assert((d * m) * k == k * (d * m)) by (nonlinear_arith);
    }
}

/// A number as decimal text.
pub fn format_i32_raw(value: i32) -> (r: String)
    ensures
        r@ == decimal(value as int),
{
    let mut out = String::new();
    push_decimal(&mut out, value as i64);
    assert(out@ =~= decimal(value as int));
    out
}

/// A number in math mode.
pub fn format_i32(value: i32) -> (r: String)
    ensures
        r@ == math_text(decimal(value as int)),
{
    let raw_format = format_i32_raw(value);
    math_mode(raw_format.as_str())
}

/// The LaTeX of a tick for `true` and of a cross for `false`.
pub open spec fn bool_text(value: bool) -> Seq<char> {
    if value {
        "\\unicode{x2714}"@
    } else {
        "\\unicode{x2718}"@
    }
}

/// A tick or a cross.
pub fn format_bool_raw(value: bool) -> (r: &'static str)
    ensures
        r@ == bool_text(value),
{
    match value {
        true => "\\unicode{x2714}",
        false => "\\unicode{x2718}",
    }
}

/// A tick or a cross in math mode.
pub fn format_bool(value: bool) -> (r: String)
    ensures
        r@ == math_text(bool_text(value)),
{
    math_mode(format_bool_raw(value))
}

/// Which labels the numbers of a group carry.
#[derive(Clone, Copy, Debug, PartialEq, Eq, Structural)]
pub enum Labels {
    /// None.
    Bare,
    /// The plain labels of the components.
    Raw,
    /// The LaTeX labels of the components.
    Latex,
}

/// What stands between the numbers of a group.
#[derive(Clone, Copy, Debug, PartialEq, Eq, Structural)]
pub enum Joint {
    /// A plus sign in front of every number but the first that is not
    /// negative: the numbers form a sum.
    Sign,
    /// A comma and a space in front of every number but the first.
    Comma,
    /// A comma and an ampersand behind every number but the last.
    Column,
}

/// The label of the number at a place.
pub open spec fn label_text(labels: Labels, i: int) -> Seq<char> {
    match labels {
        Labels::Bare => Seq::empty(),
        Labels::Raw => component_raw_text(i),
        Labels::Latex => component_text(i),
    }
}

/// What stands in front of the number at a place.
pub open spec fn lead_text(values: Seq<i32>, i: int, joint: Joint) -> Seq<char> {
    match joint {
        Joint::Sign => if i > 0 && values[i] >= 0 {
            "+"@
        } else {
            Seq::empty()
        },
        Joint::Comma => if i > 0 {
            ", "@
        } else {
            Seq::empty()
        },
        Joint::Column => Seq::empty(),
    }
}

/// What stands behind the number at a place and its label.
pub open spec fn trail_text(values: Seq<i32>, i: int, joint: Joint) -> Seq<char> {
    match joint {
        Joint::Column => if i < values.len() - 1 {
            ",&"@
        } else {
            Seq::empty()
        },
        _ => Seq::empty(),
    }
}

/// The text of the number at a place, with its label and what joins it to
/// its neighbours.
pub open spec fn item_text(values: Seq<i32>, i: int, labels: Labels, joint: Joint) -> Seq<char> {
    lead_text(values, i, joint) + decimal(values[i] as int) + label_text(labels, i) + trail_text(
        values,
        i,
        joint,
    )
}

/// The texts of the first `upto` numbers in a row.
pub open spec fn items_text(values: Seq<i32>, upto: int, labels: Labels, joint: Joint) -> Seq<char>
    decreases upto,
{
    if upto <= 0 {
        Seq::empty()
    } else {
        items_text(values, upto - 1, labels, joint) + item_text(values, upto - 1, labels, joint)
    }
}

/// The text of a group: an opening, the numbers, a closing.
pub open spec fn group_text(
    open: Seq<char>,
    values: Seq<i32>,
    labels: Labels,
    joint: Joint,
    close: Seq<char>,
) -> Seq<char> {
    open + items_text(values, values.len() as int, labels, joint) + close
}

/// Appends what stands in front of the number at a place.
fn push_lead(result: &mut String, values: &[i32], i: usize, joint: Joint)
    requires
        i < values@.len(),
    ensures
        final(result)@ == old(result)@ + lead_text(values@, i as int, joint),
{
    match joint {
        Joint::Sign => {
            if i > 0 && values[i] >= 0 {
                result.append("+");
            }
        },
        Joint::Comma => {
            if i > 0 {
                result.append(", ");
            }
        },
        Joint::Column => {},
    }
    assert(result@ =~= old(result)@ + lead_text(values@, i as int, joint));
}

/// Appends the label of the number at a place.
fn push_label(result: &mut String, i: usize, labels: Labels)
    requires
        labels != Labels::Bare ==> i < LABELLED_COMPONENTS_LEN,
    ensures
        final(result)@ == old(result)@ + label_text(labels, i as int),
{
    match labels {
        Labels::Bare => {},
        Labels::Raw => {
            result.append(labelled_component_raw(i));
        },
        Labels::Latex => {
            result.append(labelled_component(i));
        },
    }
    assert(result@ =~= old(result)@ + label_text(labels, i as int));
}

/// Appends what stands behind the number at a place.
fn push_trail(result: &mut String, values: &[i32], i: usize, joint: Joint)
    requires
        i < values@.len(),
    ensures
        final(result)@ == old(result)@ + trail_text(values@, i as int, joint),
{
    match joint {
        Joint::Column => {
            if i < values.len() - 1 {
                result.append(",&");
            }
        },
        _ => {},
    }
    assert(result@ =~= old(result)@ + trail_text(values@, i as int, joint));
}

/// Writes a group of numbers.
pub fn format_items(open: &str, values: &[i32], labels: Labels, joint: Joint, close: &str) -> (r:
    String)
    requires
        labels != Labels::Bare ==> values@.len() <= LABELLED_COMPONENTS_LEN,
    ensures
        r@ == group_text(open@, values@, labels, joint, close@),
{
    let mut result = String::from_str(open);
    let mut i: usize = 0;
    assert(result@ =~= open@ + items_text(values@, 0, labels, joint));
    while i < values.len()
        invariant
            i <= values.len(),
            labels != Labels::Bare ==> values@.len() <= LABELLED_COMPONENTS_LEN,
            result@ == open@ + items_text(values@, i as int, labels, joint),
        decreases values.len() - i,
    {
        let ghost before = result@;
        push_lead(&mut result, values, i, joint);
        push_decimal(&mut result, values[i] as i64);
        push_label(&mut result, i, labels);
        push_trail(&mut result, values, i, joint);
        assert(result@ =~= before + item_text(values@, i as int, labels, joint));
        i += 1;
    }
    result.append(close);
    result
}

/// The opening of a LaTeX column.
pub open spec fn matrix_open() -> Seq<char> {
    "\\begin{pmatrix} "@
}

/// The closing of a LaTeX column.
pub open spec fn matrix_close() -> Seq<char> {
    "\\end{pmatrix}"@
}

/// A vector as a sum of its components with their plain labels, in round
/// brackets: `(3i-4j)`.
pub fn format_i32_group_labelled_raw2(values: &[i32]) -> (r: String)
    requires
        values@.len() <= LABELLED_COMPONENTS_LEN,
    ensures
        r@ == group_text("("@, values@, Labels::Raw, Joint::Sign, ")"@),
{
    format_items("(", values, Labels::Raw, Joint::Sign, ")")
}

/// A vector as a sum of its components with their LaTeX labels, in a LaTeX
/// column.
pub fn format_i32_group_labelled_raw(values: &[i32]) -> (r: String)
    requires
        values@.len() <= LABELLED_COMPONENTS_LEN,
    ensures
        r@ == group_text(matrix_open(), values@, Labels::Latex, Joint::Sign, matrix_close()),
{
    format_items("\\begin{pmatrix} ", values, Labels::Latex, Joint::Sign, "\\end{pmatrix}")
}

/// A vector as a sum of its labelled components, in math mode.
pub fn format_i32_group_labelled(values: &[i32]) -> (r: String)
    requires
        values@.len() <= LABELLED_COMPONENTS_LEN,
    ensures
        r@ == math_text(
            group_text(matrix_open(), values@, Labels::Latex, Joint::Sign, matrix_close()),
        ),
{
    let raw = format_i32_group_labelled_raw(values);
    math_mode(raw.as_str())
}

/// Numbers as a sum, in round brackets: `(3-4+5)`.
pub fn format_i32_group_raw2(values: &[i32]) -> (r: String)
    ensures
        r@ == group_text("("@, values@, Labels::Bare, Joint::Sign, ")"@),
{
    format_items("(", values, Labels::Bare, Joint::Sign, ")")
}

/// Numbers as a sum, in a LaTeX column.
pub fn format_i32_group_raw(values: &[i32]) -> (r: String)
    ensures
        r@ == group_text(matrix_open(), values@, Labels::Bare, Joint::Sign, matrix_close()),
{
    format_items("\\begin{pmatrix} ", values, Labels::Bare, Joint::Sign, "\\end{pmatrix}")
}

/// Numbers as a sum, in math mode.
pub fn format_i32_group(values: &[i32]) -> (r: String)
    ensures
        r@ == math_text(
            group_text(matrix_open(), values@, Labels::Bare, Joint::Sign, matrix_close()),
        ),
{
    let raw = format_i32_group_raw(values);
    math_mode(raw.as_str())
}

/// Numbers as a list, in round brackets: `(3, -4, 5)`.
pub fn format_i32_vec_raw_2(values: &[i32]) -> (r: String)
    ensures
        r@ == group_text("("@, values@, Labels::Bare, Joint::Comma, ")"@),
{
    format_items("(", values, Labels::Bare, Joint::Comma, ")")
}

/// Numbers as the cells of a LaTeX column.
pub fn format_i32_vec_raw(values: &[i32]) -> (r: String)
    ensures
        r@ == group_text(matrix_open(), values@, Labels::Bare, Joint::Column, matrix_close()),
{
    format_items("\\begin{pmatrix} ", values, Labels::Bare, Joint::Column, "\\end{pmatrix}")
}

/// Numbers as the cells of a column, in math mode.
pub fn format_i32_vec(values: &[i32]) -> (r: String)
    ensures
        r@ == math_text(
            group_text(matrix_open(), values@, Labels::Bare, Joint::Column, matrix_close()),
        ),
{
    let raw = format_i32_vec_raw(values);
    math_mode(raw.as_str())
}

/// Components with their LaTeX labels as the cells of a LaTeX column.
pub fn format_i32_vec_labelled_raw(values: &[i32]) -> (r: String)
    requires
        values@.len() <= LABELLED_COMPONENTS_LEN,
    ensures
        r@ == group_text(matrix_open(), values@, Labels::Latex, Joint::Column, matrix_close()),
{
    format_items("\\begin{pmatrix} ", values, Labels::Latex, Joint::Column, "\\end{pmatrix}")
}

/// Labelled components as the cells of a column, in math mode.
pub fn format_i32_vec_labelled(values: &[i32]) -> (r: String)
    requires
        values@.len() <= LABELLED_COMPONENTS_LEN,
    ensures
        r@ == math_text(
            group_text(matrix_open(), values@, Labels::Latex, Joint::Column, matrix_close()),
        ),
{
    let raw = format_i32_vec_labelled_raw(values);
    math_mode(raw.as_str())
}

/// The LaTeX of a root. The first root of a number is the number; a square
/// root needs no index; a coefficient of one is not written, nor the root of
/// one.
pub open spec fn root_text(power: int, coeffecient: int, radicand: int) -> Seq<char> {
    if power == 1 {
        decimal(coeffecient * radicand)
    } else if power == 2 && coeffecient == 1 {
        decimal(radicand)
    } else if power == 2 {
        decimal(coeffecient) + "\\sqrt{"@ + decimal(radicand) + "}"@
    } else if coeffecient == 1 && radicand == 1 {
        "1"@
    } else if radicand == 1 {
        decimal(coeffecient)
    } else if coeffecient == 1 {
        "\\sqrt["@ + decimal(power) + "]{"@ + decimal(radicand) + "}"@
    } else {
        decimal(coeffecient) + "\\sqrt["@ + decimal(power) + "]{"@ + decimal(radicand) + "}"@
    }
}

/// A root as LaTeX. For the first root the product of coefficient and
/// radicand has to fit in an `i32`.
pub fn format_i32_root_raw(power: i32, coeffecient: i32, radicand: i32) -> (r: String)
    requires
        power == 1 ==> i32::MIN <= coeffecient * radicand <= i32::MAX,
    ensures
        r@ == root_text(power as int, coeffecient as int, radicand as int),
{
    let mut out = String::new();
    if power == 1 {
        push_decimal(&mut out, (coeffecient * radicand) as i64);
    } else if power == 2 && coeffecient == 1 {
        push_decimal(&mut out, radicand as i64);
    } else if power == 2 {
        push_decimal(&mut out, coeffecient as i64);
        out.append("\\sqrt{");
        push_decimal(&mut out, radicand as i64);
        out.append("}");
    } else if coeffecient == 1 && radicand == 1 {
        out.append("1");
    } else if radicand == 1 {
        push_decimal(&mut out, coeffecient as i64);
    } else if coeffecient == 1 {
        out.append("\\sqrt[");
        push_decimal(&mut out, power as i64);
        out.append("]{");
        push_decimal(&mut out, radicand as i64);
        out.append("}");
    } else {
        push_decimal(&mut out, coeffecient as i64);
        out.append("\\sqrt[");
        push_decimal(&mut out, power as i64);
        out.append("]{");
        push_decimal(&mut out, radicand as i64);
        out.append("}");
    }
    assert(out@ =~= root_text(power as int, coeffecient as int, radicand as int));
    out
}

/// A root in math mode.
pub fn format_i32_root(power: i32, coeffecient: i32, radicand: i32) -> (r: String)
    requires
        power == 1 ==> i32::MIN <= coeffecient * radicand <= i32::MAX,
    ensures
        r@ == math_text(root_text(power as int, coeffecient as int, radicand as int)),
{
    let raw = format_i32_root_raw(power, coeffecient, radicand);
    math_mode(raw.as_str())
}

/// The LaTeX of a fraction: nothing over anything is zero, anything over one
/// is itself.
pub open spec fn fraction_text(numerator: int, denominator: int) -> Seq<char> {
    if numerator == 0 {
        decimal(0)
    } else if denominator == 1 {
        decimal(numerator)
    } else {
        "\\frac{"@ + decimal(numerator) + "}{"@ + decimal(denominator) + "}"@
    }
}

/// A fraction as LaTeX.
pub fn format_i32_fraction_raw(numerator: i32, denominator: i32) -> (r: String)
    ensures
        r@ == fraction_text(numerator as int, denominator as int),
{
    let mut out = String::new();
    if numerator == 0 {
        push_decimal(&mut out, 0);
    } else if denominator == 1 {
        push_decimal(&mut out, numerator as i64);
    } else {
        out.append("\\frac{");
        push_decimal(&mut out, numerator as i64);
        out.append("}{");
        push_decimal(&mut out, denominator as i64);
        out.append("}");
    }
    assert(out@ =~= fraction_text(numerator as int, denominator as int));
    out
}

/// A fraction in math mode.
pub fn format_i32_fraction(numerator: i32, denominator: i32) -> (r: String)
    ensures
        r@ == math_text(fraction_text(numerator as int, denominator as int)),
{
    let raw = format_i32_fraction_raw(numerator, denominator);
    math_mode(raw.as_str())
}

/// A random capital letter, as bold LaTeX.
pub fn format_random_identifier_raw() -> (r: &'static str)
    ensures
        one_of(labelled_identifiers_spec(), r@),
{
    let letters = labelled_identifiers();
    choose_str(&letters)
}

/// A random capital letter in math mode.
pub fn format_random_identifier() -> (r: String)
    ensures
        exists|letter: Seq<char>|
            one_of(labelled_identifiers_spec(), letter) && r@ == math_text(letter),
{
    let letter = format_random_identifier_raw();
    math_mode(letter)
}

/// A random Greek letter, as LaTeX.
pub fn format_random_greek_identifier_raw() -> (r: &'static str)
    ensures
        one_of(labelled_symbols_spec(), r@),
{
    let letters = labelled_symbols();
    choose_str(&letters)
}

/// A random Greek letter in math mode.
pub fn format_random_greek_identifier() -> (r: String)
    ensures
        exists|letter: Seq<char>|
            one_of(labelled_symbols_spec(), letter) && r@ == math_text(letter),
{
    let letter = format_random_greek_identifier_raw();
    math_mode(letter)
}

} // verus!
