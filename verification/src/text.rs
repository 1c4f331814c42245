//! Text building blocks: appending to a `String`, decimal and hexadecimal
//! rendering of unsigned integers.

use vstd::prelude::*;

verus! {

/// The lowercase ASCII digit for a value below 16.
pub open spec fn digit_char(d: nat) -> char {
    if d < 10 {
        (48 + d) as char
    } else {
        (87 + d) as char
    }
}

/// Decimal rendering of `n`, without leading zeros (`format!("{}", n)`).
pub open spec fn decimal(n: nat) -> Seq<char>
    decreases n,
{
    if n < 10 {
        seq![digit_char(n)]
    } else {
        decimal(n / 10).push(digit_char(n % 10))
    }
}

/// Lowercase hexadecimal rendering of `n`, left-padded with `'0'` to at
/// least `width` digits (`format!("{:0width$x}", n)`; width 1 is `{:x}`).
pub open spec fn hex_padded(n: nat, width: nat) -> Seq<char>
    decreases n + width,
{
    if n < 16 && width <= 1 {
        seq![digit_char(n)]
    } else {
        hex_padded(n / 16, if width == 0 { 0 } else { (width - 1) as nat }).push(digit_char(n % 16))
    }
}

/// The lines `f(0), f(1), ..., f(n - 1)`, in that order.
pub open spec fn join_up(f: spec_fn(nat) -> Seq<char>, n: nat) -> Seq<char>
    decreases n,
{
    if n == 0 {
        Seq::empty()
    } else {
        join_up(f, (n - 1) as nat) + f((n - 1) as nat)
    }
}

/// The lines `f(n - 1), ..., f(1), f(0)`, in that order.
pub open spec fn join_down(f: spec_fn(nat) -> Seq<char>, n: nat) -> Seq<char>
    decreases n,
{
    if n == 0 {
        Seq::empty()
    } else {
        f((n - 1) as nat) + join_down(f, (n - 1) as nat)
    }
}

/// Appends one character through `String::push`, trusted to leave the
/// old contents followed by `c`.
#[verifier::external_body]
pub(crate) fn push_char(s: &mut String, c: char)
    ensures
        final(s)@ == old(s)@.push(c),
{
    s.push(c);
}

/// Appends a string slice through `String::push_str`, trusted to leave
/// the old contents followed by those of `t`.
#[verifier::external_body]
pub(crate) fn push_str(s: &mut String, t: &str)
    ensures
        final(s)@ == old(s)@ + t@,
{
    s.push_str(t);
}

fn digit(d: u64) -> (c: char)
    requires
        d < 16,
    ensures
        c == digit_char(d as nat),
{
    if d < 10 {
        ((48 + d) as u8) as char
    } else {
        ((87 + d) as u8) as char
    }
}

/// Appends the decimal rendering of `n`.
pub fn push_decimal(s: &mut String, n: u64)
    ensures
        final(s)@ == old(s)@ + decimal(n as nat),
    decreases n,
{
    if n >= 10 {
        push_decimal(s, n / 10);
    }
    push_char(s, digit(n % 10));
}

/// Appends the zero-padded lowercase hexadecimal rendering of `n`.
pub fn push_hex(s: &mut String, n: u64, width: u64)
    ensures
        final(s)@ == old(s)@ + hex_padded(n as nat, width as nat),
    decreases n + width,
{
    if n >= 16 || width > 1 {
        let w = if width == 0 { 0 } else { width - 1 };
        push_hex(s, n / 16, w);
    }
    push_char(s, digit(n % 16));
}

/// The label suffix naming one op of one model: `{model_idx}_{op_idx}`.
pub open spec fn op_id(model_idx: nat, op_idx: nat) -> Seq<char> {
    decimal(model_idx) + "_"@ + decimal(op_idx)
}

/// `prefix`, the op id, then `suffix`: a label definition or a branch target.
pub open spec fn labeled(prefix: Seq<char>, model_idx: nat, op_idx: nat, suffix: Seq<char>) -> Seq<char> {
    prefix + op_id(model_idx, op_idx) + suffix
}

/// Appends `prefix`, the op id and `suffix`.
pub fn push_labeled(s: &mut String, prefix: &str, model_idx: usize, op_idx: usize, suffix: &str)
    ensures
        final(s)@ == old(s)@ + labeled(prefix@, model_idx as nat, op_idx as nat, suffix@),
{
    push_str(s, prefix);
    push_decimal(s, model_idx as u64);
    push_str(s, "_");
    push_decimal(s, op_idx as u64);
    push_str(s, suffix);
}

/// The op id as a `String` (`format!("{model_idx}_{op_idx}")`).
pub fn op_id_string(model_idx: usize, op_idx: usize) -> (s: String)
    ensures
        s@ == op_id(model_idx as nat, op_idx as nat),
{
    let mut s = String::new();
    push_decimal(&mut s, model_idx as u64);
    push_str(&mut s, "_");
    push_decimal(&mut s, op_idx as u64);
    proof {
        assert(s@ =~= op_id(model_idx as nat, op_idx as nat));
    }
    s
}

proof fn lemma_digit_char(d: nat, e: nat)
    requires
        d < 10,
        e < 10,
    ensures
        digit_char(d) != '_',
        digit_char(d) == digit_char(e) ==> d == e,
{
    assert(digit_char(d) as int == 48 + d);
    assert(digit_char(e) as int == 48 + e);
}

proof fn lemma_decimal_digits(n: nat)
    ensures
        decimal(n).len() >= 1,
        forall|i: int| 0 <= i < decimal(n).len() ==> decimal(n)[i] != '_',
    decreases n,
{
    lemma_digit_char(n % 10, 0);
    if n >= 10 {
        lemma_decimal_digits(n / 10);
    }
}

/// Distinct numbers have distinct decimal renderings.
pub proof fn lemma_decimal_injective(a: nat, b: nat)
    requires
        decimal(a) == decimal(b),
    ensures
        a == b,
    decreases a,
{
    lemma_decimal_digits(a);
    lemma_decimal_digits(b);
    if a < 10 && b < 10 {
        assert(decimal(a)[0] == digit_char(a));
        assert(decimal(b)[0] == digit_char(b));
        lemma_digit_char(a, b);
    } else if a < 10 {
        lemma_decimal_digits(b / 10);
        assert(decimal(b).len() >= 2);
    } else if b < 10 {
        lemma_decimal_digits(a / 10);
        assert(decimal(a).len() >= 2);
    } else {
        assert(decimal(a).last() == digit_char(a % 10));
        assert(decimal(b).last() == digit_char(b % 10));
        lemma_digit_char(a % 10, b % 10);
        assert(a % 10 == b % 10);
        assert(decimal(a / 10) =~= decimal(a).drop_last());
        assert(decimal(b / 10) =~= decimal(b).drop_last());
        lemma_decimal_injective(a / 10, b / 10);
        assert(a == 10 * (a / 10) + a % 10);
        assert(b == 10 * (b / 10) + b % 10);
    }
}

/// Label suffixes are unique: two ops get the same `{model}_{op}` suffix
/// only if they have the same model index and the same op index.
pub proof fn lemma_op_id_injective(m1: nat, o1: nat, m2: nat, o2: nat)
    requires
        op_id(m1, o1) == op_id(m2, o2),
    ensures
        m1 == m2,
        o1 == o2,
{
    reveal_strlit("_");
    let a = decimal(m1);
    let b = decimal(m2);
    let s = op_id(m1, o1);
    lemma_decimal_digits(m1);
    lemma_decimal_digits(m2);
    lemma_decimal_digits(o1);
    lemma_decimal_digits(o2);
    assert(s == a + seq!['_'] + decimal(o1));
    assert(s == b + seq!['_'] + decimal(o2));
    if a.len() < b.len() {
        assert(s[a.len() as int] == '_');
        assert(s[a.len() as int] == b[a.len() as int]);
    } else if b.len() < a.len() {
        assert(s[b.len() as int] == '_');
        assert(s[b.len() as int] == a[b.len() as int]);
    } else {
        assert(a =~= s.subrange(0, a.len() as int));
        assert(b =~= s.subrange(0, b.len() as int));
        lemma_decimal_injective(m1, m2);
        assert(decimal(o1) =~= s.subrange(a.len() as int + 1, s.len() as int));
        assert(decimal(o2) =~= s.subrange(b.len() as int + 1, s.len() as int));
        lemma_decimal_injective(o1, o2);
    }
}


/// `s` has `t` as a contiguous piece.
pub open spec fn has_piece(s: Seq<char>, t: Seq<char>) -> bool {
    exists|a: Seq<char>, c: Seq<char>| s == a + t + c
}

pub proof fn lemma_piece_self(t: Seq<char>)
    ensures
        has_piece(t, t),
{
    assert(t =~= Seq::<char>::empty() + t + Seq::<char>::empty());
}

pub broadcast proof fn lemma_piece_left(x: Seq<char>, y: Seq<char>, t: Seq<char>)
    requires
        has_piece(x, t),
    ensures
        #[trigger] has_piece(x + y, t),
{
    let (a, c) = choose|a: Seq<char>, c: Seq<char>| x == a + t + c;
    assert(x + y =~= a + t + (c + y));
}

pub broadcast proof fn lemma_piece_right(x: Seq<char>, y: Seq<char>, t: Seq<char>)
    requires
        has_piece(y, t),
    ensures
        #[trigger] has_piece(x + y, t),
{
    let (a, c) = choose|a: Seq<char>, c: Seq<char>| y == a + t + c;
    assert(x + y =~= (x + a) + t + c);
}

/// A piece of a piece is a piece.
pub proof fn lemma_piece_within(s: Seq<char>, t: Seq<char>, u: Seq<char>)
    requires
        has_piece(s, t),
        has_piece(t, u),
    ensures
        has_piece(s, u),
{
    let (a, c) = choose|a: Seq<char>, c: Seq<char>| s == a + t + c;
    let (d, e) = choose|d: Seq<char>, e: Seq<char>| t == d + u + e;
    assert(s =~= (a + d) + u + (e + c));
}

/// A text holds whatever stands between its head and its tail.
pub proof fn lemma_piece_mid(a: Seq<char>, t: Seq<char>, c: Seq<char>)
    ensures
        has_piece(a + t + c, t),
{
}

/// `s` ends with `t`.
pub open spec fn ends_with(s: Seq<char>, t: Seq<char>) -> bool {
    exists|a: Seq<char>| s == a + t
}

pub proof fn lemma_ends_self(a: Seq<char>, t: Seq<char>)
    ensures
        ends_with(a + t, t),
{
}

/// Appending to both keeps the ending.
pub proof fn lemma_ends_grow(x: Seq<char>, t: Seq<char>, b: Seq<char>)
    requires
        ends_with(x, t),
    ensures
        ends_with(x + b, t + b),
{
    let a = choose|a: Seq<char>| x == a + t;
    assert(x + b =~= a + (t + b));
}

/// An ending is a piece.
pub proof fn lemma_ends_piece(s: Seq<char>, t: Seq<char>)
    requires
        ends_with(s, t),
    ensures
        has_piece(s, t),
{
    let a = choose|a: Seq<char>| s == a + t;
    assert(s =~= a + t + Seq::<char>::empty());
}

/// Every `mark` in `s` has, `k` characters further on, a character that
/// `ok` accepts. A text with this property cannot hold a piece that has a
/// `mark` followed `k` characters on by one that `ok` refuses.
pub open spec fn marks_followed(s: Seq<char>, mark: char, k: int, ok: spec_fn(char) -> bool) -> bool {
    forall|p: int| 0 <= p < s.len() && #[trigger] s[p] == mark ==> p + k < s.len() && ok(s[p + k])
}

/// A text without `mark` has the property vacuously.
pub proof fn lemma_marks_absent(s: Seq<char>, mark: char, k: int, ok: spec_fn(char) -> bool)
    requires
        forall|i: int| 0 <= i < s.len() ==> s[i] != mark,
    ensures
        marks_followed(s, mark, k, ok),
{
}

/// The property carries over to a concatenation.
pub proof fn lemma_marks_concat(a: Seq<char>, b: Seq<char>, mark: char, k: int, ok: spec_fn(char) -> bool)
    requires
        0 <= k,
        marks_followed(a, mark, k, ok),
        marks_followed(b, mark, k, ok),
    ensures
        marks_followed(a + b, mark, k, ok),
{
    assert forall|p: int| 0 <= p < (a + b).len() && #[trigger] (a + b)[p] == mark implies p + k < (a
        + b).len() && ok((a + b)[p + k]) by {
        if p < a.len() {
            assert(a[p] == mark);
            assert((a + b)[p + k] == a[p + k]);
        } else {
            assert(b[p - a.len()] == mark);
            assert((a + b)[p + k] == b[p - a.len() + k]);
        }
    }
}

/// A text whose marks are all followed by accepted characters has no piece
/// with a mark followed by a refused one.
pub proof fn lemma_marks_exclude(
    s: Seq<char>,
    t: Seq<char>,
    o: int,
    mark: char,
    k: int,
    ok: spec_fn(char) -> bool,
)
    requires
        marks_followed(s, mark, k, ok),
        0 <= o,
        0 <= k,
        o + k < t.len(),
        t[o] == mark,
        !ok(t[o + k]),
    ensures
        !has_piece(s, t),
{
    if has_piece(s, t) {
        let (a, c) = choose|a: Seq<char>, c: Seq<char>| s == a + t + c;
        assert(s[a.len() + o] == t[o]);
        assert(s[a.len() + o + k] == t[o + k]);
    }
}

/// The characters of a decimal rendering are the digits `0` to `9`.
pub proof fn lemma_decimal_chars(n: nat)
    ensures
        forall|i: int| 0 <= i < decimal(n).len() ==> 48 <= #[trigger] decimal(n)[i] as int <= 57,
    decreases n,
{
    let d = n % 10;
    assert(digit_char(d) as int == 48 + d);
    if n >= 10 {
        lemma_decimal_chars(n / 10);
        let s = decimal(n / 10);
        assert forall|i: int| 0 <= i < decimal(n).len() implies 48 <= #[trigger] decimal(n)[i] as int <= 57 by {
            if i < s.len() {
                assert(decimal(n)[i] == s[i]);
            }
        }
    }
}

/// The characters of a hexadecimal rendering are `0` to `9` and `a` to `f`.
pub proof fn lemma_hex_chars(n: nat, width: nat)
    ensures
        forall|i: int|
            0 <= i < hex_padded(n, width).len() ==> (48 <= #[trigger] hex_padded(n, width)[i] as int <= 57
                || 97 <= hex_padded(n, width)[i] as int <= 102),
    decreases n + width,
{
    let d = n % 16;
    if d < 10 {
        assert(digit_char(d) as int == 48 + d);
    } else {
        assert(digit_char(d) as int == 87 + d);
    }
    if n < 16 {
        if n < 10 {
            assert(digit_char(n) as int == 48 + n);
        } else {
            assert(digit_char(n) as int == 87 + n);
        }
    }
    if !(n < 16 && width <= 1) {
        let w = if width == 0 { 0 } else { (width - 1) as nat };
        lemma_hex_chars(n / 16, w);
        let s = hex_padded(n / 16, w);
        assert forall|i: int| 0 <= i < hex_padded(n, width).len() implies (48 <= #[trigger] hex_padded(
            n,
            width,
        )[i] as int <= 57 || 97 <= hex_padded(n, width)[i] as int <= 102) by {
            if i < s.len() {
                assert(hex_padded(n, width)[i] == s[i]);
            }
        }
    }
}

} // verus!
