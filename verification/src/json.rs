//! The canonical JSON wire format for task parameters.
//!
//! Every task serialises to a flat JSON object: string keys mapped to
//! scalars, arrays of scalars, or flat objects of scalars.  The writer
//! produces exactly one canonical text per value — no whitespace, strings
//! escaped minimally, decimals with exactly three fraction digits — and the
//! parser accepts that canonical form, so that writing and re-parsing a
//! value is the identity.  Fractional numbers are carried as thousandths in
//! an integer, which keeps the format free of floating point.

use vstd::prelude::*;

verus! {

/// A scalar JSON value: a boolean, an integer, a string, or a non-negative
/// decimal fraction carried as thousandths (`Milli(300)` is the text `0.300`).
#[derive(Clone, Debug, PartialEq)]
pub enum Scalar {
    /// `true` or `false`.
    Bool(bool),
    /// A (signed) integer.
    Int(i64),
    /// A string, escaped on writing.
    Str(String),
    /// A non-negative decimal fraction, in thousandths.
    Milli(u32),
}

/// A value of the wire format: a scalar, an array of scalars, or a flat
/// object of string keys and scalar values.
#[derive(Clone, Debug, PartialEq)]
pub enum Json {
    /// A single scalar.
    Sc(Scalar),
    /// An array of scalars.
    Arr(Vec<Scalar>),
    /// A flat object: keys with scalar values, in writing order.
    Obj(Vec<(String, Scalar)>),
}

/// The mathematical model of a scalar.
pub enum ScalarV {
    /// `true` or `false`.
    Bool(bool),
    /// An integer.
    Int(int),
    /// A string.
    Str(Seq<char>),
    /// A non-negative decimal fraction, in thousandths.
    Milli(nat),
}

/// The mathematical model of a wire-format value.
pub enum JsonV {
    /// A single scalar.
    Sc(ScalarV),
    /// An array of scalars.
    Arr(Seq<ScalarV>),
    /// A flat object of keys and scalar values, in writing order.
    Obj(Seq<(Seq<char>, ScalarV)>),
}

impl View for Scalar {
    type V = ScalarV;

    open spec fn view(&self) -> ScalarV {
        match self {
            Scalar::Bool(b) => ScalarV::Bool(*b),
            Scalar::Int(i) => ScalarV::Int(*i as int),
            Scalar::Str(s) => ScalarV::Str(s@),
            Scalar::Milli(m) => ScalarV::Milli(*m as nat),
        }
    }
}

/// The models of a sequence of scalars, element by element.
pub open spec fn scalars_view(v: Seq<Scalar>) -> Seq<ScalarV> {
    Seq::new(v.len(), |i: int| v[i]@)
}

/// The models of a sequence of key-scalar pairs, pair by pair.
pub open spec fn pairs_view(v: Seq<(String, Scalar)>) -> Seq<(Seq<char>, ScalarV)> {
    Seq::new(v.len(), |i: int| (v[i].0@, v[i].1@))
}

impl View for Json {
    type V = JsonV;

    open spec fn view(&self) -> JsonV {
        match self {
            Json::Sc(s) => JsonV::Sc(s@),
            Json::Arr(v) => JsonV::Arr(scalars_view(v@)),
            Json::Obj(v) => JsonV::Obj(pairs_view(v@)),
        }
    }
}

// ---------------------------------------------------------------------------
// Canonical text of a value.
// ---------------------------------------------------------------------------

/// Whether a character is a decimal digit.
pub open spec fn is_digit(c: char) -> bool {
    48 <= (c as u32) <= 57
}

/// The numeric value of a digit character.
pub open spec fn digit_val(c: char) -> nat {
    ((c as u32) - 48) as nat
}

/// The digit character of a value below ten.
pub open spec fn digit_char(d: nat) -> char {
    ((48 + d) as u8) as char
}

/// The lower-case hexadecimal character of a value below sixteen.
pub open spec fn hex_char(d: nat) -> char {
    if d < 10 {
        digit_char(d)
    } else {
        ((87 + d) as u8) as char
    }
}

/// The decimal digits of a natural number, most significant first, with no
/// leading zero except for the number zero itself.
pub open spec fn dec_digits(n: nat) -> Seq<char>
    decreases n,
{
    if n < 10 {
        seq![digit_char(n)]
    } else {
        dec_digits(n / 10) + seq![digit_char(n % 10)]
    }
}

/// The canonical text of an integer: a minus sign for negative values, then
/// the decimal digits of the magnitude.
pub open spec fn int_text(i: int) -> Seq<char> {
    if i < 0 {
        seq!['-'] + dec_digits((-i) as nat)
    } else {
        dec_digits(i as nat)
    }
}

/// The canonical text of a decimal fraction in thousandths: the integer
/// part, a point, and exactly three fraction digits.
pub open spec fn milli_text(m: nat) -> Seq<char> {
    dec_digits(m / 1000) + seq!['.', digit_char((m / 100) % 10), digit_char((m / 10) % 10), digit_char(m % 10)]
}

/// How one character appears inside a string literal: quotes and backslashes
/// gain a backslash, control characters become a `\u00XX` escape, and every
/// other character stands for itself.
pub open spec fn esc_char(c: char) -> Seq<char> {
    if c == '"' {
        seq!['\\', '"']
    } else if c == '\\' {
        seq!['\\', '\\']
    } else if (c as u32) < 32 {
        seq!['\\', 'u', '0', '0', hex_char((c as u32) as nat / 16), hex_char((c as u32) as nat % 16)]
    } else {
        seq![c]
    }
}

/// The escaped body of a string literal.
pub open spec fn esc_text(s: Seq<char>) -> Seq<char>
    decreases s.len(),
{
    if s.len() == 0 {
        Seq::<char>::empty()
    } else {
        esc_char(s[0]) + esc_text(s.skip(1))
    }
}

/// The canonical text of a string: the escaped body between quotes.
pub open spec fn str_text(s: Seq<char>) -> Seq<char> {
    seq!['"'] + esc_text(s) + seq!['"']
}

/// The canonical text of a scalar.
pub open spec fn scalar_text(v: ScalarV) -> Seq<char> {
    match v {
        ScalarV::Bool(b) => if b {
            seq!['t', 'r', 'u', 'e']
        } else {
            seq!['f', 'a', 'l', 's', 'e']
        },
        ScalarV::Int(i) => int_text(i),
        ScalarV::Str(s) => str_text(s),
        ScalarV::Milli(m) => milli_text(m),
    }
}

/// The comma-separated texts of the members of a non-empty array.
pub open spec fn arr_items_text(elems: Seq<ScalarV>) -> Seq<char>
    decreases elems.len(),
{
    if elems.len() == 0 {
        Seq::<char>::empty()
    } else if elems.len() == 1 {
        scalar_text(elems[0])
    } else {
        scalar_text(elems[0]) + seq![','] + arr_items_text(elems.skip(1))
    }
}

/// The canonical text of an array of scalars.
pub open spec fn arr_text(elems: Seq<ScalarV>) -> Seq<char> {
    seq!['['] + arr_items_text(elems) + seq![']']
}

/// The text of one object member: the key string, a colon, the value.
pub open spec fn pair_text(p: (Seq<char>, ScalarV)) -> Seq<char> {
    str_text(p.0) + seq![':'] + scalar_text(p.1)
}

/// The comma-separated texts of the members of a non-empty object.
pub open spec fn obj_items_text(pairs: Seq<(Seq<char>, ScalarV)>) -> Seq<char>
    decreases pairs.len(),
{
    if pairs.len() == 0 {
        Seq::<char>::empty()
    } else if pairs.len() == 1 {
        pair_text(pairs[0])
    } else {
        pair_text(pairs[0]) + seq![','] + obj_items_text(pairs.skip(1))
    }
}

/// The canonical text of a flat object.
pub open spec fn obj_text(pairs: Seq<(Seq<char>, ScalarV)>) -> Seq<char> {
    seq!['{'] + obj_items_text(pairs) + seq!['}']
}

/// The canonical text of a wire-format value.
pub open spec fn json_text(j: JsonV) -> Seq<char> {
    match j {
        JsonV::Sc(v) => scalar_text(v),
        JsonV::Arr(elems) => arr_text(elems),
        JsonV::Obj(pairs) => obj_text(pairs),
    }
}

// ---------------------------------------------------------------------------
// The writer.
// ---------------------------------------------------------------------------

/// Builds a string holding exactly the given characters.
///
/// Relies on `String: FromIterator<char>`: collecting characters yields the
/// string of those characters in order.
#[verifier::external_body]
pub fn chars_to_string(v: Vec<char>) -> (r: String)
    ensures
        r@ == v@,
{
    String::from_iter(v)
}

/// Append the characters of a string slice.
pub fn push_str_chars(out: &mut Vec<char>, s: &str)
    ensures
        final(out)@ == old(out)@ + s@,
{
    let n: usize = s.unicode_len();
    let mut i: usize = 0;
    while i < n
        invariant
            n == s@.len(),
            i <= n,
            out@ == old(out)@ + s@.take(i as int),
        decreases n - i,
    {
        let c = s.get_char(i);
        out.push(c);
        proof {
            assert(s@.take(i + 1) =~= s@.take(i as int) + seq![s@[i as int]]);
            assert(out@ =~= old(out)@ + s@.take(i + 1));
        }
        i = i + 1;
    }
    proof {
        assert(s@.take(n as int) =~= s@);
    }
}

/// Append the decimal digits of a number.
pub(crate) fn write_digits(out: &mut Vec<char>, n: u64)
    ensures
        final(out)@ == old(out)@ + dec_digits(n as nat),
    decreases n,
{
    if n < 10 {
        out.push((48u8 + (n as u8)) as char);
        proof {
            assert(out@ =~= old(out)@ + dec_digits(n as nat));
        }
    } else {
        write_digits(out, n / 10);
        out.push((48u8 + ((n % 10) as u8)) as char);
        proof {
            assert(out@ =~= old(out)@ + dec_digits(n as nat));
        }
    }
}

/// Append the canonical text of an integer.
fn write_int(out: &mut Vec<char>, i: i64)
    ensures
        final(out)@ == old(out)@ + int_text(i as int),
{
    if i >= 0 {
        write_digits(out, i as u64);
    } else if i == i64::MIN {
        out.push('-');
        // The magnitude of the smallest integer does not fit its own type,
        // so its digits are written directly.
        push_str_chars(out, "9223372036854775808");
        proof {
            reveal_strlit("9223372036854775808");
            assert(dec_digits((-(i64::MIN as int)) as nat) =~= "9223372036854775808"@) by {
                reveal_with_fuel(dec_digits, 20);
            }
            assert(out@ =~= old(out)@ + int_text(i as int));
        }
    } else {
        out.push('-');
        let mag: u64 = (-i) as u64;
        write_digits(out, mag);
        proof {
            assert(out@ =~= old(out)@ + int_text(i as int));
        }
    }
}

/// Append the canonical text of a decimal fraction in thousandths.
fn write_milli(out: &mut Vec<char>, m: u32)
    ensures
        final(out)@ == old(out)@ + milli_text(m as nat),
{
    write_digits(out, (m / 1000) as u64);
    out.push('.');
    out.push((48u8 + (((m / 100) % 10) as u8)) as char);
    out.push((48u8 + (((m / 10) % 10) as u8)) as char);
    out.push((48u8 + ((m % 10) as u8)) as char);
    proof {
        assert(out@ =~= old(out)@ + milli_text(m as nat));
    }
}

/// Appending to the escaped body distributes over concatenation.
proof fn lemma_esc_text_concat(a: Seq<char>, b: Seq<char>)
    ensures
        esc_text(a + b) == esc_text(a) + esc_text(b),
    decreases a.len(),
{
    if a.len() == 0 {
        assert(a + b =~= b);
        assert(esc_text(a) + esc_text(b) =~= esc_text(b));
    } else {
        lemma_esc_text_concat(a.skip(1), b);
        assert((a + b).skip(1) =~= a.skip(1) + b);
        assert(esc_text(a + b) =~= esc_char(a[0]) + (esc_text(a.skip(1)) + esc_text(b)));
        assert(esc_char(a[0]) + (esc_text(a.skip(1)) + esc_text(b)) =~= esc_text(a) + esc_text(b));
    }
}

/// Append the escaped body of a string.
fn write_escaped(out: &mut Vec<char>, s: &str)
    ensures
        final(out)@ == old(out)@ + esc_text(s@),
{
    let n: usize = s.unicode_len();
    let mut i: usize = 0;
    while i < n
        invariant
            n == s@.len(),
            i <= n,
            out@ == old(out)@ + esc_text(s@.take(i as int)),
        decreases n - i,
    {
        let c = s.get_char(i);
        let u: u32 = c as u32;
        if c == '"' {
            out.push('\\');
            out.push('"');
        } else if c == '\\' {
            out.push('\\');
            out.push('\\');
        } else if u < 32 {
            out.push('\\');
            out.push('u');
            out.push('0');
            out.push('0');
            let hi: u32 = u / 16;
            let lo: u32 = u % 16;
            out.push(if hi < 10 {
                (48u8 + (hi as u8)) as char
            } else {
                (87u8 + (hi as u8)) as char
            });
            out.push(if lo < 10 {
                (48u8 + (lo as u8)) as char
            } else {
                (87u8 + (lo as u8)) as char
            });
        } else {
            out.push(c);
        }
        proof {
            lemma_esc_text_concat(s@.take(i as int), seq![s@[i as int]]);
            assert(s@.take(i + 1) =~= s@.take(i as int) + seq![s@[i as int]]);
            assert(seq![s@[i as int]].skip(1) =~= Seq::<char>::empty());
            assert(esc_text(seq![s@[i as int]].skip(1)) =~= Seq::<char>::empty());
            assert(esc_text(seq![s@[i as int]]) =~= esc_char(s@[i as int]));
            assert(out@ =~= old(out)@ + esc_text(s@.take(i + 1)));
        }
        i = i + 1;
    }
    proof {
        assert(s@.take(n as int) =~= s@);
    }
}

/// Append the canonical text of a string literal.
fn write_str(out: &mut Vec<char>, s: &str)
    ensures
        final(out)@ == old(out)@ + str_text(s@),
{
    out.push('"');
    write_escaped(out, s);
    out.push('"');
    proof {
        assert(out@ =~= old(out)@ + str_text(s@));
    }
}

/// Append the canonical text of a scalar.
fn write_scalar(out: &mut Vec<char>, v: &Scalar)
    ensures
        final(out)@ == old(out)@ + scalar_text(v@),
{
    match v {
        Scalar::Bool(b) => {
            if *b {
                out.push('t');
                out.push('r');
                out.push('u');
                out.push('e');
            } else {
                out.push('f');
                out.push('a');
                out.push('l');
                out.push('s');
                out.push('e');
            }
            proof {
                assert(out@ =~= old(out)@ + scalar_text(v@));
            }
        },
        Scalar::Int(i) => {
            write_int(out, *i);
        },
        Scalar::Str(s) => {
            write_str(out, s.as_str());
        },
        Scalar::Milli(m) => {
            write_milli(out, *m);
        },
    }
}

/// Append the member texts of an array, from the given position on.
fn write_arr_items(out: &mut Vec<char>, elems: &Vec<Scalar>, i: usize)
    requires
        i < elems@.len(),
    ensures
        final(out)@ == old(out)@ + arr_items_text(scalars_view(elems@).skip(i as int)),
    decreases elems@.len() - i,
{
    write_scalar(out, &elems[i]);
    if i < elems.len() - 1 {
        out.push(',');
        write_arr_items(out, elems, i + 1);
        proof {
            assert(scalars_view(elems@).skip(i as int).skip(1) =~= scalars_view(elems@).skip(
                i + 1,
            ));
            assert(scalars_view(elems@).skip(i as int)[0] == elems@[i as int]@);
            assert(out@ =~= old(out)@ + arr_items_text(scalars_view(elems@).skip(i as int)));
        }
    } else {
        proof {
            assert(scalars_view(elems@).skip(i as int).len() == 1);
            assert(scalars_view(elems@).skip(i as int)[0] == elems@[i as int]@);
            assert(out@ =~= old(out)@ + arr_items_text(scalars_view(elems@).skip(i as int)));
        }
    }
}

/// Append the member texts of an object, from the given position on.
fn write_obj_items(out: &mut Vec<char>, pairs: &Vec<(String, Scalar)>, i: usize)
    requires
        i < pairs@.len(),
    ensures
        final(out)@ == old(out)@ + obj_items_text(pairs_view(pairs@).skip(i as int)),
    decreases pairs@.len() - i,
{
    write_str(out, pairs[i].0.as_str());
    out.push(':');
    write_scalar(out, &pairs[i].1);
    if i < pairs.len() - 1 {
        out.push(',');
        write_obj_items(out, pairs, i + 1);
        proof {
            assert(pairs_view(pairs@).skip(i as int).skip(1) =~= pairs_view(pairs@).skip(i + 1));
            assert(pairs_view(pairs@).skip(i as int)[0] == (pairs@[i as int].0@, pairs@[i as int].1@));
            assert(out@ =~= old(out)@ + obj_items_text(pairs_view(pairs@).skip(i as int)));
        }
    } else {
        proof {
            assert(pairs_view(pairs@).skip(i as int).len() == 1);
            assert(pairs_view(pairs@).skip(i as int)[0] == (pairs@[i as int].0@, pairs@[i as int].1@));
            assert(out@ =~= old(out)@ + obj_items_text(pairs_view(pairs@).skip(i as int)));
        }
    }
}

/// Append the canonical text of a sequence of object members.
pub fn write_obj_pairs(out: &mut Vec<char>, pairs: &Vec<(String, Scalar)>)
    ensures
        final(out)@ == old(out)@ + obj_text(pairs_view(pairs@)),
{
    out.push('{');
    if pairs.len() > 0 {
        write_obj_items(out, pairs, 0);
        proof {
            assert(pairs_view(pairs@).skip(0) =~= pairs_view(pairs@));
        }
    } else {
        proof {
            assert(pairs_view(pairs@).len() == 0);
        }
    }
    out.push('}');
    proof {
        assert(out@ =~= old(out)@ + obj_text(pairs_view(pairs@)));
    }
}

/// Append the canonical text of a value.
pub fn write_value(out: &mut Vec<char>, j: &Json)
    ensures
        final(out)@ == old(out)@ + json_text(j@),
{
    match j {
        Json::Sc(v) => {
            write_scalar(out, v);
        },
        Json::Arr(elems) => {
            out.push('[');
            if elems.len() > 0 {
                write_arr_items(out, elems, 0);
                proof {
                    assert(scalars_view(elems@).skip(0) =~= scalars_view(elems@));
                }
            } else {
                proof {
                    assert(scalars_view(elems@).len() == 0);
                }
            }
            out.push(']');
            proof {
                assert(out@ =~= old(out)@ + arr_text(scalars_view(elems@)));
            }
        },
        Json::Obj(pairs) => {
            write_obj_pairs(out, pairs);
            proof {
                assert(out@ =~= old(out)@ + obj_text(pairs_view(pairs@)));
            }
        },
    }
}

/// The canonical text of a value, as characters.
pub fn write_json_chars(j: &Json) -> (r: Vec<char>)
    ensures
        r@ == json_text(j@),
{
    let mut out: Vec<char> = Vec::new();
    write_value(&mut out, j);
    out
}

/// The canonical text of a value.
pub fn write_json(j: &Json) -> (r: String)
    ensures
        r@ == json_text(j@),
{
    let chars = write_json_chars(j);
    chars_to_string(chars)
}


// ---------------------------------------------------------------------------
// The parser: the specification level.
//
// Each function reads the characters of `s` from position `i` on and yields
// the parsed value with the position just past it, or nothing where the text
// is not canonical.  A few branches guard the recursion on progress of the
// inner parse; the progress lemmas below show the guards never bite.
// ---------------------------------------------------------------------------

/// Whether a character is a lower-case hexadecimal digit.
pub open spec fn is_hex_lower(c: char) -> bool {
    is_digit(c) || 97 <= (c as u32) <= 102
}

/// The numeric value of a lower-case hexadecimal digit character.
pub open spec fn hex_val(c: char) -> nat {
    if is_digit(c) {
        digit_val(c)
    } else {
        ((c as u32) - 87) as nat
    }
}

/// The position just past the run of digit characters starting at `i`.
pub open spec fn digit_run_end(s: Seq<char>, i: int) -> int
    decreases s.len() - i,
{
    if 0 <= i < s.len() && is_digit(s[i]) {
        digit_run_end(s, i + 1)
    } else {
        i
    }
}

/// The value of the digit characters of `s` between `i` and `j`, or nothing
/// where it passes the largest value a native machine word holds.
pub open spec fn digits_val(s: Seq<char>, i: int, j: int) -> Option<nat>
    decreases j - i,
{
    if j <= i {
        Some(0)
    } else {
        match digits_val(s, i, j - 1) {
            Option::None => Option::None,
            Option::Some(v) => if v * 10 + digit_val(s[j - 1]) > u64::MAX {
                Option::None
            } else {
                Option::Some((v * 10 + digit_val(s[j - 1])) as nat)
            },
        }
    }
}

/// Parse a number: an optional minus sign, digits, and for non-negative
/// values an optional point with exactly three fraction digits.
pub open spec fn p_number(s: Seq<char>, i: int) -> Option<(ScalarV, int)> {
    if !(0 <= i < s.len()) {
        Option::None
    } else {
        let neg = s[i] == '-';
        let j = if neg {
            i + 1
        } else {
            i
        };
        if !(j < s.len() && is_digit(s[j])) {
            Option::None
        } else {
            let k = digit_run_end(s, j);
            match digits_val(s, j, k) {
                Option::None => Option::None,
                Option::Some(mag) => if k < s.len() && s[k] == '.' {
                    if neg {
                        Option::None
                    } else if k + 4 <= s.len() && is_digit(s[k + 1]) && is_digit(s[k + 2])
                        && is_digit(s[k + 3]) {
                        if k + 4 < s.len() && is_digit(s[k + 4]) {
                            Option::None
                        } else {
                            let m = mag * 1000 + digit_val(s[k + 1]) * 100 + digit_val(s[k + 2])
                                * 10 + digit_val(s[k + 3]);
                            if m > u32::MAX {
                                Option::None
                            } else {
                                Option::Some((ScalarV::Milli(m as nat), k + 4))
                            }
                        }
                    } else {
                        Option::None
                    }
                } else if neg {
                    if mag > 0x8000000000000000 {
                        Option::None
                    } else {
                        Option::Some((ScalarV::Int(-(mag as int)), k))
                    }
                } else {
                    if mag > i64::MAX {
                        Option::None
                    } else {
                        Option::Some((ScalarV::Int(mag as int), k))
                    }
                },
            }
        }
    }
}

/// Parse the escaped body of a string literal up to and past its closing
/// quote, yielding the unescaped characters.
pub open spec fn p_chars(s: Seq<char>, i: int) -> Option<(Seq<char>, int)>
    decreases s.len() - i,
{
    if !(0 <= i < s.len()) {
        Option::None
    } else if s[i] == '"' {
        Option::Some((Seq::<char>::empty(), i + 1))
    } else if s[i] == '\\' {
        if i + 2 <= s.len() && (s[i + 1] == '"' || s[i + 1] == '\\') {
            match p_chars(s, i + 2) {
                Option::None => Option::None,
                Option::Some((t, j)) => Option::Some((seq![s[i + 1]] + t, j)),
            }
        } else if i + 6 <= s.len() && s[i + 1] == 'u' && s[i + 2] == '0' && s[i + 3] == '0'
            && is_hex_lower(s[i + 4]) && is_hex_lower(s[i + 5]) {
            match p_chars(s, i + 6) {
                Option::None => Option::None,
                Option::Some((t, j)) => Option::Some(
                    (seq![(((hex_val(s[i + 4]) * 16 + hex_val(s[i + 5])) as u8) as char)] + t, j),
                ),
            }
        } else {
            Option::None
        }
    } else if (s[i] as u32) < 32 {
        Option::None
    } else {
        match p_chars(s, i + 1) {
            Option::None => Option::None,
            Option::Some((t, j)) => Option::Some((seq![s[i]] + t, j)),
        }
    }
}

/// Parse a string literal: an opening quote, the escaped body, the closing
/// quote.
pub open spec fn p_string(s: Seq<char>, i: int) -> Option<(Seq<char>, int)> {
    if 0 <= i < s.len() && s[i] == '"' {
        p_chars(s, i + 1)
    } else {
        Option::None
    }
}

/// Parse a scalar: a string, a boolean word, or a number.
pub open spec fn p_scalar(s: Seq<char>, i: int) -> Option<(ScalarV, int)> {
    if !(0 <= i < s.len()) {
        Option::None
    } else if s[i] == '"' {
        match p_string(s, i) {
            Option::None => Option::None,
            Option::Some((t, j)) => Option::Some((ScalarV::Str(t), j)),
        }
    } else if s[i] == 't' {
        if i + 4 <= s.len() && s[i + 1] == 'r' && s[i + 2] == 'u' && s[i + 3] == 'e' {
            Option::Some((ScalarV::Bool(true), i + 4))
        } else {
            Option::None
        }
    } else if s[i] == 'f' {
        if i + 5 <= s.len() && s[i + 1] == 'a' && s[i + 2] == 'l' && s[i + 3] == 's' && s[i + 4]
            == 'e' {
            Option::Some((ScalarV::Bool(false), i + 5))
        } else {
            Option::None
        }
    } else if s[i] == '-' || is_digit(s[i]) {
        p_number(s, i)
    } else {
        Option::None
    }
}

/// Parse the members of a non-empty array from past its opening bracket up
/// to and past its closing bracket.
pub open spec fn p_arr_items(s: Seq<char>, i: int) -> Option<(Seq<ScalarV>, int)>
    decreases s.len() - i,
{
    match p_scalar(s, i) {
        Option::None => Option::None,
        Option::Some((v, j)) => if !(i < j && j <= s.len()) {
            Option::None
        } else if j < s.len() && s[j] == ']' {
            Option::Some((seq![v], j + 1))
        } else if j < s.len() && s[j] == ',' {
            match p_arr_items(s, j + 1) {
                Option::None => Option::None,
                Option::Some((rest, k)) => Option::Some((seq![v] + rest, k)),
            }
        } else {
            Option::None
        },
    }
}

/// Parse the members of a non-empty object from past its opening brace up
/// to and past its closing brace.
pub open spec fn p_obj_items(s: Seq<char>, i: int) -> Option<(Seq<(Seq<char>, ScalarV)>, int)>
    decreases s.len() - i,
{
    match p_string(s, i) {
        Option::None => Option::None,
        Option::Some((key, j)) => if !(i < j && j <= s.len()) {
            Option::None
        } else if j < s.len() && s[j] == ':' {
            match p_scalar(s, j + 1) {
                Option::None => Option::None,
                Option::Some((v, k)) => if !(j < k && k <= s.len()) {
                    Option::None
                } else if k < s.len() && s[k] == '}' {
                    Option::Some((seq![(key, v)], k + 1))
                } else if k < s.len() && s[k] == ',' {
                    match p_obj_items(s, k + 1) {
                        Option::None => Option::None,
                        Option::Some((rest, m)) => Option::Some((seq![(key, v)] + rest, m)),
                    }
                } else {
                    Option::None
                },
            }
        } else {
            Option::None
        },
    }
}

/// Parse a wire-format value: an object, an array, or a scalar.
pub open spec fn p_json(s: Seq<char>, i: int) -> Option<(JsonV, int)> {
    if !(0 <= i < s.len()) {
        Option::None
    } else if s[i] == '{' {
        if i + 2 <= s.len() && s[i + 1] == '}' {
            Option::Some((JsonV::Obj(Seq::empty()), i + 2))
        } else {
            match p_obj_items(s, i + 1) {
                Option::None => Option::None,
                Option::Some((ps, j)) => Option::Some((JsonV::Obj(ps), j)),
            }
        }
    } else if s[i] == '[' {
        if i + 2 <= s.len() && s[i + 1] == ']' {
            Option::Some((JsonV::Arr(Seq::empty()), i + 2))
        } else {
            match p_arr_items(s, i + 1) {
                Option::None => Option::None,
                Option::Some((elems, j)) => Option::Some((JsonV::Arr(elems), j)),
            }
        }
    } else {
        match p_scalar(s, i) {
            Option::None => Option::None,
            Option::Some((v, j)) => Option::Some((JsonV::Sc(v), j)),
        }
    }
}

/// The value of a whole canonical text: the parse must consume every
/// character.
pub open spec fn text_to_json(s: Seq<char>) -> Option<JsonV> {
    match p_json(s, 0) {
        Option::None => Option::None,
        Option::Some((v, j)) => if j == s.len() {
            Option::Some(v)
        } else {
            Option::None
        },
    }
}


// ---------------------------------------------------------------------------
// The parser: the executable level.  Each function mirrors its specification
// one to one; the contract ties the two together exactly.
// ---------------------------------------------------------------------------

/// Whether the result of an executable parse step matches the specified one.
pub open spec fn chars_res_matches(r: Option<(Vec<char>, usize)>, p: Option<(Seq<char>, int)>) -> bool {
    match p {
        Option::None => r is None,
        Option::Some((t, j)) => r matches Option::Some((v, k)) && v@ == t && k == j,
    }
}

/// Whether an executable scalar parse matches the specified one.
pub open spec fn scalar_res_matches(r: Option<(Scalar, usize)>, p: Option<(ScalarV, int)>) -> bool {
    match p {
        Option::None => r is None,
        Option::Some((v, j)) => r matches Option::Some((rv, rj)) && rv@ == v && rj == j,
    }
}

/// Whether an executable array-member parse matches the specified one.
pub open spec fn arr_res_matches(r: Option<(Vec<Scalar>, usize)>, p: Option<(Seq<ScalarV>, int)>) -> bool {
    match p {
        Option::None => r is None,
        Option::Some((t, j)) => r matches Option::Some((v, k)) && scalars_view(v@) == t && k == j,
    }
}

/// Whether an executable object-member parse matches the specified one.
pub open spec fn obj_res_matches(
    r: Option<(Vec<(String, Scalar)>, usize)>,
    p: Option<(Seq<(Seq<char>, ScalarV)>, int)>,
) -> bool {
    match p {
        Option::None => r is None,
        Option::Some((t, j)) => r matches Option::Some((v, k)) && pairs_view(v@) == t && k == j,
    }
}

/// Whether an executable value parse matches the specified one.
pub open spec fn json_res_matches(r: Option<(Json, usize)>, p: Option<(JsonV, int)>) -> bool {
    match p {
        Option::None => r is None,
        Option::Some((t, j)) => r matches Option::Some((v, k)) && v@ == t && k == j,
    }
}

/// The characters of a string slice, in order.
pub fn str_to_chars(s: &str) -> (r: Vec<char>)
    ensures
        r@ == s@,
{
    let n: usize = s.unicode_len();
    let mut out: Vec<char> = Vec::new();
    let mut i: usize = 0;
    while i < n
        invariant
            n == s@.len(),
            i <= n,
            out@ == s@.take(i as int),
        decreases n - i,
    {
        out.push(s.get_char(i));
        proof {
            assert(s@.take(i + 1) =~= s@.take(i as int) + seq![s@[i as int]]);
        }
        i = i + 1;
    }
    proof {
        assert(s@.take(n as int) =~= s@);
    }
    out
}

/// Whether a character is a decimal digit.
fn x_is_digit(c: char) -> (b: bool)
    ensures
        b == is_digit(c),
{
    let u = c as u32;
    48 <= u && u <= 57
}

/// Whether a character is a lower-case hexadecimal digit.
fn x_is_hex_lower(c: char) -> (b: bool)
    ensures
        b == is_hex_lower(c),
{
    let u = c as u32;
    (48 <= u && u <= 57) || (97 <= u && u <= 102)
}

/// The value of a lower-case hexadecimal digit.
fn x_hex_val(c: char) -> (r: u32)
    requires
        is_hex_lower(c),
    ensures
        r as nat == hex_val(c),
{
    let u = c as u32;
    if u <= 57 {
        u - 48
    } else {
        u - 87
    }
}

/// The position just past the run of digits starting at `i`.
fn x_digit_run_end(s: &Vec<char>, i: usize) -> (r: usize)
    requires
        i <= s@.len(),
    ensures
        r as int == digit_run_end(s@, i as int),
        i <= r <= s@.len(),
    decreases s@.len() - i,
{
    if i < s.len() {
        let u = s[i] as u32;
        if 48 <= u && u <= 57 {
            return x_digit_run_end(s, i + 1);
        }
    }
    i
}

/// The value of the digit run between `i` and `j`, bounded by the machine
/// word.
fn x_digits_val(s: &Vec<char>, i: usize, j: usize) -> (r: Option<u64>)
    requires
        i <= j <= s@.len(),
        forall|k: int| i <= k < j ==> is_digit(s@[k]),
    ensures
        match digits_val(s@, i as int, j as int) {
            Option::None => r is None,
            Option::Some(v) => r matches Option::Some(u) && u as nat == v,
        },
    decreases j - i,
{
    if j <= i {
        Option::Some(0)
    } else {
        match x_digits_val(s, i, j - 1) {
            Option::None => Option::None,
            Option::Some(v) => {
                let d: u32 = (s[j - 1] as u32) - 48;
                match v.checked_mul(10) {
                    Option::None => Option::None,
                    Option::Some(v10) => v10.checked_add(d as u64),
                }
            },
        }
    }
}

/// Parse a number.
fn x_number(s: &Vec<char>, i: usize) -> (r: Option<(Scalar, usize)>)
    ensures
        scalar_res_matches(r, p_number(s@, i as int)),
{
    if i >= s.len() {
        return Option::None;
    }
    let neg = s[i] == '-';
    let j: usize = if neg {
        i + 1
    } else {
        i
    };
    if !(j < s.len() && x_is_digit(s[j])) {
        return Option::None;
    }
    let k = x_digit_run_end(s, j);
    proof {
        lemma_digit_run_digits(s@, j as int);
    }
    match x_digits_val(s, j, k) {
        Option::None => Option::None,
        Option::Some(mag) => {
            if k < s.len() && s[k] == '.' {
                if neg {
                    return Option::None;
                }
                if s.len() - k >= 4 && x_is_digit(s[k + 1]) && x_is_digit(s[k + 2]) && x_is_digit(
                    s[k + 3],
                ) {
                    if s.len() - k >= 5 && x_is_digit(s[k + 4]) {
                        return Option::None;
                    }
                    if mag > 4294967295u64 {
                        return Option::None;
                    }
                    let d1: u64 = ((s[k + 1] as u32) - 48) as u64;
                    let d2: u64 = ((s[k + 2] as u32) - 48) as u64;
                    let d3: u64 = ((s[k + 3] as u32) - 48) as u64;
                    let m64: u64 = mag * 1000 + d1 * 100 + d2 * 10 + d3;
                    if m64 > 4294967295u64 {
                        Option::None
                    } else {
                        Option::Some((Scalar::Milli(m64 as u32), k + 4))
                    }
                } else {
                    Option::None
                }
            } else if neg {
                if mag > 0x8000000000000000u64 {
                    Option::None
                } else if mag == 0x8000000000000000u64 {
                    Option::Some((Scalar::Int(i64::MIN), k))
                } else {
                    Option::Some((Scalar::Int(-(mag as i64)), k))
                }
            } else {
                if mag > 0x7fffffffffffffffu64 {
                    Option::None
                } else {
                    Option::Some((Scalar::Int(mag as i64), k))
                }
            }
        },
    }
}

/// Every character of a digit run is a digit.
proof fn lemma_digit_run_digits(s: Seq<char>, i: int)
    requires
        0 <= i <= s.len(),
    ensures
        i <= digit_run_end(s, i) <= s.len(),
        forall|k: int| i <= k < digit_run_end(s, i) ==> is_digit(s[k]),
    decreases s.len() - i,
{
    if i < s.len() && is_digit(s[i]) {
        lemma_digit_run_digits(s, i + 1);
    }
}

/// Parse the escaped body of a string literal.
fn x_chars(s: &Vec<char>, i: usize) -> (r: Option<(Vec<char>, usize)>)
    ensures
        chars_res_matches(r, p_chars(s@, i as int)),
    decreases s@.len() - i,
{
    if i >= s.len() {
        return Option::None;
    }
    let c = s[i];
    if c == '"' {
        let empty: Vec<char> = Vec::new();
        return Option::Some((empty, i + 1));
    }
    if c == '\\' {
        if s.len() - i >= 2 && (s[i + 1] == '"' || s[i + 1] == '\\') {
            match x_chars(s, i + 2) {
                Option::None => Option::None,
                Option::Some((t, j)) => {
                    let mut t = t;
                    let ghost tv = t@;
                    t.insert(0, s[i + 1]);
                    proof {
                        assert(t@ =~= seq![s@[i as int + 1]] + tv);
                    }
                    Option::Some((t, j))
                },
            }
        } else if s.len() - i >= 6 && s[i + 1] == 'u' && s[i + 2] == '0' && s[i + 3] == '0'
            && x_is_hex_lower(s[i + 4]) && x_is_hex_lower(s[i + 5]) {
            let hv: u32 = x_hex_val(s[i + 4]) * 16 + x_hex_val(s[i + 5]);
            match x_chars(s, i + 6) {
                Option::None => Option::None,
                Option::Some((t, j)) => {
                    let mut t = t;
                    let ghost tv = t@;
                    let esc: char = (hv as u8) as char;
                    t.insert(0, esc);
                    proof {
                        assert(hv < 256);
                        assert(esc == (((hex_val(s@[i as int + 4]) * 16 + hex_val(
                            s@[i as int + 5],
                        )) as u8) as char));
                        assert(t@ =~= seq![esc] + tv);
                    }
                    Option::Some((t, j))
                },
            }
        } else {
            Option::None
        }
    } else if (c as u32) < 32 {
        Option::None
    } else {
        match x_chars(s, i + 1) {
            Option::None => Option::None,
            Option::Some((t, j)) => {
                let mut t = t;
                let ghost tv = t@;
                t.insert(0, c);
                proof {
                    assert(t@ =~= seq![s@[i as int]] + tv);
                }
                Option::Some((t, j))
            },
        }
    }
}

/// Parse a string literal.
fn x_string(s: &Vec<char>, i: usize) -> (r: Option<(Vec<char>, usize)>)
    ensures
        chars_res_matches(r, p_string(s@, i as int)),
{
    if i < s.len() && s[i] == '"' {
        x_chars(s, i + 1)
    } else {
        Option::None
    }
}

/// Parse a scalar.
fn x_scalar(s: &Vec<char>, i: usize) -> (r: Option<(Scalar, usize)>)
    ensures
        scalar_res_matches(r, p_scalar(s@, i as int)),
{
    if i >= s.len() {
        return Option::None;
    }
    let c = s[i];
    if c == '"' {
        match x_string(s, i) {
            Option::None => Option::None,
            Option::Some((t, j)) => Option::Some((Scalar::Str(chars_to_string(t)), j)),
        }
    } else if c == 't' {
        if s.len() - i >= 4 && s[i + 1] == 'r' && s[i + 2] == 'u' && s[i + 3] == 'e' {
            Option::Some((Scalar::Bool(true), i + 4))
        } else {
            Option::None
        }
    } else if c == 'f' {
        if s.len() - i >= 5 && s[i + 1] == 'a' && s[i + 2] == 'l' && s[i + 3] == 's' && s[i + 4]
            == 'e' {
            Option::Some((Scalar::Bool(false), i + 5))
        } else {
            Option::None
        }
    } else if c == '-' || x_is_digit(c) {
        x_number(s, i)
    } else {
        Option::None
    }
}

/// Parse the members of a non-empty array.
fn x_arr_items(s: &Vec<char>, i: usize) -> (r: Option<(Vec<Scalar>, usize)>)
    ensures
        arr_res_matches(r, p_arr_items(s@, i as int)),
    decreases s@.len() - i,
{
    match x_scalar(s, i) {
        Option::None => Option::None,
        Option::Some((v, j)) => {
            if !(i < j && j <= s.len()) {
                return Option::None;
            }
            if j < s.len() && s[j] == ']' {
                let mut out: Vec<Scalar> = Vec::new();
                out.push(v);
                proof {
                    assert(scalars_view(out@) =~= seq![out@[0]@]);
                }
                Option::Some((out, j + 1))
            } else if j < s.len() && s[j] == ',' {
                match x_arr_items(s, j + 1) {
                    Option::None => Option::None,
                    Option::Some((rest, k)) => {
                        let mut rest = rest;
                        let ghost old_rest = rest@;
                        rest.insert(0, v);
                        proof {
                            assert(scalars_view(rest@) =~= seq![rest@[0]@] + scalars_view(
                                old_rest,
                            ));
                        }
                        Option::Some((rest, k))
                    },
                }
            } else {
                Option::None
            }
        },
    }
}

/// Parse the members of a non-empty object.
fn x_obj_items(s: &Vec<char>, i: usize) -> (r: Option<(Vec<(String, Scalar)>, usize)>)
    ensures
        obj_res_matches(r, p_obj_items(s@, i as int)),
    decreases s@.len() - i,
{
    match x_string(s, i) {
        Option::None => Option::None,
        Option::Some((key, j)) => {
            if !(i < j && j <= s.len()) {
                return Option::None;
            }
            if j < s.len() && s[j] == ':' {
                match x_scalar(s, j + 1) {
                    Option::None => Option::None,
                    Option::Some((v, k)) => {
                        if !(j < k && k <= s.len()) {
                            return Option::None;
                        }
                        let key_str = chars_to_string(key);
                        if k < s.len() && s[k] == '}' {
                            let mut out: Vec<(String, Scalar)> = Vec::new();
                            out.push((key_str, v));
                            proof {
                                assert(pairs_view(out@) =~= seq![(out@[0].0@, out@[0].1@)]);
                            }
                            Option::Some((out, k + 1))
                        } else if k < s.len() && s[k] == ',' {
                            match x_obj_items(s, k + 1) {
                                Option::None => Option::None,
                                Option::Some((rest, m)) => {
                                    let mut rest = rest;
                                    let ghost old_rest = rest@;
                                    rest.insert(0, (key_str, v));
                                    proof {
                                        assert(pairs_view(rest@) =~= seq![(rest@[0].0@, rest@[0].1@)]
                                            + pairs_view(old_rest));
                                    }
                                    Option::Some((rest, m))
                                },
                            }
                        } else {
                            Option::None
                        }
                    },
                }
            } else {
                Option::None
            }
        },
    }
}

/// Parse a wire-format value.
fn x_json(s: &Vec<char>, i: usize) -> (r: Option<(Json, usize)>)
    ensures
        json_res_matches(r, p_json(s@, i as int)),
{
    if i >= s.len() {
        return Option::None;
    }
    let c = s[i];
    if c == '{' {
        if s.len() - i >= 2 && s[i + 1] == '}' {
            let empty: Vec<(String, Scalar)> = Vec::new();
            proof {
                assert(pairs_view(empty@) =~= Seq::<(Seq<char>, ScalarV)>::empty());
            }
            Option::Some((Json::Obj(empty), i + 2))
        } else {
            match x_obj_items(s, i + 1) {
                Option::None => Option::None,
                Option::Some((ps, j)) => Option::Some((Json::Obj(ps), j)),
            }
        }
    } else if c == '[' {
        if s.len() - i >= 2 && s[i + 1] == ']' {
            let empty: Vec<Scalar> = Vec::new();
            proof {
                assert(scalars_view(empty@) =~= Seq::<ScalarV>::empty());
            }
            Option::Some((Json::Arr(empty), i + 2))
        } else {
            match x_arr_items(s, i + 1) {
                Option::None => Option::None,
                Option::Some((elems, j)) => Option::Some((Json::Arr(elems), j)),
            }
        }
    } else {
        match x_scalar(s, i) {
            Option::None => Option::None,
            Option::Some((v, j)) => Option::Some((Json::Sc(v), j)),
        }
    }
}

/// Parse a whole canonical text into a wire-format value.
pub fn parse_json(s: &str) -> (r: Option<Json>)
    ensures
        match r {
            Option::Some(j) => text_to_json(s@) == Option::Some(j@),
            Option::None => text_to_json(s@) is None,
        },
{
    let chars = str_to_chars(s);
    match x_json(&chars, 0) {
        Option::None => Option::None,
        Option::Some((j, k)) => if k == chars.len() {
            Option::Some(j)
        } else {
            Option::None
        },
    }
}


// ---------------------------------------------------------------------------
// Writing and re-parsing a value is the identity.  The lemmas below walk the
// grammar: each shows that its parse function, applied to the canonical text
// followed by arbitrary remaining input, consumes exactly the text and
// yields the value back.
// ---------------------------------------------------------------------------

/// A digit character carries its digit value.
proof fn lemma_digit_char(d: nat)
    requires
        d < 10,
    ensures
        is_digit(digit_char(d)),
        digit_val(digit_char(d)) == d,
{
    assert(((48 + d) as u8) as u32 == 48 + d);
    vstd::utf8::char_u32_cast(digit_char(d), (48 + d) as u32);
    assert((digit_char(d) as u32) == 48 + d);
}

/// The decimal digits of a number: at least one character, all digits.
proof fn lemma_dec_digits_props(n: nat)
    ensures
        dec_digits(n).len() >= 1,
        forall|k: int| 0 <= k < dec_digits(n).len() ==> is_digit(#[trigger] dec_digits(n)[k]),
    decreases n,
{
    if n < 10 {
        lemma_digit_char(n);
    } else {
        lemma_dec_digits_props(n / 10);
        lemma_digit_char(n % 10);
        assert forall|k: int| 0 <= k < dec_digits(n).len() implies is_digit(
            #[trigger] dec_digits(n)[k],
        ) by {
            if k < dec_digits(n / 10).len() {
                assert(dec_digits(n)[k] == dec_digits(n / 10)[k]);
            } else {
                assert(dec_digits(n)[k] == digit_char(n % 10));
            }
        }
    }
}

/// Splits a suffix equation: where the characters from `i` on read as
/// `a` followed by `b`, each part is indexed directly, and the suffix
/// equations for the positions past `a`, and past one character, follow.
proof fn lemma_skip_parts(s: Seq<char>, i: int, a: Seq<char>, b: Seq<char>)
    requires
        0 <= i <= s.len(),
        s.skip(i) == a + b,
    ensures
        s.len() - i == a.len() + b.len(),
        forall|k: int| 0 <= k < a.len() ==> s[i + k] == #[trigger] a[k],
        forall|k: int| 0 <= k < b.len() ==> s[i + a.len() + k] == #[trigger] b[k],
        s.skip(i + a.len()) == b,
        a.len() > 0 ==> s.skip(i + 1) == a.skip(1) + b,
{
    assert(s.skip(i).len() == s.len() - i);
    assert((a + b).len() == a.len() + b.len());
    assert forall|k: int| 0 <= k < a.len() implies s[i + k] == #[trigger] a[k] by {
        assert(s.skip(i)[k] == s[i + k]);
        assert((a + b)[k] == a[k]);
    }
    assert forall|k: int| 0 <= k < b.len() implies s[i + a.len() + k] == #[trigger] b[k] by {
        assert(s.skip(i)[a.len() + k] == s[i + a.len() + k]);
        assert((a + b)[a.len() + k] == b[k]);
    }
    assert(s.skip(i + a.len()) =~= b) by {
        assert forall|k: int| 0 <= k < s.len() - (i + a.len()) implies #[trigger] s.skip(
            i + a.len(),
        )[k] == b[k] by {
            assert(s.skip(i + a.len())[k] == s[i + a.len() + k]);
        }
    }
    if a.len() > 0 {
        assert(s.skip(i + 1) =~= a.skip(1) + b) by {
            assert forall|k: int| 0 <= k < s.len() - (i + 1) implies #[trigger] s.skip(i + 1)[k]
                == (a.skip(1) + b)[k] by {
                assert(s.skip(i + 1)[k] == s[i + 1 + k]);
                if k < a.len() - 1 {
                    assert((a.skip(1) + b)[k] == a.skip(1)[k]);
                    assert(a.skip(1)[k] == a[k + 1]);
                    assert(s[i + (k + 1)] == a[k + 1]);
                } else {
                    assert((a.skip(1) + b)[k] == b[k - (a.len() - 1)]);
                    assert(s[i + a.len() + (k + 1 - a.len())] == b[k + 1 - a.len()]);
                }
            }
        }
    }
}

/// A digit run stops exactly at the first non-digit.
proof fn lemma_run_end(s: Seq<char>, i: int, ds: Seq<char>, rest: Seq<char>)
    requires
        0 <= i <= s.len(),
        s.skip(i) == ds + rest,
        forall|k: int| 0 <= k < ds.len() ==> is_digit(#[trigger] ds[k]),
        rest.len() == 0 || !is_digit(rest[0]),
    ensures
        digit_run_end(s, i) == i + ds.len(),
    decreases ds.len(),
{
    lemma_skip_parts(s, i, ds, rest);
    if ds.len() == 0 {
        if i < s.len() {
            assert(s[i] == rest[0]);
        }
    } else {
        assert(s[i] == ds[0]);
        lemma_run_end(s, i + 1, ds.skip(1), rest);
    }
}

/// The value of the decimal digits of a number is that number.
proof fn lemma_digits_val_of(s: Seq<char>, i: int, n: nat)
    requires
        0 <= i,
        i + dec_digits(n).len() <= s.len(),
        forall|k: int| 0 <= k < dec_digits(n).len() ==> s[i + k] == #[trigger] dec_digits(n)[k],
        n <= u64::MAX,
    ensures
        digits_val(s, i, i + dec_digits(n).len()) == Option::Some(n),
    decreases n,
{
    if n < 10 {
        lemma_digit_char(n);
        assert(s[i] == dec_digits(n)[0]);
        assert(digits_val(s, i, i) == Option::<nat>::Some(0));
        assert(digits_val(s, i, i + 1) == Option::<nat>::Some(n));
    } else {
        let pre = dec_digits(n / 10);
        assert(forall|k: int| 0 <= k < pre.len() ==> dec_digits(n)[k] == #[trigger] pre[k]) by {
            assert(forall|k: int| 0 <= k < pre.len() ==> (pre + seq![digit_char(n % 10)])[k]
                == #[trigger] pre[k]);
        }
        lemma_digits_val_of(s, i, n / 10);
        lemma_digit_char(n % 10);
        let last = i + dec_digits(n).len() - 1;
        assert(s[last] == dec_digits(n)[dec_digits(n).len() - 1]);
        assert(dec_digits(n)[dec_digits(n).len() - 1] == digit_char(n % 10));
        assert((n / 10) * 10 + n % 10 == n);
        assert(digits_val(s, i, i + dec_digits(n).len()) == Option::Some(n));
    }
}

/// Parsing the canonical text of an integer in machine range yields it back,
/// when what follows opens with neither a digit nor a point.
proof fn lemma_int_inv(s: Seq<char>, i: int, v: int, rest: Seq<char>)
    requires
        0 <= i <= s.len(),
        s.skip(i) == int_text(v) + rest,
        -0x8000000000000000 <= v <= 0x7fffffffffffffff,
        rest.len() == 0 || (!is_digit(rest[0]) && rest[0] != '.'),
    ensures
        p_number(s, i) == Option::Some((ScalarV::Int(v), i + int_text(v).len())),
{
    lemma_skip_parts(s, i, int_text(v), rest);
    if v >= 0 {
        let ds = dec_digits(v as nat);
        lemma_dec_digits_props(v as nat);
        assert(s[i] == ds[0]);
        assert(is_digit(s[i]));
        assert(('-' as u32) == 45);
        assert(s[i] != '-');
        lemma_run_end(s, i, ds, rest);
        let k = digit_run_end(s, i);
        assert(k == i + ds.len());
        lemma_digits_val_of(s, i, v as nat);
        assert(digits_val(s, i, k) == Option::Some(v as nat));
        if k < s.len() {
            assert(s[i + ds.len() + 0] == rest[0]);
            assert(s[k] != '.');
            assert(!is_digit(s[k]));
        }
    } else {
        let m = (-v) as nat;
        let ds = dec_digits(m);
        lemma_dec_digits_props(m);
        assert(int_text(v)[0] == '-');
        assert(s[i] == '-');
        assert(!is_digit('-')) by {
            assert(('-' as u32) == 45);
        }
        assert(int_text(v).skip(1) =~= ds);
        lemma_skip_parts(s, i + 1, ds, rest);
        lemma_run_end(s, i + 1, ds, rest);
        let k = digit_run_end(s, i + 1);
        assert(k == i + 1 + ds.len());
        lemma_digits_val_of(s, i + 1, m);
        assert(digits_val(s, i + 1, k) == Option::Some(m));
        assert(s[i + 1] == ds[0]);
        assert(is_digit(s[i + 1]));
        if k < s.len() {
            assert(s[(i + 1) + ds.len() + 0] == rest[0]);
            assert(s[k] != '.');
            assert(!is_digit(s[k]));
        }
        assert(m <= 0x8000000000000000);
    }
}

/// Parsing the canonical text of a decimal fraction yields it back, when
/// what follows does not open with a digit.
proof fn lemma_milli_inv(s: Seq<char>, i: int, m: nat, rest: Seq<char>)
    requires
        0 <= i <= s.len(),
        s.skip(i) == milli_text(m) + rest,
        m <= u32::MAX,
        rest.len() == 0 || !is_digit(rest[0]),
    ensures
        p_number(s, i) == Option::Some((ScalarV::Milli(m), i + milli_text(m).len())),
{
    let ds = dec_digits(m / 1000);
    let tail = seq!['.', digit_char((m / 100) % 10), digit_char((m / 10) % 10), digit_char(m % 10)];
    lemma_dec_digits_props(m / 1000);
    assert(s.skip(i) == ds + (tail + rest)) by {
        assert((ds + tail) + rest =~= ds + (tail + rest));
    }
    lemma_skip_parts(s, i, ds, tail + rest);
    assert(s[i] == ds[0]);
    assert(is_digit(s[i]));
    assert(('-' as u32) == 45);
    assert(s[i] != '-');
    assert(!is_digit('.')) by {
        assert(('.' as u32) == 46);
    }
    lemma_run_end(s, i, ds, tail + rest);
    let k = digit_run_end(s, i);
    assert(k == i + ds.len());
    lemma_digits_val_of(s, i, m / 1000);
    assert(digits_val(s, i, k) == Option::Some((m / 1000) as nat));
    lemma_digit_char((m / 100) % 10);
    lemma_digit_char((m / 10) % 10);
    lemma_digit_char(m % 10);
    assert(s[i + ds.len() + 0] == (tail + rest)[0]);
    assert(s[i + ds.len() + 1] == (tail + rest)[1]);
    assert(s[i + ds.len() + 2] == (tail + rest)[2]);
    assert(s[i + ds.len() + 3] == (tail + rest)[3]);
    assert(s[k] == '.');
    assert(s[k + 1] == digit_char((m / 100) % 10));
    assert(s[k + 2] == digit_char((m / 10) % 10));
    assert(s[k + 3] == digit_char(m % 10));
    if k + 4 < s.len() {
        assert(s[i + ds.len() + 4] == (tail + rest)[4]);
        assert(s[k + 4] == rest[0]);
        assert(!is_digit(s[k + 4]));
    }
    assert((m / 1000) * 1000 + ((m / 100) % 10) * 100 + ((m / 10) % 10) * 10 + m % 10 == m) by {
        assert(m / 100 == (m / 1000) * 10 + (m / 100) % 10) by (nonlinear_arith);
        assert(m / 10 == (m / 100) * 10 + (m / 10) % 10) by (nonlinear_arith);
        assert(m == (m / 10) * 10 + m % 10) by (nonlinear_arith);
    }
    assert(milli_text(m).len() == ds.len() + 4);
}


/// A hexadecimal character carries its value.
proof fn lemma_hex_char(d: nat)
    requires
        d < 16,
    ensures
        is_hex_lower(hex_char(d)),
        hex_val(hex_char(d)) == d,
{
    if d < 10 {
        lemma_digit_char(d);
    } else {
        assert(((87 + d) as u8) as u32 == 87 + d);
        assert((hex_char(d) as u32) == 87 + d);
    }
}

/// Parsing an escaped string body followed by its closing quote yields the
/// original characters.
proof fn lemma_chars_inv(s: Seq<char>, i: int, t: Seq<char>, rest: Seq<char>)
    requires
        0 <= i <= s.len(),
        s.skip(i) == esc_text(t) + (seq!['"'] + rest),
    ensures
        p_chars(s, i) == Option::Some((t, i + esc_text(t).len() + 1)),
    decreases t.len(),
{
    assert(('"' as u32) == 34);
    assert(('\\' as u32) == 92);
    if t.len() == 0 {
        assert(esc_text(t) =~= Seq::<char>::empty());
        assert(s.skip(i) == Seq::<char>::empty() + (seq!['"'] + rest));
        lemma_skip_parts(s, i, Seq::<char>::empty(), seq!['"'] + rest);
        assert(s[i + 0 + 0] == (seq!['"'] + rest)[0]);
        assert(s[i] == '"');
        assert(p_chars(s, i) == Option::Some((Seq::<char>::empty(), i + 1)));
    } else {
        let c = t[0];
        let t2 = t.skip(1);
        let after = esc_text(t2) + (seq!['"'] + rest);
        assert(esc_text(t) == esc_char(c) + esc_text(t2));
        assert(s.skip(i) == esc_char(c) + after) by {
            assert((esc_char(c) + esc_text(t2)) + (seq!['"'] + rest) =~= esc_char(c) + (esc_text(
                t2,
            ) + (seq!['"'] + rest)));
        }
        lemma_skip_parts(s, i, esc_char(c), after);
        let clen = esc_char(c).len();
        assert(s.skip(i + clen) == after);
        if c == '"' {
            assert(s[i + 0] == esc_char(c)[0]);
            assert(s[i + 1] == esc_char(c)[1]);
            assert(s[i] == '\\' && s[i + 1] == '"');
            lemma_chars_inv(s, i + 2, t2, rest);
            assert(p_chars(s, i) == Option::Some((seq![s[i + 1]] + t2, i + 2 + esc_text(t2).len()
                + 1)));
            assert(seq![s[i + 1]] + t2 =~= t);
        } else if c == '\\' {
            assert(s[i + 0] == esc_char(c)[0]);
            assert(s[i + 1] == esc_char(c)[1]);
            assert(s[i] == '\\' && s[i + 1] == '\\');
            lemma_chars_inv(s, i + 2, t2, rest);
            assert(seq![s[i + 1]] + t2 =~= t);
        } else if (c as u32) < 32 {
            let u = (c as u32) as nat;
            assert(s[i + 0] == esc_char(c)[0]);
            assert(s[i + 1] == esc_char(c)[1]);
            assert(s[i + 2] == esc_char(c)[2]);
            assert(s[i + 3] == esc_char(c)[3]);
            assert(s[i + 4] == esc_char(c)[4]);
            assert(s[i + 5] == esc_char(c)[5]);
            assert(s[i] == '\\' && s[i + 1] == 'u' && s[i + 2] == '0' && s[i + 3] == '0');
            assert(('u' as u32) == 117);
            lemma_hex_char(u / 16);
            lemma_hex_char(u % 16);
            assert(is_hex_lower(s[i + 4]) && is_hex_lower(s[i + 5]));
            lemma_chars_inv(s, i + 6, t2, rest);
            let w = hex_val(s[i + 4]) * 16 + hex_val(s[i + 5]);
            assert(w == u) by {
                assert(u / 16 * 16 + u % 16 == u);
            }
            assert(((w as u8) as char) == c) by {
                assert(w < 256);
                assert((((w as u8) as char) as u32) == w);
                assert((c as u32) == w);
                vstd::utf8::char_u32_cast(c, (w as u8) as u32);
                vstd::utf8::char_u32_cast((w as u8) as char, (w as u8) as u32);
            }
            assert(seq![((w as u8) as char)] + t2 =~= t);
        } else {
            assert(s[i + 0] == esc_char(c)[0]);
            assert(s[i] == c);
            lemma_chars_inv(s, i + 1, t2, rest);
            assert(seq![s[i]] + t2 =~= t);
        }
    }
}

/// Parsing the canonical text of a string yields it back.
proof fn lemma_str_inv(s: Seq<char>, i: int, t: Seq<char>, rest: Seq<char>)
    requires
        0 <= i <= s.len(),
        s.skip(i) == str_text(t) + rest,
    ensures
        p_string(s, i) == Option::Some((t, i + str_text(t).len())),
        str_text(t).len() >= 2,
{
    let body = esc_text(t) + (seq!['"'] + rest);
    assert(s.skip(i) == seq!['"'] + body) by {
        assert((seq!['"'] + esc_text(t) + seq!['"']) + rest =~= seq!['"'] + (esc_text(t) + (
        seq!['"'] + rest)));
    }
    lemma_skip_parts(s, i, seq!['"'], body);
    assert(s[i + 0] == seq!['"'][0]);
    assert(s[i] == '"');
    lemma_chars_inv(s, i + 1, t, rest);
}

/// The canonical text of a scalar is non-empty, and its first character
/// tells the scalar kind apart from any structural character.
proof fn lemma_scalar_first(v: ScalarV)
    ensures
        scalar_text(v).len() >= 1,
        scalar_text(v)[0] == '"' || scalar_text(v)[0] == 't' || scalar_text(v)[0] == 'f'
            || scalar_text(v)[0] == '-' || is_digit(scalar_text(v)[0]),
{
    match v {
        ScalarV::Bool(b) => {},
        ScalarV::Int(i) => {
            if i < 0 {
                lemma_dec_digits_props((-i) as nat);
                assert(scalar_text(v)[0] == '-');
            } else {
                lemma_dec_digits_props(i as nat);
                assert(scalar_text(v)[0] == dec_digits(i as nat)[0]);
            }
        },
        ScalarV::Str(t) => {
            assert(scalar_text(v)[0] == '"');
        },
        ScalarV::Milli(m) => {
            lemma_dec_digits_props(m / 1000);
            assert(scalar_text(v)[0] == dec_digits(m / 1000)[0]) by {
                assert(milli_text(m)[0] == dec_digits(m / 1000)[0]);
            }
        },
    }
}

/// Whether a scalar value fits the machine ranges of the wire format.
pub open spec fn scalar_valid(v: ScalarV) -> bool {
    match v {
        ScalarV::Int(i) => -0x8000000000000000 <= i <= 0x7fffffffffffffff,
        ScalarV::Milli(m) => m <= u32::MAX,
        _ => true,
    }
}

/// Whether the character after a scalar cannot be mistaken for more of it.
pub open spec fn sep_start(rest: Seq<char>) -> bool {
    rest.len() == 0 || rest[0] == ',' || rest[0] == ']' || rest[0] == '}'
}

/// Parsing the canonical text of a scalar in machine range yields it back,
/// when a separator or the end follows.
proof fn lemma_scalar_inv(s: Seq<char>, i: int, v: ScalarV, rest: Seq<char>)
    requires
        0 <= i <= s.len(),
        s.skip(i) == scalar_text(v) + rest,
        scalar_valid(v),
        sep_start(rest),
    ensures
        p_scalar(s, i) == Option::Some((v, i + scalar_text(v).len())),
{
    lemma_skip_parts(s, i, scalar_text(v), rest);
    lemma_scalar_first(v);
    assert(s[i + 0] == scalar_text(v)[0]);
    assert((',' as u32) == 44 && (']' as u32) == 93 && ('}' as u32) == 125);
    assert(('"' as u32) == 34 && ('t' as u32) == 116 && ('f' as u32) == 102 && ('-' as u32)
        == 45 && ('.' as u32) == 46);
    assert(rest.len() == 0 || (!is_digit(rest[0]) && rest[0] != '.'));
    match v {
        ScalarV::Bool(b) => {
            if b {
                assert(s[i + 0] == scalar_text(v)[0]);
                assert(s[i + 1] == scalar_text(v)[1]);
                assert(s[i + 2] == scalar_text(v)[2]);
                assert(s[i + 3] == scalar_text(v)[3]);
                assert(('r' as u32) == 114);
                assert(s[i] == 't' && s[i + 1] == 'r' && s[i + 2] == 'u' && s[i + 3] == 'e');
            } else {
                assert(s[i + 0] == scalar_text(v)[0]);
                assert(s[i + 1] == scalar_text(v)[1]);
                assert(s[i + 2] == scalar_text(v)[2]);
                assert(s[i + 3] == scalar_text(v)[3]);
                assert(s[i + 4] == scalar_text(v)[4]);
                assert(s[i] == 'f' && s[i + 1] == 'a' && s[i + 2] == 'l' && s[i + 3] == 's' && s[i
                    + 4] == 'e');
            }
        },
        ScalarV::Int(n) => {
            lemma_int_inv(s, i, n, rest);
        },
        ScalarV::Str(t) => {
            lemma_str_inv(s, i, t, rest);
        },
        ScalarV::Milli(m) => {
            lemma_milli_inv(s, i, m, rest);
        },
    }
}


/// Whether every scalar of a sequence fits the machine ranges.
pub open spec fn scalars_valid(elems: Seq<ScalarV>) -> bool {
    forall|k: int| 0 <= k < elems.len() ==> scalar_valid(#[trigger] elems[k])
}

/// Whether every value of a pair sequence fits the machine ranges.
pub open spec fn obj_pairs_valid(pairs: Seq<(Seq<char>, ScalarV)>) -> bool {
    forall|k: int| 0 <= k < pairs.len() ==> scalar_valid(#[trigger] pairs[k].1)
}

/// Whether a wire-format value fits the machine ranges.
pub open spec fn jsonv_valid(j: JsonV) -> bool {
    match j {
        JsonV::Sc(v) => scalar_valid(v),
        JsonV::Arr(elems) => scalars_valid(elems),
        JsonV::Obj(pairs) => obj_pairs_valid(pairs),
    }
}

/// Parsing the member texts of a non-empty array followed by the closing
/// bracket yields the members back.
proof fn lemma_arr_items_inv(s: Seq<char>, i: int, elems: Seq<ScalarV>, rest: Seq<char>)
    requires
        0 <= i <= s.len(),
        elems.len() >= 1,
        scalars_valid(elems),
        s.skip(i) == arr_items_text(elems) + (seq![']'] + rest),
    ensures
        p_arr_items(s, i) == Option::Some((elems, i + arr_items_text(elems).len() + 1)),
    decreases elems.len(),
{
    let e0 = elems[0];
    lemma_scalar_first(e0);
    assert((']' as u32) == 93 && (',' as u32) == 44);
    if elems.len() == 1 {
        assert(arr_items_text(elems) == scalar_text(e0));
        assert(s.skip(i) == scalar_text(e0) + (seq![']'] + rest));
        lemma_skip_parts(s, i, scalar_text(e0), seq![']'] + rest);
        lemma_scalar_inv(s, i, e0, seq![']'] + rest);
        let j = i + scalar_text(e0).len();
        assert(s[i + scalar_text(e0).len() + 0] == (seq![']'] + rest)[0]);
        assert(s[j] == ']');
        assert(p_arr_items(s, i) == Option::Some((seq![e0], j + 1)));
        assert(seq![e0] =~= elems);
    } else {
        let tail_elems = elems.skip(1);
        let tail_text = arr_items_text(tail_elems) + (seq![']'] + rest);
        assert(arr_items_text(elems) == scalar_text(e0) + seq![','] + arr_items_text(tail_elems));
        assert(s.skip(i) == scalar_text(e0) + (seq![','] + tail_text)) by {
            assert((scalar_text(e0) + seq![','] + arr_items_text(tail_elems)) + (seq![']'] + rest)
                =~= scalar_text(e0) + (seq![','] + (arr_items_text(tail_elems) + (seq![']']
                + rest))));
        }
        lemma_skip_parts(s, i, scalar_text(e0), seq![','] + tail_text);
        lemma_scalar_inv(s, i, e0, seq![','] + tail_text);
        let j = i + scalar_text(e0).len();
        assert(s[i + scalar_text(e0).len() + 0] == (seq![','] + tail_text)[0]);
        assert(s[j] == ',');
        assert(s.skip(j + 1) == tail_text) by {
            lemma_skip_parts(s, j, seq![','], tail_text);
        }
        assert(scalars_valid(tail_elems)) by {
            assert(forall|k: int| 0 <= k < tail_elems.len() ==> #[trigger] tail_elems[k]
                == elems[k + 1]);
        }
        lemma_arr_items_inv(s, j + 1, tail_elems, rest);
        assert(p_arr_items(s, i) == Option::Some((seq![e0] + tail_elems, j + 1
            + arr_items_text(tail_elems).len() + 1)));
        assert(seq![e0] + tail_elems =~= elems);
    }
}

/// Parsing the member texts of a non-empty object followed by the closing
/// brace yields the members back.
proof fn lemma_obj_items_inv(s: Seq<char>, i: int, pairs: Seq<(Seq<char>, ScalarV)>, rest: Seq<char>)
    requires
        0 <= i <= s.len(),
        pairs.len() >= 1,
        obj_pairs_valid(pairs),
        s.skip(i) == obj_items_text(pairs) + (seq!['}'] + rest),
    ensures
        p_obj_items(s, i) == Option::Some((pairs, i + obj_items_text(pairs).len() + 1)),
    decreases pairs.len(),
{
    let key = pairs[0].0;
    let v0 = pairs[0].1;
    assert(('}' as u32) == 125 && (',' as u32) == 44 && (':' as u32) == 58);
    lemma_scalar_first(v0);
    if pairs.len() == 1 {
        assert(obj_items_text(pairs) == str_text(key) + seq![':'] + scalar_text(v0));
        let after_key = seq![':'] + (scalar_text(v0) + (seq!['}'] + rest));
        assert(s.skip(i) == str_text(key) + after_key) by {
            assert((str_text(key) + seq![':'] + scalar_text(v0)) + (seq!['}'] + rest) =~= str_text(
                key,
            ) + (seq![':'] + (scalar_text(v0) + (seq!['}'] + rest))));
        }
        lemma_skip_parts(s, i, str_text(key), after_key);
        lemma_str_inv(s, i, key, after_key);
        let j = i + str_text(key).len();
        assert(s[i + str_text(key).len() + 0] == after_key[0]);
        assert(s[j] == ':');
        assert(s.skip(j + 1) == scalar_text(v0) + (seq!['}'] + rest)) by {
            lemma_skip_parts(s, j, seq![':'], scalar_text(v0) + (seq!['}'] + rest));
        }
        lemma_skip_parts(s, j + 1, scalar_text(v0), seq!['}'] + rest);
        lemma_scalar_inv(s, j + 1, v0, seq!['}'] + rest);
        let k = j + 1 + scalar_text(v0).len();
        assert(s[(j + 1) + scalar_text(v0).len() + 0] == (seq!['}'] + rest)[0]);
        assert(s[k] == '}');
        assert(p_obj_items(s, i) == Option::Some((seq![(key, v0)], k + 1)));
        assert(seq![(key, v0)] =~= pairs);
    } else {
        let tail_pairs = pairs.skip(1);
        let tail_text = obj_items_text(tail_pairs) + (seq!['}'] + rest);
        assert(obj_items_text(pairs) == pair_text(pairs[0]) + seq![','] + obj_items_text(
            tail_pairs,
        ));
        let after_key = seq![':'] + (scalar_text(v0) + (seq![','] + tail_text));
        assert(s.skip(i) == str_text(key) + after_key) by {
            assert(((str_text(key) + seq![':'] + scalar_text(v0)) + seq![','] + obj_items_text(
                tail_pairs,
            )) + (seq!['}'] + rest) =~= str_text(key) + (seq![':'] + (scalar_text(v0) + (seq![',']
                + (obj_items_text(tail_pairs) + (seq!['}'] + rest))))));
        }
        lemma_skip_parts(s, i, str_text(key), after_key);
        lemma_str_inv(s, i, key, after_key);
        let j = i + str_text(key).len();
        assert(s[i + str_text(key).len() + 0] == after_key[0]);
        assert(s[j] == ':');
        assert(s.skip(j + 1) == scalar_text(v0) + (seq![','] + tail_text)) by {
            lemma_skip_parts(s, j, seq![':'], scalar_text(v0) + (seq![','] + tail_text));
        }
        lemma_skip_parts(s, j + 1, scalar_text(v0), seq![','] + tail_text);
        lemma_scalar_inv(s, j + 1, v0, seq![','] + tail_text);
        let k = j + 1 + scalar_text(v0).len();
        assert(s[(j + 1) + scalar_text(v0).len() + 0] == (seq![','] + tail_text)[0]);
        assert(s[k] == ',');
        assert(s.skip(k + 1) == tail_text) by {
            lemma_skip_parts(s, k, seq![','], tail_text);
        }
        assert(obj_pairs_valid(tail_pairs)) by {
            assert(forall|q: int| 0 <= q < tail_pairs.len() ==> #[trigger] tail_pairs[q]
                == pairs[q + 1]);
        }
        lemma_obj_items_inv(s, k + 1, tail_pairs, rest);
        assert(p_obj_items(s, i) == Option::Some((seq![(key, v0)] + tail_pairs, k + 1
            + obj_items_text(tail_pairs).len() + 1)));
        assert(seq![(key, v0)] + tail_pairs =~= pairs);
    }
}

/// Re-parsing the canonical text of any value in machine range yields
/// exactly that value: the wire format round-trips.
pub proof fn lemma_json_round_trip(v: JsonV)
    requires
        jsonv_valid(v),
    ensures
        text_to_json(json_text(v)) == Option::Some(v),
{
    let s = json_text(v);
    assert(('{' as u32) == 123 && ('[' as u32) == 91 && ('}' as u32) == 125 && (']' as u32) == 93);
    assert(s.skip(0) =~= s);
    match v {
        JsonV::Sc(sc) => {
            lemma_scalar_first(sc);
            assert(s == scalar_text(sc));
            assert(s.skip(0) == scalar_text(sc) + Seq::<char>::empty()) by {
                assert(scalar_text(sc) + Seq::<char>::empty() =~= scalar_text(sc));
            }
            lemma_scalar_inv(s, 0, sc, Seq::<char>::empty());
            assert(s[0] == scalar_text(sc)[0]);
        },
        JsonV::Arr(elems) => {
            assert(s == arr_text(elems));
            assert(s[0] == '[') by {
                assert(s[0] == (seq!['['] + arr_items_text(elems) + seq![']'])[0]);
            }
            if elems.len() == 0 {
                assert(arr_items_text(elems) =~= Seq::<char>::empty());
                assert(s =~= seq!['[', ']']);
                assert(s[1] == ']');
                assert(p_json(s, 0) == Option::Some((JsonV::Arr(Seq::<ScalarV>::empty()), 2int)));
                assert(elems =~= Seq::<ScalarV>::empty());
            } else {
                assert(s.skip(1) == arr_items_text(elems) + (seq![']'] + Seq::<char>::empty()))
                    by {
                    assert(s.skip(1) =~= arr_items_text(elems) + seq![']']);
                    assert(arr_items_text(elems) + seq![']'] =~= arr_items_text(elems) + (
                    seq![']'] + Seq::<char>::empty()));
                }
                lemma_arr_items_inv(s, 1, elems, Seq::<char>::empty());
                assert(s[1] == arr_items_text(elems)[0]) by {
                    lemma_skip_parts(s, 1, arr_items_text(elems), seq![']']
                        + Seq::<char>::empty());
                }
                lemma_scalar_first(elems[0]);
                assert(arr_items_text(elems)[0] == scalar_text(elems[0])[0]) by {
                    if elems.len() == 1 {
                    } else {
                        assert((scalar_text(elems[0]) + seq![','] + arr_items_text(elems.skip(1)))[
                            0] == scalar_text(elems[0])[0]);
                    }
                }
                assert(s[1] != ']');
                assert(p_json(s, 0) == Option::Some((JsonV::Arr(elems), (1 + arr_items_text(
                    elems,
                ).len() + 1) as int)));
            }
        },
        JsonV::Obj(pairs) => {
            assert(s == obj_text(pairs));
            assert(s[0] == '{') by {
                assert(s[0] == (seq!['{'] + obj_items_text(pairs) + seq!['}'])[0]);
            }
            if pairs.len() == 0 {
                assert(obj_items_text(pairs) =~= Seq::<char>::empty());
                assert(s =~= seq!['{', '}']);
                assert(s[1] == '}');
                assert(p_json(s, 0) == Option::Some((JsonV::Obj(Seq::<(Seq<char>, ScalarV)>::empty()), 2int)));
                assert(pairs =~= Seq::<(Seq<char>, ScalarV)>::empty());
            } else {
                assert(s.skip(1) == obj_items_text(pairs) + (seq!['}'] + Seq::<char>::empty()))
                    by {
                    assert(s.skip(1) =~= obj_items_text(pairs) + seq!['}']);
                    assert(obj_items_text(pairs) + seq!['}'] =~= obj_items_text(pairs) + (
                    seq!['}'] + Seq::<char>::empty()));
                }
                lemma_obj_items_inv(s, 1, pairs, Seq::<char>::empty());
                assert(s[1] == obj_items_text(pairs)[0]) by {
                    lemma_skip_parts(s, 1, obj_items_text(pairs), seq!['}']
                        + Seq::<char>::empty());
                }
                assert(obj_items_text(pairs)[0] == '"') by {
                    assert(pair_text(pairs[0])[0] == '"') by {
                        assert((str_text(pairs[0].0) + seq![':'] + scalar_text(pairs[0].1))[0] == (
                        seq!['"'] + esc_text(pairs[0].0) + seq!['"'])[0]);
                    }
                    if pairs.len() == 1 {
                    } else {
                        assert((pair_text(pairs[0]) + seq![','] + obj_items_text(pairs.skip(1)))[0]
                            == pair_text(pairs[0])[0]);
                    }
                }
                assert(('"' as u32) == 34);
                assert(s[1] != '}');
                assert(p_json(s, 0) == Option::Some((JsonV::Obj(pairs), (1 + obj_items_text(
                    pairs,
                ).len() + 1) as int)));
            }
        },
    }
}

/// The model of every representable value fits the machine ranges.
pub proof fn lemma_json_view_valid(j: &Json)
    ensures
        jsonv_valid(j@),
{
    match j {
        Json::Sc(v) => {},
        Json::Arr(elems) => {
            assert(forall|k: int| 0 <= k < elems@.len() ==> #[trigger] scalars_view(elems@)[k]
                == elems@[k]@);
        },
        Json::Obj(pairs) => {
            assert(forall|k: int| 0 <= k < pairs@.len() ==> #[trigger] pairs_view(pairs@)[k] == (
            pairs@[k].0@, pairs@[k].1@));
        },
    }
}


// ---------------------------------------------------------------------------
// Documents: a top-level flat object whose member values are scalars,
// arrays of scalars, or flat objects of scalars.  This is the shape of
// every task parameter object.
// ---------------------------------------------------------------------------

/// The models of a sequence of document members.
pub open spec fn doc_view(v: Seq<(String, Json)>) -> Seq<(Seq<char>, JsonV)> {
    Seq::new(v.len(), |i: int| (v[i].0@, v[i].1@))
}

/// The text of one document member: the key string, a colon, the value.
pub open spec fn doc_pair_text(p: (Seq<char>, JsonV)) -> Seq<char> {
    str_text(p.0) + seq![':'] + json_text(p.1)
}

/// The comma-separated texts of the members of a non-empty document.
pub open spec fn doc_items_text(pairs: Seq<(Seq<char>, JsonV)>) -> Seq<char>
    decreases pairs.len(),
{
    if pairs.len() == 0 {
        Seq::<char>::empty()
    } else if pairs.len() == 1 {
        doc_pair_text(pairs[0])
    } else {
        doc_pair_text(pairs[0]) + seq![','] + doc_items_text(pairs.skip(1))
    }
}

/// The canonical text of a document.
pub open spec fn doc_text(pairs: Seq<(Seq<char>, JsonV)>) -> Seq<char> {
    seq!['{'] + doc_items_text(pairs) + seq!['}']
}

/// Whether every member value of a document fits the machine ranges.
pub open spec fn doc_valid(pairs: Seq<(Seq<char>, JsonV)>) -> bool {
    forall|k: int| 0 <= k < pairs.len() ==> jsonv_valid(#[trigger] pairs[k].1)
}

/// Parse the members of a non-empty document.
pub open spec fn p_doc_items(s: Seq<char>, i: int) -> Option<(Seq<(Seq<char>, JsonV)>, int)>
    decreases s.len() - i,
{
    match p_string(s, i) {
        Option::None => Option::None,
        Option::Some((key, j)) => if !(i < j && j <= s.len()) {
            Option::None
        } else if j < s.len() && s[j] == ':' {
            match p_json(s, j + 1) {
                Option::None => Option::None,
                Option::Some((v, k)) => if !(j < k && k <= s.len()) {
                    Option::None
                } else if k < s.len() && s[k] == '}' {
                    Option::Some((seq![(key, v)], k + 1))
                } else if k < s.len() && s[k] == ',' {
                    match p_doc_items(s, k + 1) {
                        Option::None => Option::None,
                        Option::Some((rest, m)) => Option::Some((seq![(key, v)] + rest, m)),
                    }
                } else {
                    Option::None
                },
            }
        } else {
            Option::None
        },
    }
}

/// The members of a whole canonical document text: the parse must open and
/// close the braces and consume every character.
pub open spec fn text_to_doc(s: Seq<char>) -> Option<Seq<(Seq<char>, JsonV)>> {
    if s.len() >= 2 && s[0] == '{' {
        if s.len() == 2 && s[1] == '}' {
            Option::Some(Seq::<(Seq<char>, JsonV)>::empty())
        } else {
            match p_doc_items(s, 1) {
                Option::None => Option::None,
                Option::Some((pairs, j)) => if j == s.len() {
                    Option::Some(pairs)
                } else {
                    Option::None
                },
            }
        }
    } else {
        Option::None
    }
}

/// Append the member texts of a document, from the given position on.
fn write_doc_items(out: &mut Vec<char>, pairs: &Vec<(String, Json)>, i: usize)
    requires
        i < pairs@.len(),
    ensures
        final(out)@ == old(out)@ + doc_items_text(doc_view(pairs@).skip(i as int)),
    decreases pairs@.len() - i,
{
    write_str(out, pairs[i].0.as_str());
    out.push(':');
    write_value(out, &pairs[i].1);
    if i < pairs.len() - 1 {
        out.push(',');
        write_doc_items(out, pairs, i + 1);
        proof {
            assert(doc_view(pairs@).skip(i as int).skip(1) =~= doc_view(pairs@).skip(i + 1));
            assert(doc_view(pairs@).skip(i as int)[0] == (pairs@[i as int].0@, pairs@[i as int].1@));
            assert(out@ =~= old(out)@ + doc_items_text(doc_view(pairs@).skip(i as int)));
        }
    } else {
        proof {
            assert(doc_view(pairs@).skip(i as int).len() == 1);
            assert(doc_view(pairs@).skip(i as int)[0] == (pairs@[i as int].0@, pairs@[i as int].1@));
            assert(out@ =~= old(out)@ + doc_items_text(doc_view(pairs@).skip(i as int)));
        }
    }
}

/// The canonical text of a document.
pub fn write_doc(pairs: &Vec<(String, Json)>) -> (r: String)
    ensures
        r@ == doc_text(doc_view(pairs@)),
{
    let mut out: Vec<char> = Vec::new();
    out.push('{');
    if pairs.len() > 0 {
        write_doc_items(&mut out, pairs, 0);
        proof {
            assert(doc_view(pairs@).skip(0) =~= doc_view(pairs@));
        }
    } else {
        proof {
            assert(doc_view(pairs@).len() == 0);
        }
    }
    out.push('}');
    proof {
        assert(out@ =~= doc_text(doc_view(pairs@)));
    }
    chars_to_string(out)
}

/// Parse the members of a non-empty document.
fn x_doc_items(s: &Vec<char>, i: usize) -> (r: Option<(Vec<(String, Json)>, usize)>)
    ensures
        match p_doc_items(s@, i as int) {
            Option::None => r is None,
            Option::Some((t, j)) => r matches Option::Some((v, k)) && doc_view(v@) == t && k == j,
        },
    decreases s@.len() - i,
{
    match x_string(s, i) {
        Option::None => Option::None,
        Option::Some((key, j)) => {
            if !(i < j && j <= s.len()) {
                return Option::None;
            }
            if j < s.len() && s[j] == ':' {
                match x_json(s, j + 1) {
                    Option::None => Option::None,
                    Option::Some((v, k)) => {
                        if !(j < k && k <= s.len()) {
                            return Option::None;
                        }
                        let key_str = chars_to_string(key);
                        if k < s.len() && s[k] == '}' {
                            let mut out: Vec<(String, Json)> = Vec::new();
                            out.push((key_str, v));
                            proof {
                                assert(doc_view(out@) =~= seq![(out@[0].0@, out@[0].1@)]);
                            }
                            Option::Some((out, k + 1))
                        } else if k < s.len() && s[k] == ',' {
                            match x_doc_items(s, k + 1) {
                                Option::None => Option::None,
                                Option::Some((rest, m)) => {
                                    let mut rest = rest;
                                    let ghost old_rest = rest@;
                                    rest.insert(0, (key_str, v));
                                    proof {
                                        assert(doc_view(rest@) =~= seq![(rest@[0].0@, rest@[0].1@)]
                                            + doc_view(old_rest));
                                    }
                                    Option::Some((rest, m))
                                },
                            }
                        } else {
                            Option::None
                        }
                    },
                }
            } else {
                Option::None
            }
        },
    }
}

/// Parse a whole canonical document text into its members.
pub fn parse_doc(s: &str) -> (r: Option<Vec<(String, Json)>>)
    ensures
        match r {
            Option::Some(pairs) => text_to_doc(s@) == Option::Some(doc_view(pairs@)),
            Option::None => text_to_doc(s@) is None,
        },
{
    let chars = str_to_chars(s);
    if chars.len() >= 2 && chars[0] == '{' {
        if chars.len() == 2 && chars[1] == '}' {
            let empty: Vec<(String, Json)> = Vec::new();
            proof {
                assert(doc_view(empty@) =~= Seq::<(Seq<char>, JsonV)>::empty());
            }
            return Option::Some(empty);
        }
        match x_doc_items(&chars, 1) {
            Option::None => Option::None,
            Option::Some((pairs, j)) => if j == chars.len() {
                Option::Some(pairs)
            } else {
                Option::None
            },
        }
    } else {
        Option::None
    }
}


/// The canonical text of a value opens with a character that tells its
/// shape, and is never empty.
proof fn lemma_json_first(v: JsonV)
    ensures
        json_text(v).len() >= 1,
        match v {
            JsonV::Sc(sc) => json_text(v)[0] == scalar_text(sc)[0],
            JsonV::Arr(_) => json_text(v)[0] == '[',
            JsonV::Obj(_) => json_text(v)[0] == '{',
        },
{
    match v {
        JsonV::Sc(sc) => {
            lemma_scalar_first(sc);
        },
        JsonV::Arr(elems) => {
            assert(json_text(v)[0] == (seq!['['] + arr_items_text(elems) + seq![']'])[0]);
        },
        JsonV::Obj(pairs) => {
            assert(json_text(v)[0] == (seq!['{'] + obj_items_text(pairs) + seq!['}'])[0]);
        },
    }
}

/// Parsing the canonical text of a value in machine range yields it back,
/// when a separator or the end follows.
proof fn lemma_json_inv(s: Seq<char>, i: int, v: JsonV, rest: Seq<char>)
    requires
        0 <= i <= s.len(),
        s.skip(i) == json_text(v) + rest,
        jsonv_valid(v),
        sep_start(rest),
    ensures
        p_json(s, i) == Option::Some((v, i + json_text(v).len())),
{
    lemma_skip_parts(s, i, json_text(v), rest);
    lemma_json_first(v);
    assert(s[i + 0] == json_text(v)[0]);
    assert(('{' as u32) == 123 && ('[' as u32) == 91 && ('}' as u32) == 125 && (']' as u32) == 93
        && ('"' as u32) == 34 && ('t' as u32) == 116 && ('f' as u32) == 102 && ('-' as u32) == 45);
    match v {
        JsonV::Sc(sc) => {
            lemma_scalar_first(sc);
            assert(s[i] != '{' && s[i] != '[');
            lemma_scalar_inv(s, i, sc, rest);
        },
        JsonV::Arr(elems) => {
            assert(s[i] == '[');
            if elems.len() == 0 {
                assert(arr_items_text(elems) =~= Seq::<char>::empty());
                assert(json_text(v) =~= seq!['[', ']']);
                assert(s[i + 1] == json_text(v)[1]);
                assert(s[i + 1] == ']');
                assert(p_json(s, i) == Option::Some((JsonV::Arr(Seq::<ScalarV>::empty()), i
                    + 2)));
                assert(elems =~= Seq::<ScalarV>::empty());
            } else {
                let body = arr_items_text(elems) + (seq![']'] + rest);
                assert(s.skip(i) == seq!['['] + body) by {
                    assert((seq!['['] + arr_items_text(elems) + seq![']']) + rest =~= seq!['[']
                        + (arr_items_text(elems) + (seq![']'] + rest)));
                }
                lemma_skip_parts(s, i, seq!['['], body);
                lemma_arr_items_inv(s, i + 1, elems, rest);
                lemma_scalar_first(elems[0]);
                assert(s[i + 1 + 0] == body[0]);
                assert(body[0] == arr_items_text(elems)[0]);
                assert(arr_items_text(elems)[0] == scalar_text(elems[0])[0]) by {
                    if elems.len() > 1 {
                        assert((scalar_text(elems[0]) + seq![','] + arr_items_text(elems.skip(1)))[
                            0] == scalar_text(elems[0])[0]);
                    }
                }
                assert(s[i + 1] != ']');
                assert(p_json(s, i) == Option::Some((JsonV::Arr(elems), i + 1 + (arr_items_text(
                    elems,
                ).len() + 1))));
            }
        },
        JsonV::Obj(pairs) => {
            assert(s[i] == '{');
            if pairs.len() == 0 {
                assert(obj_items_text(pairs) =~= Seq::<char>::empty());
                assert(json_text(v) =~= seq!['{', '}']);
                assert(s[i + 1] == json_text(v)[1]);
                assert(s[i + 1] == '}');
                assert(p_json(s, i) == Option::Some((JsonV::Obj(
                    Seq::<(Seq<char>, ScalarV)>::empty(),
                ), i + 2)));
                assert(pairs =~= Seq::<(Seq<char>, ScalarV)>::empty());
            } else {
                let body = obj_items_text(pairs) + (seq!['}'] + rest);
                assert(s.skip(i) == seq!['{'] + body) by {
                    assert((seq!['{'] + obj_items_text(pairs) + seq!['}']) + rest =~= seq!['{']
                        + (obj_items_text(pairs) + (seq!['}'] + rest)));
                }
                lemma_skip_parts(s, i, seq!['{'], body);
                lemma_obj_items_inv(s, i + 1, pairs, rest);
                assert(s[i + 1 + 0] == body[0]);
                assert(body[0] == obj_items_text(pairs)[0]);
                assert(obj_items_text(pairs)[0] == '"') by {
                    assert(pair_text(pairs[0])[0] == '"') by {
                        assert((str_text(pairs[0].0) + seq![':'] + scalar_text(pairs[0].1))[0] == (
                        seq!['"'] + esc_text(pairs[0].0) + seq!['"'])[0]);
                    }
                    if pairs.len() > 1 {
                        assert((pair_text(pairs[0]) + seq![','] + obj_items_text(pairs.skip(1)))[0]
                            == pair_text(pairs[0])[0]);
                    }
                }
                assert(s[i + 1] != '}');
                assert(p_json(s, i) == Option::Some((JsonV::Obj(pairs), i + 1 + (obj_items_text(
                    pairs,
                ).len() + 1))));
            }
        },
    }
}

/// Parsing the member texts of a non-empty document followed by the closing
/// brace yields the members back.
#[verifier::rlimit(60)]
proof fn lemma_doc_items_inv(s: Seq<char>, i: int, pairs: Seq<(Seq<char>, JsonV)>, rest: Seq<char>)
    requires
        0 <= i <= s.len(),
        pairs.len() >= 1,
        doc_valid(pairs),
        s.skip(i) == doc_items_text(pairs) + (seq!['}'] + rest),
    ensures
        p_doc_items(s, i) == Option::Some((pairs, i + doc_items_text(pairs).len() + 1)),
    decreases pairs.len(),
{
    let key = pairs[0].0;
    let v0 = pairs[0].1;
    assert(('}' as u32) == 125 && (',' as u32) == 44 && (':' as u32) == 58);
    lemma_json_first(v0);
    if pairs.len() == 1 {
        assert(doc_items_text(pairs) == str_text(key) + seq![':'] + json_text(v0));
        let after_key = seq![':'] + (json_text(v0) + (seq!['}'] + rest));
        assert(s.skip(i) == str_text(key) + after_key) by {
            assert((str_text(key) + seq![':'] + json_text(v0)) + (seq!['}'] + rest) =~= str_text(
                key,
            ) + (seq![':'] + (json_text(v0) + (seq!['}'] + rest))));
        }
        lemma_skip_parts(s, i, str_text(key), after_key);
        lemma_str_inv(s, i, key, after_key);
        let j = i + str_text(key).len();
        assert(s[i + str_text(key).len() + 0] == after_key[0]);
        assert(s[j] == ':');
        assert(s.skip(j + 1) == json_text(v0) + (seq!['}'] + rest)) by {
            lemma_skip_parts(s, j, seq![':'], json_text(v0) + (seq!['}'] + rest));
        }
        lemma_skip_parts(s, j + 1, json_text(v0), seq!['}'] + rest);
        lemma_json_inv(s, j + 1, v0, seq!['}'] + rest);
        let k = j + 1 + json_text(v0).len();
        assert(s[(j + 1) + json_text(v0).len() + 0] == (seq!['}'] + rest)[0]);
        assert(s[k] == '}');
        assert(p_doc_items(s, i) == Option::Some((seq![(key, v0)], k + 1)));
        assert(seq![(key, v0)] =~= pairs);
    } else {
        let tail_pairs = pairs.skip(1);
        let tail_text = doc_items_text(tail_pairs) + (seq!['}'] + rest);
        assert(doc_items_text(pairs) == doc_pair_text(pairs[0]) + seq![','] + doc_items_text(
            tail_pairs,
        ));
        let after_key = seq![':'] + (json_text(v0) + (seq![','] + tail_text));
        assert(s.skip(i) == str_text(key) + after_key) by {
            assert(((str_text(key) + seq![':'] + json_text(v0)) + seq![','] + doc_items_text(
                tail_pairs,
            )) + (seq!['}'] + rest) =~= str_text(key) + (seq![':'] + (json_text(v0) + (seq![',']
                + (doc_items_text(tail_pairs) + (seq!['}'] + rest))))));
        }
        lemma_skip_parts(s, i, str_text(key), after_key);
        lemma_str_inv(s, i, key, after_key);
        let j = i + str_text(key).len();
        assert(s[i + str_text(key).len() + 0] == after_key[0]);
        assert(s[j] == ':');
        assert(s.skip(j + 1) == json_text(v0) + (seq![','] + tail_text)) by {
            lemma_skip_parts(s, j, seq![':'], json_text(v0) + (seq![','] + tail_text));
        }
        lemma_skip_parts(s, j + 1, json_text(v0), seq![','] + tail_text);
        lemma_json_inv(s, j + 1, v0, seq![','] + tail_text);
        let k = j + 1 + json_text(v0).len();
        assert(s[(j + 1) + json_text(v0).len() + 0] == (seq![','] + tail_text)[0]);
        assert(s[k] == ',');
        assert(s.skip(k + 1) == tail_text) by {
            lemma_skip_parts(s, k, seq![','], tail_text);
        }
        assert(doc_valid(tail_pairs)) by {
            assert(forall|q: int| 0 <= q < tail_pairs.len() ==> #[trigger] tail_pairs[q]
                == pairs[q + 1]);
        }
        lemma_doc_items_inv(s, k + 1, tail_pairs, rest);
        assert(p_doc_items(s, i) == Option::Some((seq![(key, v0)] + tail_pairs, k + 1
            + doc_items_text(tail_pairs).len() + 1)));
        assert(seq![(key, v0)] + tail_pairs =~= pairs);
    }
}

/// Re-parsing the canonical text of any document in machine range yields
/// exactly its members: the task wire format round-trips.
pub proof fn lemma_doc_round_trip(pairs: Seq<(Seq<char>, JsonV)>)
    requires
        doc_valid(pairs),
    ensures
        text_to_doc(doc_text(pairs)) == Option::Some(pairs),
{
    let s = doc_text(pairs);
    assert(('{' as u32) == 123 && ('}' as u32) == 125 && ('"' as u32) == 34);
    assert(s[0] == '{') by {
        assert(s[0] == (seq!['{'] + doc_items_text(pairs) + seq!['}'])[0]);
    }
    if pairs.len() == 0 {
        assert(doc_items_text(pairs) =~= Seq::<char>::empty());
        assert(s =~= seq!['{', '}']);
        assert(s[1] == '}');
        assert(pairs =~= Seq::<(Seq<char>, JsonV)>::empty());
    } else {
        let key = pairs[0].0;
        assert(str_text(key).len() >= 2);
        assert(doc_pair_text(pairs[0]).len() >= 2);
        assert(doc_items_text(pairs).len() >= 2);
        assert(s.len() > 2);
        assert(s.skip(1) == doc_items_text(pairs) + (seq!['}'] + Seq::<char>::empty())) by {
            assert(s.skip(1) =~= doc_items_text(pairs) + seq!['}']);
            assert(doc_items_text(pairs) + seq!['}'] =~= doc_items_text(pairs) + (seq!['}']
                + Seq::<char>::empty()));
        }
        lemma_doc_items_inv(s, 1, pairs, Seq::<char>::empty());
    }
}

} // verus!
