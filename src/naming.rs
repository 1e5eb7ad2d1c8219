//! Identifiers derived from variant names: the snake-case word of a variant,
//! and decimal numerals for synthesized bindings.
use vstd::prelude::*;

verus! {

/// Whether a character has the Unicode `Uppercase` property.
pub uninterp spec fn uppercase_property(c: char) -> bool;

/// Relies on `char::is_uppercase`, which reports the Unicode `Uppercase`
/// property of its argument and nothing else.
#[verifier::external_body]
fn is_uppercase(c: char) -> (r: bool)
    ensures
        r == uppercase_property(c),
{
    c.is_uppercase()
}

/// Relies on `String::push`, which appends one character.
#[verifier::external_body]
pub(crate) fn push_char(s: &mut String, c: char)
    ensures
        final(s)@ == old(s)@.push(c),
{
    s.push(c)
}

/// ASCII `A`..=`Z` mapped to `a`..=`z`; every other character unchanged.
pub open spec fn ascii_lower(c: char) -> char {
    if 'A' <= c <= 'Z' {
        ((c as u32) + 32) as char
    } else {
        c
    }
}

pub fn to_ascii_lower(c: char) -> (r: char)
    ensures
        r == ascii_lower(c),
{
    if 'A' <= c && c <= 'Z' {
        ((c as u8) + 32) as char
    } else {
        c
    }
}

/// The snake-case word of an identifier whose uppercase characters are
/// those marked in `upper`: each marked character is lowered to ASCII and,
/// unless nothing has been written yet, preceded by `_`; every other
/// character passes through unchanged.
pub open spec fn snake_case_marked(s: Seq<char>, upper: Seq<bool>) -> Seq<char>
    decreases s.len(),
{
    if s.len() == 0 {
        seq![]
    } else {
        let p = snake_case_marked(s.drop_last(), upper.take(s.len() - 1));
        let c = s.last();
        if upper[s.len() - 1] {
            if p.len() == 0 {
                seq![ascii_lower(c)]
            } else {
                p + seq!['_', ascii_lower(c)]
            }
        } else {
            p.push(c)
        }
    }
}

/// Which characters of `s` have the Unicode `Uppercase` property.
pub open spec fn uppercase_marks(s: Seq<char>) -> Seq<bool> {
    Seq::new(s.len(), |i: int| uppercase_property(s[i]))
}

/// The snake-case word of an identifier (`CamelCase` gives `camel_case`).
pub open spec fn snake_case(s: Seq<char>) -> Seq<char> {
    snake_case_marked(s, uppercase_marks(s))
}

/// The snake-case word of `name`, given which of its characters are
/// uppercase.
pub fn snake_case_from_marks(name: &String, upper: &Vec<bool>) -> (r: String)
    requires
        upper@.len() == name@.len(),
    ensures
        r@ == snake_case_marked(name@, upper@),
{
    let s = name.as_str();
    let n = s.unicode_len();
    let mut out = String::new();
    let mut i: usize = 0;
    while i < n
        invariant
            n == s@.len(),
            s@ == name@,
            upper@.len() == n,
            i <= n,
            out@ == snake_case_marked(s@.take(i as int), upper@.take(i as int)),
        decreases n - i,
    {
        let c = s.get_char(i);
        assert(s@.take(i + 1).drop_last() =~= s@.take(i as int));
        assert(upper@.take(i + 1).take(i as int) =~= upper@.take(i as int));
        if upper[i] {
            let l = to_ascii_lower(c);
            if out.unicode_len() == 0 {
                push_char(&mut out, l);
                assert(out@ =~= seq![l]);
            } else {
                push_char(&mut out, '_');
                push_char(&mut out, l);
                assert(out@ =~= snake_case_marked(s@.take(i as int), upper@.take(i as int)) + seq!['_', l]);
            }
        } else {
            push_char(&mut out, c);
        }
        i = i + 1;
    }
    assert(s@.take(n as int) =~= s@);
    assert(upper@.take(n as int) =~= upper@);
    out
}

/// The snake-case word of a variant name (`CamelCase` gives `camel_case`).
pub fn variant_snake_case_name(name: &String) -> (r: String)
    ensures
        r@ == snake_case(name@),
{
    let s = name.as_str();
    let n = s.unicode_len();
    let mut marks: Vec<bool> = Vec::new();
    let mut i: usize = 0;
    while i < n
        invariant
            n == s@.len(),
            s@ == name@,
            i <= n,
            marks@ =~= uppercase_marks(s@).take(i as int),
        decreases n - i,
    {
        marks.push(is_uppercase(s.get_char(i)));
        i = i + 1;
        assert(marks@ =~= uppercase_marks(s@).take(i as int));
    }
    assert(uppercase_marks(s@).take(n as int) =~= uppercase_marks(s@));
    snake_case_from_marks(name, &marks)
}

/// The decimal numeral of a digit.
pub open spec fn digit_char(d: nat) -> char {
    if d == 0 { '0' }
    else if d == 1 { '1' }
    else if d == 2 { '2' }
    else if d == 3 { '3' }
    else if d == 4 { '4' }
    else if d == 5 { '5' }
    else if d == 6 { '6' }
    else if d == 7 { '7' }
    else if d == 8 { '8' }
    else { '9' }
}

/// The decimal numeral of `n`, without leading zeros.
pub open spec fn decimal(n: nat) -> Seq<char>
    decreases n,
{
    if n < 10 {
        seq![digit_char(n)]
    } else {
        decimal(n / 10).push(digit_char(n % 10))
    }
}

fn digit(d: usize) -> (r: char)
    requires
        d < 10,
    ensures
        r == digit_char(d as nat),
{
    match d {
        0 => '0',
        1 => '1',
        2 => '2',
        3 => '3',
        4 => '4',
        5 => '5',
        6 => '6',
        7 => '7',
        8 => '8',
        _ => '9',
    }
}

/// Appends the decimal numeral of `n` to `out`.
pub fn push_decimal(out: &mut String, n: usize)
    ensures
        final(out)@ == old(out)@ + decimal(n as nat),
    decreases n,
{
    if n >= 10 {
        push_decimal(out, n / 10);
    }
    push_char(out, digit(n % 10));
    proof {
        if n >= 10 {
            assert(final(out)@ =~= old(out)@ + decimal(n as nat));
        } else {
            assert(final(out)@ =~= old(out)@ + decimal(n as nat));
        }
    }
}

} // verus!
