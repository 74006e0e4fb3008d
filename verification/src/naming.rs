//! The name of the stored procedure that inserts a table: `exec mmsdm_proc.Insert`, the
//! data set and the table in Pascal case, the version, and the two parameters.

use vstd::prelude::*;

verus! {

/// The upper case of an ASCII letter; any other character unchanged.
pub open spec fn upper(c: char) -> char {
    if 'a' <= c && c <= 'z' {
        ((c as u32) - 32) as char
    } else {
        c
    }
}

/// The lower case of an ASCII letter; any other character unchanged.
pub open spec fn lower(c: char) -> char {
    if 'A' <= c && c <= 'Z' {
        ((c as u32) + 32) as char
    } else {
        c
    }
}

/// A name in upper snake case (`BILLING_CONFIG`) in Pascal case (`BillingConfig`): the
/// underscores dropped, the first letter of each word in upper case, the others in lower.
pub open spec fn pascal(s: Seq<char>) -> Seq<char>
    decreases s.len(),
{
    if s.len() == 0 {
        Seq::empty()
    } else {
        let init = s.drop_last();
        let c = s.last();
        if c == '_' {
            pascal(init)
        } else if init.len() == 0 || init.last() == '_' {
            pascal(init).push(upper(c))
        } else {
            pascal(init).push(lower(c))
        }
    }
}

/// The decimal digit `d`.
pub open spec fn digit(d: nat) -> char {
    ((d + 48) as u8) as char
}

/// The decimal numeral of `n`, without leading zeros.
pub open spec fn decimal(n: nat) -> Seq<char>
    decreases n,
{
    if n < 10 {
        seq![digit(n)]
    } else {
        decimal(n / 10).push(digit(n % 10))
    }
}

/// The decimal numeral of `v`, with a minus sign when it is negative.
pub open spec fn signed_decimal(v: int) -> Seq<char> {
    if v < 0 {
        seq!['-'] + decimal((-v) as nat)
    } else {
        decimal(v as nat)
    }
}

/// The call of the stored procedure that inserts rows of the table `table` of the data set
/// `data_set`, version `version`.
pub open spec fn procedure_name(data_set: Seq<char>, table: Seq<char>, version: i32) -> Seq<char> {
    "exec mmsdm_proc.Insert"@ + pascal(data_set) + pascal(table) + signed_decimal(version as int)
        + " @P1, @P2"@
}

/// `String::push`: appends the character `c` at the end of `text`.
#[verifier::external_body]
pub(crate) fn push_char(text: &mut String, c: char)
    ensures
        final(text)@ == old(text)@.push(c),
{
    text.push(c);
}

fn to_upper(c: char) -> (r: char)
    ensures
        r == upper(c),
{
    if 'a' <= c && c <= 'z' {
        let v: u32 = (c as u32) - 32;
        (v as u8) as char
    } else {
        c
    }
}

fn to_lower(c: char) -> (r: char)
    ensures
        r == lower(c),
{
    if 'A' <= c && c <= 'Z' {
        let v: u32 = (c as u32) + 32;
        (v as u8) as char
    } else {
        c
    }
}

/// Appends `s` in Pascal case to `out`.
fn push_pascal(out: &mut String, s: &str)
    ensures
        final(out)@ == old(out)@ + pascal(s@),
{
    let ghost start = out@;
    let n = s.unicode_len();
    let mut word_start = true;
    let mut i: usize = 0;
    assert(s@.take(0) =~= Seq::<char>::empty());
    while i < n
        invariant
            n == s@.len(),
            i <= n,
            out@ == start + pascal(s@.take(i as int)),
            word_start == (i == 0 || s@[i - 1] == '_'),
        decreases n - i,
    {
        let c = s.get_char(i);
        assert(s@.take(i + 1).drop_last() =~= s@.take(i as int));
        assert(s@.take(i + 1).last() == c);
        if c == '_' {
        } else if word_start {
            push_char(out, to_upper(c));
            assert(out@ =~= start + pascal(s@.take(i + 1)));
        } else {
            push_char(out, to_lower(c));
            assert(out@ =~= start + pascal(s@.take(i + 1)));
        }
        word_start = c == '_';
        i = i + 1;
    }
    assert(s@.take(n as int) =~= s@);
}

fn digit_char(d: u32) -> (r: char)
    requires
        d < 10,
    ensures
        r == digit(d as nat),
{
    ((d + 48) as u8) as char
}

/// Appends the decimal numeral of `n` to `out`.
fn push_decimal(out: &mut String, n: u32)
    ensures
        final(out)@ == old(out)@ + decimal(n as nat),
    decreases n,
{
    let ghost start = out@;
    if n >= 10 {
        push_decimal(out, n / 10);
    }
    push_char(out, digit_char(n % 10));
    assert(out@ =~= start + decimal(n as nat));
}

/// The call of the stored procedure that inserts rows of the table `table` of the data set
/// `data_set`, version `version`: `exec mmsdm_proc.Insert` followed by the data set and the
/// table in Pascal case and the version, then ` @P1, @P2`.
pub fn procedure(data_set: &str, table: &str, version: i32) -> (r: String)
    ensures
        r@ == procedure_name(data_set@, table@, version),
{
    let mut out = String::from_str("exec mmsdm_proc.Insert");
    push_pascal(&mut out, data_set);
    push_pascal(&mut out, table);
    let ghost before = out@;
    if version < 0 {
        push_char(&mut out, '-');
        let magnitude: u32 = (0 - (version as i64)) as u32;
        push_decimal(&mut out, magnitude);
    } else {
        push_decimal(&mut out, version as u32);
    }
    assert(out@ =~= before + signed_decimal(version as int));
    out.append(" @P1, @P2");
    assert(out@ =~= procedure_name(data_set@, table@, version));
    out
}

} // verus!
