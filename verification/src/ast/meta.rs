//! Source positions and the wrappers that attach them to syntax nodes.

use vstd::prelude::*;
use vstd::string::StringExecFns;

verus! {

/// A half-open byte range `[start, end)` of the source text.
#[derive(Eq, PartialEq, Debug, Hash, Clone, Copy)]
pub struct SourceSpan {
    pub start: usize,
    pub end: usize,
}

impl SourceSpan {
    /// The span from `start` up to, and not including, `end`.
    pub fn new(start: usize, end: usize) -> (span: Self)
        ensures
            span.start == start,
            span.end == end,
    {
        Self { start, end }
    }

    /// The span as diagnostics show it: `start:end`.
    pub fn to_text(&self) -> (text: String)
        ensures
            text@ == span_text(*self),
    {
        proof {
            reveal_strlit(":");
        }
        let mut text = decimal_string(self.start);
        text.append(":");
        let end = decimal_string(self.end);
        text.append(end.as_str());
        text
    }
}

/// A value together with the span of source text that produced it.
#[derive(Eq, PartialEq, Debug, Hash, Clone)]
pub struct Located<T>(pub SourceSpan, pub T);

impl<T> Located<T> {
    /// Drops the span and gives the value back.
    pub fn into_inner(self) -> (value: T)
        ensures
            value == self.1,
    {
        self.1
    }

    /// The span of the node.
    pub fn span(&self) -> (span: &SourceSpan)
        ensures
            *span == self.0,
    {
        &self.0
    }

    /// The value of the node, without its span.
    pub fn value(&self) -> (value: &T)
        ensures
            *value == self.1,
    {
        &self.1
    }

    /// The node as diagnostics show it, given the text of its value: the
    /// value, a space, and the span as `start:end`.
    pub fn display(&self, value: &str) -> (text: String)
        ensures
            text@ == located_text(value@, self.0),
    {
        proof {
            reveal_strlit(" ");
        }
        let mut text = value.to_owned();
        text.append(" ");
        let span = self.0.to_text();
        text.append(span.as_str());
        text
    }
}

/// The text of one source comment.
#[derive(Eq, PartialEq, Debug, Hash, Clone)]
pub struct Comment(pub String);

/// A value together with the comments that precede it in the source.
#[derive(Eq, PartialEq, Debug, Hash, Clone)]
pub struct Commented<T>(pub Vec<Comment>, pub T);

impl<T> Commented<T> {
    /// The value, without its comments.
    pub fn value(&self) -> (value: &T)
        ensures
            *value == self.1,
    {
        &self.1
    }
}

/// The decimal digit for `d`, a number below ten.
pub open spec fn digit_char(d: nat) -> char {
    if d == 0 {
        '0'
    } else if d == 1 {
        '1'
    } else if d == 2 {
        '2'
    } else if d == 3 {
        '3'
    } else if d == 4 {
        '4'
    } else if d == 5 {
        '5'
    } else if d == 6 {
        '6'
    } else if d == 7 {
        '7'
    } else if d == 8 {
        '8'
    } else {
        '9'
    }
}

/// The decimal numeral of `n`, without leading zeros.
pub open spec fn decimal(n: nat) -> Seq<char>
    decreases n,
{
    if n < 10 {
        seq![digit_char(n)]
    } else {
        decimal(n / 10).push(digit_char(n % 10))
    }
}

/// How a span is shown: `start:end`, both in decimal.
pub open spec fn span_text(span: SourceSpan) -> Seq<char> {
    decimal(span.start as nat) + seq![':'] + decimal(span.end as nat)
}

/// How a located value is shown: the text of the value, a space, and the
/// span.
pub open spec fn located_text(value: Seq<char>, span: SourceSpan) -> Seq<char> {
    value + seq![' '] + span_text(span)
}

/// The numeral of one digit.
fn digit_str(d: usize) -> (s: &'static str)
    requires
        d < 10,
    ensures
        s@ == seq![digit_char(d as nat)],
{
    proof {
        reveal_strlit("0");
        reveal_strlit("1");
        reveal_strlit("2");
        reveal_strlit("3");
        reveal_strlit("4");
        reveal_strlit("5");
        reveal_strlit("6");
        reveal_strlit("7");
        reveal_strlit("8");
        reveal_strlit("9");
    }
    let s = if d == 0 {
        "0"
    } else if d == 1 {
        "1"
    } else if d == 2 {
        "2"
    } else if d == 3 {
        "3"
    } else if d == 4 {
        "4"
    } else if d == 5 {
        "5"
    } else if d == 6 {
        "6"
    } else if d == 7 {
        "7"
    } else if d == 8 {
        "8"
    } else {
        "9"
    };
    s
}

/// The decimal numeral of `n`.
fn decimal_string(n: usize) -> (s: String)
    ensures
        s@ == decimal(n as nat),
    decreases n,
{
    if n < 10 {
        digit_str(n).to_owned()
    } else {
        let mut s = decimal_string(n / 10);
        s.append(digit_str(n % 10));
        s
    }
}

/// The number that a decimal digit stands for.
pub open spec fn digit_value(c: char) -> nat {
    if c == '1' {
        1
    } else if c == '2' {
        2
    } else if c == '3' {
        3
    } else if c == '4' {
        4
    } else if c == '5' {
        5
    } else if c == '6' {
        6
    } else if c == '7' {
        7
    } else if c == '8' {
        8
    } else if c == '9' {
        9
    } else {
        0
    }
}

/// The number that a decimal numeral stands for.
pub open spec fn decimal_value(s: Seq<char>) -> nat
    decreases s.len(),
{
    if s.len() == 0 {
        0
    } else {
        10 * decimal_value(s.drop_last()) + digit_value(s.last())
    }
}

/// The decimal numeral of a number stands for that number, and starts with
/// a zero only where the number is zero.
pub proof fn lemma_decimal_denotes(n: nat)
    ensures
        decimal_value(decimal(n)) == n,
        decimal(n).len() >= 1,
        decimal(n)[0] == '0' <==> n == 0,
    decreases n,
{
    reveal_with_fuel(decimal_value, 2);
    if n >= 10 {
        lemma_decimal_denotes(n / 10);
        assert(decimal(n / 10).push(digit_char(n % 10)).drop_last() == decimal(n / 10));
    }
}

} // verus!
