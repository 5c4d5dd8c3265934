//! Building blocks for the generated source text: decimal rendering of
//! tuple indices, comma-joining of text pieces, and the common frame of
//! one conversion implementation.

use vstd::prelude::*;
use vstd::string::StringExecFns;

verus! {

/// The character that writes one decimal digit.
pub open spec fn spec_digit_char(d: nat) -> char {
    if d == 0 {
        '0'
    } else if d == 1 {
        '1'
    } else if d == 2 {
        '2'
    } else if d == 3 {
        '3'
    } else if d == 4 {
        '4'
    } else if d == 5 {
        '5'
    } else if d == 6 {
        '6'
    } else if d == 7 {
        '7'
    } else if d == 8 {
        '8'
    } else {
        '9'
    }
}

/// The decimal text of a natural number, most significant digit first,
/// without leading zeroes (zero itself is written as one digit).
pub open spec fn spec_decimal(n: nat) -> Seq<char>
    decreases n,
{
    if n < 10 {
        seq![spec_digit_char(n)]
    } else {
        spec_decimal(n / 10) + seq![spec_digit_char(n % 10)]
    }
}

/// The given pieces joined by the separator, in order.
pub open spec fn spec_join(parts: Seq<Seq<char>>, sep: Seq<char>) -> Seq<char>
    decreases parts.len(),
{
    if parts.len() == 0 {
        Seq::empty()
    } else if parts.len() == 1 {
        parts[0]
    } else {
        spec_join(parts.drop_last(), sep) + sep + parts.last()
    }
}

/// One complete conversion implementation: text that converts a value of
/// the type written `src` into the type written `target` by evaluating
/// the expression written `body` on the converted value, called
/// `original`.
pub open spec fn spec_conversion_impl(src: Seq<char>, target: Seq<char>, body: Seq<char>) -> Seq<
    char,
> {
    "impl ::std::convert::From<"@ + src + "> for "@ + target + " {\n    fn from(original: "@ + src
        + ") -> "@ + target + " {\n        "@ + body + "\n    }\n}\n"@
}

/// The one-character text of a decimal digit.
fn digit_str(d: usize) -> (s: &'static str)
    requires
        d < 10,
    ensures
        s@ == seq![spec_digit_char(d as nat)],
{
    proof {
        reveal_strlit("0");
        reveal_strlit("1");
        reveal_strlit("2");
        reveal_strlit("3");
        reveal_strlit("4");
        reveal_strlit("5");
        reveal_strlit("6");
        reveal_strlit("7");
        reveal_strlit("8");
        reveal_strlit("9");
    }
    let s: &'static str = if d == 0 {
        "0"
    } else if d == 1 {
        "1"
    } else if d == 2 {
        "2"
    } else if d == 3 {
        "3"
    } else if d == 4 {
        "4"
    } else if d == 5 {
        "5"
    } else if d == 6 {
        "6"
    } else if d == 7 {
        "7"
    } else if d == 8 {
        "8"
    } else {
        "9"
    };
    proof {
        assert(s@ =~= seq![spec_digit_char(d as nat)]);
    }
    s
}

/// Writes a number in decimal, as it appears in a tuple index.
pub fn decimal_string(n: usize) -> (s: String)
    ensures
        s@ == spec_decimal(n as nat),
    decreases n,
{
    if n < 10 {
        String::from_str(digit_str(n))
    } else {
        proof {
            assert(n / 10 < n) by (nonlinear_arith)
                requires
                    n >= 10,
            ;
        }
        let mut s = decimal_string(n / 10);
        s.append(digit_str(n % 10));
        proof {
            assert(s@ =~= spec_decimal(n as nat));
        }
        s
    }
}

/// Joins the pieces with the separator, in order.
pub fn join_parts(parts: &Vec<String>, sep: &str) -> (s: String)
    ensures
        s@ == spec_join(parts.deep_view(), sep@),
{
    let mut s = String::new();
    let mut i: usize = 0;
    while i < parts.len()
        invariant
            i <= parts.len(),
            s@ == spec_join(parts.deep_view().take(i as int), sep@),
        decreases parts.len() - i,
    {
        if i > 0 {
            s.append(sep);
        }
        let part = &parts[i];
        s.append(part.as_str());
        proof {
            let pv = parts.deep_view();
            assert(pv.take(i + 1).drop_last() =~= pv.take(i as int));
            assert(pv.take(i + 1).last() == pv[i as int]);
            assert(s@ =~= spec_join(pv.take(i + 1), sep@));
        }
        i += 1;
    }
    proof {
        assert(parts.deep_view().take(parts.len() as int) =~= parts.deep_view());
    }
    s
}

/// Lays out one conversion implementation around the given type texts
/// and construction expression.
pub fn conversion_impl(src: &str, target: &str, body: &str) -> (s: String)
    ensures
        s@ == spec_conversion_impl(src@, target@, body@),
{
    let mut s = String::from_str("impl ::std::convert::From<");
    s.append(src);
    s.append("> for ");
    s.append(target);
    s.append(" {\n    fn from(original: ");
    s.append(src);
    s.append(") -> ");
    s.append(target);
    s.append(" {\n        ");
    s.append(body);
    s.append("\n    }\n}\n");
    proof {
        assert(s@ =~= spec_conversion_impl(src@, target@, body@));
    }
    s
}

} // verus!
