//! Small verified string-building helpers: decimal rendering of counts and
//! joining text fragments with a separator.  The pipeline uses these to build
//! its human-readable failure reasons.

use vstd::prelude::*;
use vstd::string::StringExecFns;

verus! {

/// The decimal digit character for `d` (`0 <= d <= 9`).
pub open spec fn dec_digit(d: nat) -> char {
    if d == 0 {
        '0'
    } else if d == 1 {
        '1'
    } else if d == 2 {
        '2'
    } else if d == 3 {
        '3'
    } else if d == 4 {
        '4'
    } else if d == 5 {
        '5'
    } else if d == 6 {
        '6'
    } else if d == 7 {
        '7'
    } else if d == 8 {
        '8'
    } else {
        '9'
    }
}

/// The usual decimal rendering of a natural number, most significant digit
/// first, with no leading zeros (except for zero itself).
pub open spec fn dec_str(n: nat) -> Seq<char>
    decreases n,
{
    if n < 10 {
        seq![dec_digit(n)]
    } else {
        dec_str(n / 10) + seq![dec_digit(n % 10)]
    }
}

/// One decimal digit as a string slice.
fn digit_str(d: usize) -> (r: &'static str)
    requires
        d < 10,
    ensures
        r@ == seq![dec_digit(d as nat)],
{
    let s: &'static str = match d {
        0 => "0",
        1 => "1",
        2 => "2",
        3 => "3",
        4 => "4",
        5 => "5",
        6 => "6",
        7 => "7",
        8 => "8",
        _ => "9",
    };
    proof {
        reveal_strlit("0");
        reveal_strlit("1");
        reveal_strlit("2");
        reveal_strlit("3");
        reveal_strlit("4");
        reveal_strlit("5");
        reveal_strlit("6");
        reveal_strlit("7");
        reveal_strlit("8");
        reveal_strlit("9");
        assert(s@ =~= seq![dec_digit(d as nat)]);
    }
    s
}

/// Decimal rendering of `n`.
pub fn usize_to_string(n: usize) -> (r: String)
    ensures
        r@ == dec_str(n as nat),
    decreases n,
{
    if n < 10 {
        digit_str(n).to_owned()
    } else {
        let mut s = usize_to_string(n / 10);
        s.append(digit_str(n % 10));
        proof {
            assert(s@ =~= dec_str(n as nat));
        }
        s
    }
}

/// The fragments joined with `sep` between consecutive fragments.
pub open spec fn join_texts(texts: Seq<Seq<char>>, sep: Seq<char>) -> Seq<char>
    decreases texts.len(),
{
    if texts.len() == 0 {
        Seq::empty()
    } else if texts.len() == 1 {
        texts[0]
    } else {
        texts[0] + sep + join_texts(texts.drop_first(), sep)
    }
}

/// Appending one more fragment extends the join with a separator (unless the
/// join was empty so far).
proof fn lemma_join_push(texts: Seq<Seq<char>>, x: Seq<char>, sep: Seq<char>)
    ensures
        join_texts(texts.push(x), sep) == if texts.len() == 0 {
            x
        } else {
            join_texts(texts, sep) + sep + x
        },
    decreases texts.len(),
{
    if texts.len() == 0 {
        assert(texts.push(x).len() == 1);
        assert(texts.push(x)[0] == x);
    } else {
        let rest = texts.drop_first();
        assert(texts.push(x).drop_first() =~= rest.push(x));
        lemma_join_push(rest, x, sep);
        if texts.len() == 1 {
            assert(rest.len() == 0);
            assert(join_texts(texts.push(x), sep) =~= texts[0] + sep + x);
            assert(join_texts(texts, sep) == texts[0]);
        } else {
            assert(join_texts(texts.push(x), sep) =~= texts[0] + sep + (join_texts(
                rest,
                sep,
            ) + sep + x));
            assert(join_texts(texts, sep) + sep + x =~= texts[0] + sep + join_texts(
                rest,
                sep,
            ) + sep + x);
            assert(texts[0] + sep + (join_texts(rest, sep) + sep + x) =~= texts[0] + sep
                + join_texts(rest, sep) + sep + x);
        }
    }
}

/// The items joined with `sep` between consecutive items.
pub fn join_strings(items: &Vec<String>, sep: &str) -> (r: String)
    ensures
        r@ == join_texts(items.deep_view(), sep@),
{
    let mut out = String::new();
    let mut i: usize = 0;
    while i < items.len()
        invariant
            i <= items.len(),
            out@ == join_texts(items.deep_view().take(i as int), sep@),
        decreases items.len() - i,
    {
        if i > 0 {
            out.append(sep);
        }
        out.append(items[i].as_str());
        proof {
            let prefix = items.deep_view().take(i as int);
            assert(items.deep_view().take(i + 1) =~= prefix.push(items.deep_view()[i as int]));
            lemma_join_push(prefix, items.deep_view()[i as int], sep@);
        }
        i = i + 1;
    }
    proof {
        assert(items.deep_view().take(items@.len() as int) =~= items.deep_view());
    }
    out
}

} // verus!
