//! Text the bridge is handed: values joined by a separator, and numbers
//! written out in a base.

use vstd::prelude::*;
use vstd::string::StringExecFns;
use vstd::arithmetic::div_mod::{lemma_div_decreases, lemma_fundamental_div_mod, lemma_mod_bound};

verus! {

/// The values of a list of strings.
pub open spec fn views(list: Seq<String>) -> Seq<Seq<char>> {
    list.map_values(|s: String| s@)
}

/// `list`'s elements with `sep` between each two of them; empty for no elements.
pub open spec fn joined(list: Seq<Seq<char>>, sep: Seq<char>) -> Seq<char>
    decreases list.len(),
{
    if list.len() == 0 {
        Seq::empty()
    } else if list.len() == 1 {
        list[0]
    } else {
        joined(list.drop_last(), sep) + sep + list.last()
    }
}

/// The pieces of `s` between occurrences of `sep`, in order: one more piece
/// than there are separators.
pub open spec fn split(s: Seq<char>, sep: char) -> Seq<Seq<char>>
    decreases s.len(),
{
    if s.len() == 0 {
        seq![Seq::empty()]
    } else {
        let init = split(s.drop_last(), sep);
        if s.last() == sep {
            init.push(Seq::empty())
        } else {
            init.update(init.len() - 1, init.last().push(s.last()))
        }
    }
}

/// Joins the strings of `list` with `sep` between each two of them.
pub fn join(list: &Vec<String>, sep: &str) -> (text: String)
    ensures
        text@ == joined(views(list@), sep@),
{
    let mut text = String::new();
    let ghost pieces = views(list@);
    let mut i: usize = 0;
    while i < list.len()
        invariant
            i <= list.len(),
            pieces == views(list@),
            text@ == joined(pieces.take(i as int), sep@),
        decreases list.len() - i,
    {
        if i > 0 {
            text.append(sep);
        }
        text.append(list[i].as_str());
        proof {
            assert(pieces.take(i + 1).drop_last() =~= pieces.take(i as int));
        }
        i += 1;
    }
    proof {
        assert(pieces.take(list.len() as int) =~= pieces);
    }
    text
}

proof fn lemma_split_nonempty(s: Seq<char>, sep: char)
    ensures
        split(s, sep).len() >= 1,
    decreases s.len(),
{
    if s.len() > 0 {
        lemma_split_nonempty(s.drop_last(), sep);
    }
}

/// A piece holding no separator splits into itself alone.
proof fn lemma_split_plain(b: Seq<char>, sep: char)
    requires
        !b.contains(sep),
    ensures
        split(b, sep) == seq![b],
    decreases b.len(),
{
    if b.len() > 0 {
        let init = b.drop_last();
        assert(!init.contains(sep)) by {
            if init.contains(sep) {
                let k = choose|k: int| 0 <= k < init.len() && init[k] == sep;
                assert(b[k] == sep);
            }
        }
        lemma_split_plain(init, sep);
        assert(b.last() != sep) by {
            assert(b[b.len() - 1] == b.last());
        }
        assert(init.push(b.last()) =~= b);
        assert(split(b, sep) =~= seq![b]);
    } else {
        assert(b =~= Seq::<char>::empty());
    }
}

/// Splitting `a`, a separator and a piece without one gives `a`'s pieces and then that piece.
proof fn lemma_split_append(a: Seq<char>, b: Seq<char>, sep: char)
    requires
        !b.contains(sep),
    ensures
        split(a + seq![sep] + b, sep) == split(a, sep).push(b),
    decreases b.len(),
{
    let s = a + seq![sep] + b;
    if b.len() == 0 {
        assert(s.drop_last() =~= a);
        assert(b =~= Seq::<char>::empty());
    } else {
        let init = b.drop_last();
        assert(!init.contains(sep)) by {
            if init.contains(sep) {
                let k = choose|k: int| 0 <= k < init.len() && init[k] == sep;
                assert(b[k] == sep);
            }
        }
        lemma_split_append(a, init, sep);
        assert(s.drop_last() =~= a + seq![sep] + init);
        assert(b.last() != sep) by {
            assert(b[b.len() - 1] == b.last());
        }
        assert(init.push(b.last()) =~= b);
        lemma_split_nonempty(a, sep);
        assert(split(s, sep) =~= split(a, sep).push(b));
    }
}

/// Joining pieces that hold no separator, then splitting at the separator,
/// gives the pieces back.
pub proof fn lemma_split_joined(list: Seq<Seq<char>>, sep: char)
    requires
        list.len() > 0,
        forall|i: int| 0 <= i < list.len() ==> !(#[trigger] list[i]).contains(sep),
    ensures
        split(joined(list, seq![sep]), sep) == list,
    decreases list.len(),
{
    if list.len() == 1 {
        lemma_split_plain(list[0], sep);
        assert(seq![list[0]] =~= list);
    } else {
        let init = list.drop_last();
        assert forall|i: int| 0 <= i < init.len() implies !(#[trigger] init[i]).contains(sep) by {
            assert(init[i] == list[i]);
        }
        lemma_split_joined(init, sep);
        assert(!list.last().contains(sep)) by {
            assert(list[list.len() - 1] == list.last());
        }
        lemma_split_append(joined(init, seq![sep]), list.last(), sep);
        assert(init.push(list.last()) =~= list);
    }
}

/// The character that writes the digit `d`.
pub open spec fn digit(d: nat) -> char {
    if d == 0 {
        '0'
    } else if d == 1 {
        '1'
    } else if d == 2 {
        '2'
    } else if d == 3 {
        '3'
    } else if d == 4 {
        '4'
    } else if d == 5 {
        '5'
    } else if d == 6 {
        '6'
    } else if d == 7 {
        '7'
    } else if d == 8 {
        '8'
    } else {
        '9'
    }
}

/// The digit that the character `c` writes; zero for a character that is no digit.
pub open spec fn digit_value(c: char) -> nat {
    if c == '1' {
        1
    } else if c == '2' {
        2
    } else if c == '3' {
        3
    } else if c == '4' {
        4
    } else if c == '5' {
        5
    } else if c == '6' {
        6
    } else if c == '7' {
        7
    } else if c == '8' {
        8
    } else if c == '9' {
        9
    } else {
        0
    }
}

/// `n` in base `base`, most significant digit first, with no leading zeros.
pub open spec fn numeral(n: nat, base: nat) -> Seq<char>
    decreases n,
{
    if n < base || base < 2 {
        seq![digit(n)]
    } else {
        proof {
            lemma_div_decreases(n as int, base as int);
        }
        numeral(n / base, base).push(digit(n % base))
    }
}

/// The number that the digits `s` write in base `base`.
pub open spec fn numeral_value(s: Seq<char>, base: nat) -> nat
    decreases s.len(),
{
    if s.len() == 0 {
        0
    } else {
        numeral_value(s.drop_last(), base) * base + digit_value(s.last())
    }
}

/// An integer in base ten, with a minus sign when it is negative.
pub open spec fn integer(n: int) -> Seq<char> {
    if n < 0 {
        "-"@ + numeral((-n) as nat, 10)
    } else {
        numeral(n as nat, 10)
    }
}

/// Reading back the digits of a number gives the number.
pub proof fn lemma_numeral_value(n: nat, base: nat)
    requires
        2 <= base <= 10,
    ensures
        numeral_value(numeral(n, base), base) == n,
    decreases n,
{
    if n < base {
        assert(numeral(n, base).drop_last() =~= Seq::<char>::empty());
        assert(digit_value(digit(n)) == n);
        assert(numeral(n, base) == seq![digit(n)]);
        assert(numeral_value(Seq::<char>::empty(), base) == 0);
        assert(numeral_value(seq![digit(n)], base) == 0 * base + n);
    } else {
        lemma_div_decreases(n as int, base as int);
        lemma_numeral_value(n / base, base);
        lemma_mod_bound(n as int, base as int);
        lemma_fundamental_div_mod(n as int, base as int);
        assert(numeral(n, base).drop_last() =~= numeral(n / base, base));
        assert(digit_value(digit(n % base)) == n % base);
        assert(numeral_value(numeral(n, base), base) == n)
            by (nonlinear_arith)
            requires
                n == base * (n / base) + n % base,
                numeral_value(numeral(n, base), base) == numeral_value(numeral(n / base, base), base) * base + digit_value(digit(n % base)),
                numeral_value(numeral(n / base, base), base) == n / base,
                digit_value(digit(n % base)) == n % base,
        ;
    }
}

/// The text of the digit `d`.
fn digit_text(d: u64) -> (text: &'static str)
    requires
        d < 10,
    ensures
        text@ == seq![digit(d as nat)],
{
    if d == 0 {
        proof { reveal_strlit("0"); }
        "0"
    } else if d == 1 {
        proof { reveal_strlit("1"); }
        "1"
    } else if d == 2 {
        proof { reveal_strlit("2"); }
        "2"
    } else if d == 3 {
        proof { reveal_strlit("3"); }
        "3"
    } else if d == 4 {
        proof { reveal_strlit("4"); }
        "4"
    } else if d == 5 {
        proof { reveal_strlit("5"); }
        "5"
    } else if d == 6 {
        proof { reveal_strlit("6"); }
        "6"
    } else if d == 7 {
        proof { reveal_strlit("7"); }
        "7"
    } else if d == 8 {
        proof { reveal_strlit("8"); }
        "8"
    } else {
        proof { reveal_strlit("9"); }
        "9"
    }
}

/// Writes `n` in base `base`.
pub fn numeral_text(n: u64, base: u64) -> (text: String)
    requires
        2 <= base <= 10,
    ensures
        text@ == numeral(n as nat, base as nat),
    decreases n,
{
    if n < base {
        String::from_str(digit_text(n))
    } else {
        proof {
            lemma_div_decreases(n as int, base as int);
            lemma_mod_bound(n as int, base as int);
        }
        let mut text = numeral_text(n / base, base);
        text.append(digit_text(n % base));
        text
    }
}

/// Writes a signed integer in base ten.
pub fn integer_text(n: i64) -> (text: String)
    requires
        n > i64::MIN,
    ensures
        text@ == integer(n as int),
{
    if n < 0 {
        let mut text = String::from_str("-");
        let magnitude = numeral_text((-n) as u64, 10);
        text.append(magnitude.as_str());
        text
    } else {
        numeral_text(n as u64, 10)
    }
}

/// `piece` occurs in `text`.
pub open spec fn contains_text(text: Seq<char>, piece: Seq<char>) -> bool {
    exists|before: Seq<char>, after: Seq<char>| text == before + piece + after
}

/// A nonempty run of decimal digits.
pub open spec fn decimal_digits(text: Seq<char>) -> bool {
    text.len() > 0 && forall|i: int| 0 <= i < text.len() ==> '0' <= #[trigger] text[i] && text[i] <= '9'
}

/// Joining two nonempty lists puts one separator between their joins.
pub proof fn lemma_joined_concat(first: Seq<Seq<char>>, second: Seq<Seq<char>>, sep: Seq<char>)
    requires
        first.len() > 0,
        second.len() > 0,
    ensures
        joined(first + second, sep) == joined(first, sep) + sep + joined(second, sep),
    decreases second.len(),
{
    let whole = first + second;
    if second.len() == 1 {
        assert(whole.drop_last() =~= first);
        assert(whole.last() == second[0]);
    } else {
        lemma_joined_concat(first, second.drop_last(), sep);
        assert(whole.drop_last() =~= first + second.drop_last());
        assert(whole.last() == second.last());
        assert(joined(whole, sep) =~= joined(first, sep) + sep + joined(second, sep));
    }
}

/// A list of two or more joins as its first element, a separator, and the join of the rest.
pub proof fn lemma_joined_front(list: Seq<Seq<char>>, sep: Seq<char>)
    requires
        list.len() >= 2,
    ensures
        joined(list, sep) == list[0] + sep + joined(list.drop_first(), sep),
{
    lemma_joined_concat(seq![list[0]], list.drop_first(), sep);
    assert(seq![list[0]] + list.drop_first() =~= list);
}

/// The join of a list holds each of its elements.
pub proof fn lemma_joined_contains(list: Seq<Seq<char>>, i: int, sep: Seq<char>)
    requires
        0 <= i < list.len(),
    ensures
        contains_text(joined(list, sep), list[i]),
{
    let rest = list.skip(i);
    let tail: Seq<char> = if i + 1 < list.len() { sep + joined(list.skip(i + 1), sep) } else { Seq::empty() };
    assert(joined(rest, sep) == list[i] + tail) by {
        if i + 1 < list.len() {
            lemma_joined_front(rest, sep);
            assert(rest.drop_first() =~= list.skip(i + 1));
        } else {
            assert(rest =~= seq![list[i]]);
            assert(list[i] + tail =~= list[i]);
        }
    }
    if i == 0 {
        assert(rest =~= list);
        assert(joined(list, sep) =~= Seq::<char>::empty() + list[i] + tail);
    } else {
        lemma_joined_concat(list.take(i), rest, sep);
        assert(list.take(i) + rest =~= list);
        assert(joined(list, sep) =~= (joined(list.take(i), sep) + sep) + list[i] + tail);
    }
}

/// What holds a text holds all that the text holds.
pub proof fn lemma_contains_transitive(outer: Seq<char>, middle: Seq<char>, inner: Seq<char>)
    requires
        contains_text(outer, middle),
        contains_text(middle, inner),
    ensures
        contains_text(outer, inner),
{
    let (a, b) = choose|a: Seq<char>, b: Seq<char>| outer == a + middle + b;
    let (c, d) = choose|c: Seq<char>, d: Seq<char>| middle == c + inner + d;
    assert(outer =~= (a + c) + inner + (d + b));
}

/// A numeral in base ten is a nonempty run of decimal digits.
pub proof fn lemma_numeral_decimal_digits(n: nat)
    ensures
        decimal_digits(numeral(n, 10)),
    decreases n,
{
    if n < 10 {
        assert(numeral(n, 10) =~= seq![digit(n)]);
    } else {
        lemma_div_decreases(n as int, 10);
        lemma_numeral_decimal_digits(n / 10);
        let init = numeral(n / 10, 10);
        assert forall|i: int| 0 <= i < numeral(n, 10).len() implies '0' <= #[trigger] numeral(n, 10)[i] && numeral(n, 10)[i] <= '9' by {
            if i < init.len() {
                assert(numeral(n, 10)[i] == init[i]);
            }
        }
    }
}

} // verus!
