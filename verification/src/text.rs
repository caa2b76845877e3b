//! Text as the contracts see it, and the small pieces of string handling that
//! the builders share: joining segments with a separator, the decimal notation
//! of a number, and growing a list of arguments.

use vstd::prelude::*;
use vstd::string::StringExecFns;

verus! {

/// A piece of text in a contract: the characters of a `String` or `&str`.
pub type Text = Seq<char>;

/// The segments written one after the other, with `sep` between each two.
pub open spec fn join(segments: Seq<Text>, sep: char) -> Text
    decreases segments.len(),
{
    if segments.len() == 0 {
        Seq::empty()
    } else if segments.len() == 1 {
        segments[0]
    } else {
        join(segments.drop_last(), sep).push(sep) + segments.last()
    }
}

/// Joining one more segment adds the separator and the segment.
pub proof fn lemma_join_push(segments: Seq<Text>, sep: char, next: Text)
    requires
        segments.len() > 0,
    ensures
        join(segments.push(next), sep) == join(segments, sep).push(sep) + next,
{
    assert(segments.push(next).drop_last() =~= segments);
}

/// The character that stands for a single decimal digit.
pub open spec fn digit(d: nat) -> char
    recommends
        d < 10,
{
    if d == 0 {
        '0'
    } else if d == 1 {
        '1'
    } else if d == 2 {
        '2'
    } else if d == 3 {
        '3'
    } else if d == 4 {
        '4'
    } else if d == 5 {
        '5'
    } else if d == 6 {
        '6'
    } else if d == 7 {
        '7'
    } else if d == 8 {
        '8'
    } else {
        '9'
    }
}

/// The decimal notation of `n`: no sign, no leading zero but for zero itself.
pub open spec fn decimal(n: nat) -> Text
    decreases n,
{
    if n < 10 {
        seq![digit(n)]
    } else {
        decimal(n / 10).push(digit(n % 10))
    }
}

fn digit_str(d: u32) -> (s: &'static str)
    requires
        d < 10,
    ensures
        s@ == seq![digit(d as nat)],
{
    proof {
        reveal_strlit("0");
        reveal_strlit("1");
        reveal_strlit("2");
        reveal_strlit("3");
        reveal_strlit("4");
        reveal_strlit("5");
        reveal_strlit("6");
        reveal_strlit("7");
        reveal_strlit("8");
        reveal_strlit("9");
    }
    let s: &'static str = if d == 0 {
        "0"
    } else if d == 1 {
        "1"
    } else if d == 2 {
        "2"
    } else if d == 3 {
        "3"
    } else if d == 4 {
        "4"
    } else if d == 5 {
        "5"
    } else if d == 6 {
        "6"
    } else if d == 7 {
        "7"
    } else if d == 8 {
        "8"
    } else {
        "9"
    };
    assert(s@ =~= seq![digit(d as nat)]);
    s
}

/// Writes `n` in decimal notation.
pub fn decimal_string(n: u32) -> (s: String)
    ensures
        s@ == decimal(n as nat),
    decreases n,
{
    if n < 10 {
        String::from_str(digit_str(n))
    } else {
        let s = decimal_string(n / 10).concat(digit_str(n % 10));
        assert(s@ =~= decimal((n / 10) as nat).push(digit((n % 10) as nat)));
        s
    }
}

/// Adds one argument at the end of the list.
pub(crate) fn push_text(out: &mut Vec<String>, s: &str)
    ensures
        final(out).deep_view() == old(out).deep_view().push(s@),
{
    out.push(s.to_owned());
    assert(out.deep_view() =~= old(out).deep_view().push(s@));
}

/// Adds a copy of each of `items` at the end of the list, in order.
pub(crate) fn push_texts(out: &mut Vec<String>, items: &Vec<String>)
    ensures
        final(out).deep_view() == old(out).deep_view() + items.deep_view(),
{
    let mut i: usize = 0;
    assert(out.deep_view() =~= old(out).deep_view() + items.deep_view().take(0));
    while i < items.len()
        invariant
            i <= items.len(),
            out.deep_view() == old(out).deep_view() + items.deep_view().take(i as int),
        decreases items.len() - i,
    {
        let ghost before = out.deep_view();
        push_text(out, items[i].as_str());
        assert(out.deep_view() =~= old(out).deep_view() + items.deep_view().take(i + 1));
        i += 1;
    }
    assert(items.deep_view().take(i as int) =~= items.deep_view());
}

/// Moves `items` to the end of the list, in order.
pub(crate) fn append_texts(out: &mut Vec<String>, items: Vec<String>)
    ensures
        final(out).deep_view() == old(out).deep_view() + items.deep_view(),
{
    let ghost moved = items.deep_view();
    let mut items = items;
    out.append(&mut items);
    assert(out.deep_view() =~= old(out).deep_view() + moved);
}

/// Adds a copy of each of `items` at the end of the list, in order.
pub(crate) fn push_strs(out: &mut Vec<String>, items: &Vec<&str>)
    ensures
        final(out).deep_view() == old(out).deep_view() + items.deep_view(),
{
    let mut i: usize = 0;
    assert(out.deep_view() =~= old(out).deep_view() + items.deep_view().take(0));
    while i < items.len()
        invariant
            i <= items.len(),
            out.deep_view() == old(out).deep_view() + items.deep_view().take(i as int),
        decreases items.len() - i,
    {
        push_text(out, items[i]);
        assert(out.deep_view() =~= old(out).deep_view() + items.deep_view().take(i + 1));
        i += 1;
    }
    assert(items.deep_view().take(i as int) =~= items.deep_view());
}

} // verus!
