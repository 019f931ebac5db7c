//! Building blocks for program text: joining, numbers and indentation.

use vstd::prelude::*;
use vstd::std_specs::iter::IteratorSpec;
use itertools::Itertools;

verus! {

/// The texts of a sequence of strings.
pub open spec fn views(items: Seq<String>) -> Seq<Seq<char>> {
    items.map_values(|s: String| s@)
}

/// The items in order, with `sep` between each two neighbours.
pub open spec fn joined(items: Seq<Seq<char>>, sep: Seq<char>) -> Seq<char>
    decreases items.len(),
{
    if items.len() == 0 {
        Seq::empty()
    } else if items.len() == 1 {
        items[0]
    } else {
        joined(items.drop_last(), sep) + sep + items.last()
    }
}

/// Joins the strings, with `sep` between each two neighbours.
pub fn join(items: &Vec<String>, sep: &str) -> (r: String)
    ensures
        r@ == joined(views(items@), sep@),
{
    let mut out = String::new();
    let mut i: usize = 0;
    while i < items.len()
        invariant
            0 <= i <= items.len(),
            out@ == joined(views(items@).take(i as int), sep@),
        decreases items.len() - i,
    {
        let ghost before = views(items@).take(i as int);
        let ghost after = views(items@).take(i + 1);
        assert(after.drop_last() =~= before);
        assert(after.last() == items@[i as int]@);
        if i > 0 {
            out.append(sep);
        }
        out.append(items[i].as_str());
        assert(out@ =~= joined(after, sep@));
        i += 1;
    }
    assert(views(items@).take(items.len() as int) =~= views(items@));
    out
}

/// Joins the strings with the iterator adaptor `Itertools::join`, which
/// writes the first item, and then for each further item the separator and
/// the item: the result is the items in order with `sep` between each two
/// neighbours, and the empty string where there is none.
#[verifier::external_body]
pub(crate) fn join_iter(items: &Vec<String>, sep: &str) -> (r: String)
    ensures
        r@ == joined(views(items@), sep@),
{
    items.iter().join(sep)
}

/// The character that stands for a digit.
pub open spec fn digit(d: nat) -> char {
    if d == 0 {
        '0'
    } else if d == 1 {
        '1'
    } else if d == 2 {
        '2'
    } else if d == 3 {
        '3'
    } else if d == 4 {
        '4'
    } else if d == 5 {
        '5'
    } else if d == 6 {
        '6'
    } else if d == 7 {
        '7'
    } else if d == 8 {
        '8'
    } else {
        '9'
    }
}

/// A number in decimal, without leading zeros.
pub open spec fn decimal(n: nat) -> Seq<char>
    decreases n,
{
    if n < 10 {
        seq![digit(n)]
    } else {
        decimal(n / 10).push(digit(n % 10))
    }
}

fn digit_str(d: usize) -> (r: &'static str)
    requires
        d < 10,
    ensures
        r@ == seq![digit(d as nat)],
{
    proof {
        reveal_strlit("0");
        reveal_strlit("1");
        reveal_strlit("2");
        reveal_strlit("3");
        reveal_strlit("4");
        reveal_strlit("5");
        reveal_strlit("6");
        reveal_strlit("7");
        reveal_strlit("8");
        reveal_strlit("9");
    }
    let r = if d == 0 {
        "0"
    } else if d == 1 {
        "1"
    } else if d == 2 {
        "2"
    } else if d == 3 {
        "3"
    } else if d == 4 {
        "4"
    } else if d == 5 {
        "5"
    } else if d == 6 {
        "6"
    } else if d == 7 {
        "7"
    } else if d == 8 {
        "8"
    } else {
        "9"
    };
    assert(r@ =~= seq![digit(d as nat)]);
    r
}

/// Appends a number in decimal to a string.
pub fn push_decimal(out: &mut String, n: usize)
    ensures
        final(out)@ == old(out)@ + decimal(n as nat),
    decreases n,
{
    if n >= 10 {
        push_decimal(out, n / 10);
    }
    out.append(digit_str(n % 10));
    assert(out@ =~= old(out)@ + decimal(n as nat));
}

/// Writes a number in decimal.
pub fn decimal_string(n: usize) -> (r: String)
    ensures
        r@ == decimal(n as nat),
{
    let mut out = String::new();
    push_decimal(&mut out, n);
    assert(out@ =~= decimal(n as nat));
    out
}

/// A run of `n` spaces.
pub open spec fn spaces(n: nat) -> Seq<char> {
    Seq::new(n, |i: int| ' ')
}

/// What the character at position `i` of `text` contributes to the indented
/// text: `n` spaces first where the character begins a line, then the
/// character itself.
pub open spec fn indented_piece(text: Seq<char>, n: nat, i: int) -> Seq<char> {
    if i == 0 || text[i - 1] == '\n' {
        spaces(n).push(text[i])
    } else {
        seq![text[i]]
    }
}

/// The first `upto` characters of `text`, each line moved right by `n` spaces.
pub open spec fn indented_upto(text: Seq<char>, n: nat, upto: nat) -> Seq<char>
    decreases upto,
{
    if upto == 0 {
        Seq::empty()
    } else {
        indented_upto(text, n, (upto - 1) as nat) + indented_piece(text, n, upto - 1)
    }
}

/// The text with each of its lines moved right by `n` spaces. A line ends
/// with a line break or with the text, and may be empty. A line break that
/// ends the text is dropped. The empty text has no line and stays empty.
pub open spec fn indented(text: Seq<char>, n: nat) -> Seq<char> {
    let all = indented_upto(text, n, text.len());
    if text.len() > 0 && text.last() == '\n' {
        all.drop_last()
    } else {
        all
    }
}

/// `String::push` appends the character to the end of the string.
pub assume_specification[ String::push ](s: &mut String, ch: char)
    ensures
        final(s)@ == old(s)@.push(ch),
;

/// Appends `n` spaces to a string.
pub fn push_spaces(out: &mut String, n: usize)
    ensures
        final(out)@ == old(out)@ + spaces(n as nat),
{
    let mut i: usize = 0;
    assert(out@ =~= old(out)@ + spaces(0));
    while i < n
        invariant
            0 <= i <= n,
            out@ == old(out)@ + spaces(i as nat),
        decreases n - i,
    {
        proof {
            reveal_strlit(" ");
        }
        out.append(" ");
        i += 1;
        assert(out@ =~= old(out)@ + spaces(i as nat));
    }
}

/// Moves each line of the text right by `width` spaces.
pub fn indent(s: String, width: usize) -> (r: String)
    ensures
        r@ == indented(s@, width as nat),
{
    let text = s.as_str();
    let mut chars = text.chars();
    let mut out = String::new();
    // A line break is written only when a character follows it.
    let mut pending_break = false;
    let mut at_line_start = true;
    let ghost mut i: nat = 0;
    loop
        invariant
            i <= text@.len(),
            chars.obeys_prophetic_iter_laws(),
            chars.remaining() == text@.skip(i as int),
            at_line_start == (i == 0 || text@[i - 1] == '\n'),
            pending_break == (i > 0 && text@[i - 1] == '\n'),
            indented_upto(text@, width as nat, i) == if pending_break {
                out@.push('\n')
            } else {
                out@
            },
        ensures
            i == text@.len(),
        decreases text@.len() - i,
    {
        let c = match chars.next() {
            Some(c) => c,
            None => {
                break ;
            },
        };
        assert(c == text@[i as int]);
        assert(text@.skip(i as int).drop_first() =~= text@.skip(i as int + 1));
        if pending_break {
            out.push('\n');
        }
        let ghost before = out@;
        assert(before == indented_upto(text@, width as nat, i));
        if at_line_start {
            push_spaces(&mut out, width);
        }
        if c == '\n' {
            pending_break = true;
        } else {
            out.push(c);
            pending_break = false;
        }
        at_line_start = c == '\n';
        proof {
            assert((if c == '\n' {
                out@.push('\n')
            } else {
                out@
            }) =~= before + indented_piece(text@, width as nat, i as int));
            i = i + 1;
        }
    }
    assert(out@ =~= indented(text@, width as nat));
    out
}

/// The texts of the strings that are present, in order.
pub open spec fn present(items: Seq<Option<String>>) -> Seq<Seq<char>>
    decreases items.len(),
{
    if items.len() == 0 {
        Seq::empty()
    } else {
        match items.last() {
            Some(s) => present(items.drop_last()).push(s@),
            None => present(items.drop_last()),
        }
    }
}

/// The strings that are present joined by `sep`, and nothing where none is present.
pub open spec fn joined_options(items: Seq<Option<String>>, sep: Seq<char>) -> Option<Seq<char>> {
    if present(items).len() == 0 {
        None
    } else {
        Some(joined(present(items), sep))
    }
}

/// Joins the strings that are present with `sep`; returns `None` where none is present.
pub fn join_options(sep: &str, items: Vec<Option<String>>) -> (r: Option<String>)
    ensures
        r is Some <==> joined_options(items@, sep@) is Some,
        r is Some ==> r->0@ == joined_options(items@, sep@)->0,
{
    let mut strings: Vec<String> = Vec::new();
    let mut i: usize = 0;
    while i < items.len()
        invariant
            0 <= i <= items.len(),
            views(strings@) == present(items@.take(i as int)),
        decreases items.len() - i,
    {
        assert(items@.take(i + 1).drop_last() =~= items@.take(i as int));
        assert(items@.take(i + 1).last() == items@[i as int]);
        match &items[i] {
            Some(s) => {
                let ghost before = strings@;
                strings.push(s.clone());
                assert(views(strings@) =~= views(before).push(s@));
            },
            None => {},
        }
        i += 1;
    }
    assert(items@.take(items.len() as int) =~= items@);
    if strings.len() == 0 {
        None
    } else {
        Some(join(&strings, sep))
    }
}

} // verus!
