//! Small helpers on text.

use vstd::prelude::*;
use vstd::string::{StrSliceExecFns, StringSliceAdditionalSpecFns};
use vstd::utf8::encode_utf8_decode_utf8;

verus! {

/// Whether two strings hold the same characters.
pub fn str_eq(a: &str, b: &str) -> (r: bool)
    ensures
        r == (a@ == b@),
{
    let x = a.as_bytes();
    let y = b.as_bytes();
    proof {
        encode_utf8_decode_utf8(a@);
        encode_utf8_decode_utf8(b@);
    }
    if x.len() != y.len() {
        return false;
    }
    let mut i: usize = 0;
    while i < x.len()
        invariant
            i <= x@.len(),
            x@.len() == y@.len(),
            x@ == a.spec_bytes(),
            y@ == b.spec_bytes(),
            x@.take(i as int) == y@.take(i as int),
        decreases x@.len() - i,
    {
        if x[i] != y[i] {
            return false;
        }
        assert(x@.take(i as int + 1) =~= x@.take(i as int).push(x@[i as int]));
        assert(y@.take(i as int + 1) =~= y@.take(i as int).push(y@[i as int]));
        i = i + 1;
    }
    assert(x@ =~= x@.take(i as int));
    assert(y@ =~= y@.take(i as int));
    true
}

/// Where the first line of a text ends: the place of its first line feed,
/// or the end of the text if it has none.
pub open spec fn line_end(text: Seq<char>) -> nat
    decreases text.len(),
{
    if text.len() == 0 {
        0
    } else if text[0] == '\n' {
        0
    } else {
        1 + line_end(text.drop_first())
    }
}

/// A line without the carriage return at its end, if it has one there.
pub open spec fn trim_cr(line: Seq<char>) -> Seq<char> {
    if line.len() > 0 && line.last() == '\r' {
        line.drop_last()
    } else {
        line
    }
}

/// The lines of a text. A line ends at a line feed, or at a carriage return
/// and a line feed; neither belongs to the line. The last line may lack its
/// ending, and is then taken as it stands. A text that ends with a line
/// ending has no empty line after it.
pub open spec fn lines_of(text: Seq<char>) -> Seq<Seq<char>>
    decreases text.len(),
{
    if text.len() == 0 {
        Seq::empty()
    } else if line_end(text) >= text.len() {
        seq![text]
    } else {
        seq![trim_cr(text.take(line_end(text) as int))] + lines_of(
            text.skip(line_end(text) as int + 1),
        )
    }
}

/// The first line ends at the first line feed.
pub proof fn lemma_line_end(text: Seq<char>, k: int)
    requires
        0 <= k <= text.len(),
        forall|j: int| 0 <= j < k ==> text[j] != '\n',
        k == text.len() || text[k] == '\n',
    ensures
        line_end(text) == k,
    decreases k,
{
    if k > 0 {
        let rest = text.drop_first();
        assert forall|j: int| 0 <= j < k - 1 implies rest[j] != '\n' by {
            assert(rest[j] == text[j + 1]);
        }
        lemma_line_end(rest, k - 1);
    }
}

/// The text of lines.
pub open spec fn lines_text(lines: Vec<String>) -> Seq<Seq<char>> {
    lines@.map_values(|s: String| s@)
}

/// What a regular expression finds in a line. The name stands for two calls
/// in a row, compiling the pattern and then searching the line: the error's
/// text where `regex::Regex::new` refuses the pattern; else nothing where
/// `Regex::captures` finds no match; else the groups of the leftmost match,
/// the whole match first, each with the text it took part in or none.
pub uninterp spec fn regex_captures(pattern: Seq<char>, line: Seq<char>) -> Result<
    Option<Seq<Option<Seq<char>>>>,
    Seq<char>,
>;

/// The text of one group of a match.
pub open spec fn group_text(group: Option<String>) -> Option<Seq<char>> {
    match group {
        Some(text) => Some(text@),
        None => None,
    }
}

/// The text of the groups of a match.
pub open spec fn groups_text(groups: Vec<Option<String>>) -> Seq<Option<Seq<char>>> {
    groups@.map_values(|g: Option<String>| group_text(g))
}

/// The text of what a search found.
pub open spec fn captures_text(found: Result<Option<Vec<Option<String>>>, String>) -> Result<
    Option<Seq<Option<Seq<char>>>>,
    Seq<char>,
> {
    match found {
        Ok(Some(groups)) => Ok(Some(groups_text(groups))),
        Ok(None) => Ok(None),
        Err(message) => Err(message@),
    }
}

/// Splits a text into its lines.
pub fn split_lines(text: &str) -> (lines: Vec<String>)
    ensures
        lines_text(lines) == lines_of(text@),
{
    broadcast use vstd::string::axiom_spec_iter;

    let mut lines: Vec<String> = Vec::new();
    let mut current = String::new();
    let mut held = false;
    let ghost mut start: int = 0;
    assert(text@.skip(0) =~= text@);
    assert(lines_text(lines) =~= Seq::empty());
    assert(text@.subrange(0, 0) =~= current@);
    for c in it: text.chars()
        invariant
            it.seq() == text@,
            0 <= start <= it.index() <= text@.len(),
            lines_text(lines) + lines_of(text@.skip(start)) == lines_of(text@),
            text@.subrange(start, it.index()) == current@ + (if held {
                seq!['\r']
            } else {
                Seq::empty()
            }),
            forall|k: int| start <= k < it.index() ==> text@[k] != '\n',
            !held && current@.len() > 0 ==> current@.last() != '\r',
    {
        let ghost i = it.index();
        let ghost before = lines_text(lines);
        let ghost rest = text@.skip(start);
        let ghost full = text@.subrange(start, i);
        assert(c == text@[i]);
        if c == '\n' {
            proof {
                assert forall|j: int| 0 <= j < i - start implies rest[j] != '\n' by {
                    assert(rest[j] == text@[start + j]);
                }
                lemma_line_end(rest, i - start);
                assert(rest.take(i - start) =~= full);
                assert(rest.skip(i - start + 1) =~= text@.skip(i + 1));
                if held {
                    assert(full.drop_last() =~= current@);
                } else {
                    assert(full =~= current@);
                }
                assert(trim_cr(full) == current@);
            }
            lines.push(current);
            current = String::new();
            held = false;
            proof {
                assert(lines_text(lines) =~= before.push(trim_cr(full)));
                assert(before.push(trim_cr(full)) + lines_of(text@.skip(i + 1)) =~= before + (
                seq![trim_cr(full)] + lines_of(text@.skip(i + 1))));
                start = i + 1;
                assert(text@.subrange(start, i + 1) =~= current@);
            }
        } else {
            if held {
                push_char(&mut current, '\r');
                held = false;
            }
            if c == '\r' {
                held = true;
            } else {
                push_char(&mut current, c);
            }
            proof {
                assert(text@.subrange(start, i + 1) =~= full.push(c));
                assert(text@.subrange(start, i + 1) =~= current@ + (if held {
                    seq!['\r']
                } else {
                    Seq::empty()
                }));
            }
        }
    }
    let ghost before = lines_text(lines);
    let ghost rest = text@.skip(start);
    proof {
        assert(rest =~= text@.subrange(start, text@.len() as int));
        assert forall|j: int| 0 <= j < rest.len() implies rest[j] != '\n' by {
            assert(rest[j] == text@[start + j]);
        }
        lemma_line_end(rest, rest.len() as int);
    }
    if held {
        push_char(&mut current, '\r');
    }
    assert(current@ =~= rest);
    if current.as_str().unicode_len() > 0 {
        lines.push(current);
        assert(lines_text(lines) =~= before + seq![rest]);
    } else {
        assert(before + Seq::<Seq<char>>::empty() =~= before);
    }
    lines
}

/// Compiles `pattern` with `regex::Regex::new` and searches `line` with
/// `Regex::captures`. A pattern that does not compile gives the text of the
/// compile error. A match gives its groups, read with `Captures::iter` and
/// `Match::as_str`. The result is named, not described.
#[verifier::external_body]
pub(crate) fn search(pattern: &str, line: &str) -> (found: Result<
    Option<Vec<Option<String>>>,
    String,
>)
    ensures
        captures_text(found) == regex_captures(pattern@, line@),
{
    match regex::Regex::new(pattern) {
        Ok(re) => Ok(
            re.captures(line).map(
                |found| found.iter().map(|group| group.map(|m| m.as_str().to_string())).collect(),
            ),
        ),
        Err(e) => Err(e.to_string()),
    }
}

/// Appends one character, with `String::push`: the text afterwards is the
/// text before with `c` at its end.
#[verifier::external_body]
pub(crate) fn push_char(s: &mut String, c: char)
    ensures
        final(s)@ == old(s)@.push(c),
{
    s.push(c)
}

/// The character that stands for a digit.
pub open spec fn digit_char(d: nat) -> char
    recommends
        d < 10,
{
    if d == 0 {
        '0'
    } else if d == 1 {
        '1'
    } else if d == 2 {
        '2'
    } else if d == 3 {
        '3'
    } else if d == 4 {
        '4'
    } else if d == 5 {
        '5'
    } else if d == 6 {
        '6'
    } else if d == 7 {
        '7'
    } else if d == 8 {
        '8'
    } else {
        '9'
    }
}

/// A number in decimal, without leading zeros.
pub open spec fn decimal_text(n: nat) -> Seq<char>
    decreases n,
{
    if n < 10 {
        seq![digit_char(n)]
    } else {
        decimal_text(n / 10).push(digit_char(n % 10))
    }
}

fn digit(d: u16) -> (c: char)
    requires
        d < 10,
    ensures
        c == digit_char(d as nat),
{
    if d == 0 {
        '0'
    } else if d == 1 {
        '1'
    } else if d == 2 {
        '2'
    } else if d == 3 {
        '3'
    } else if d == 4 {
        '4'
    } else if d == 5 {
        '5'
    } else if d == 6 {
        '6'
    } else if d == 7 {
        '7'
    } else if d == 8 {
        '8'
    } else {
        '9'
    }
}

/// Appends `n` in decimal to `s`.
pub fn push_decimal(s: &mut String, n: u16)
    ensures
        final(s)@ == old(s)@ + decimal_text(n as nat),
    decreases n,
{
    if n >= 10 {
        push_decimal(s, n / 10);
    }
    push_char(s, digit(n % 10));
    assert(s@ =~= old(s)@ + decimal_text(n as nat));
}

} // verus!
