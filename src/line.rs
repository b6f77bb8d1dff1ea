//! Turning a line read from an input stream into a prompt value.

use vstd::prelude::*;
use vstd::string::*;

verus! {

/// `s` without one trailing line terminator, `"\n"` or `"\r\n"`, if it has one.
pub open spec fn without_terminator(s: Seq<char>) -> Seq<char> {
    if s.len() > 0 && s.last() == '\n' {
        let t = s.drop_last();
        if t.len() > 0 && t.last() == '\r' {
            t.drop_last()
        } else {
            t
        }
    } else {
        s
    }
}

/// Whether `s` is a single line: it holds no line-break character.
pub open spec fn is_single_line(s: Seq<char>) -> bool {
    forall|i: int| 0 <= i < s.len() ==> s[i] != '\n' && s[i] != '\r'
}

/// Removes one trailing `"\n"` or `"\r\n"` from a line read from input.
pub fn strip_line_terminator(line: &str) -> (r: String)
    ensures
        r@ == without_terminator(line@),
{
    let n = line.unicode_len();
    if n > 0 && line.get_char(n - 1) == '\n' {
        if n > 1 && line.get_char(n - 2) == '\r' {
            line.substring_char(0, n - 2).to_owned()
        } else {
            line.substring_char(0, n - 1).to_owned()
        }
    } else {
        line.to_owned()
    }
}

/// A single line read with or without its terminator comes back as itself.
pub proof fn lemma_single_line_round_trip(s: Seq<char>)
    requires
        is_single_line(s),
    ensures
        without_terminator(s) == s,
        without_terminator(s.push('\n')) == s,
        without_terminator(s + seq!['\r', '\n']) == s,
{
    assert(s.push('\n').drop_last() =~= s);
    let t = s + seq!['\r', '\n'];
    assert(t.drop_last() =~= s.push('\r'));
    assert(s.push('\r').drop_last() =~= s);
    if s.len() > 0 {
        assert(s[s.len() - 1] != '\n');
    }
}

} // verus!
