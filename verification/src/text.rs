//! Small string helpers: comparison, character append, and the rewriting
//! of literal `\n` / `\t` escape sequences into real whitespace.

use vstd::prelude::*;
use vstd::string::StrSliceExecFns;

verus! {

/// Relies on `str`'s `PartialEq`: two string slices compare equal exactly
/// when their characters are equal.
#[verifier::external_body]
pub fn str_eq(a: &str, b: &str) -> (r: bool)
    ensures
        r == (a@ == b@),
{
    a == b
}

/// Relies on `String::push`: it appends the given character.
#[verifier::external_body]
pub fn push_char(s: &mut String, c: char)
    ensures
        final(s)@ == old(s)@.push(c),
{
    s.push(c);
}

/// The characters of `s` from position `i` on, with every literal
/// backslash-`n` pair turned into a newline and every literal
/// backslash-`t` pair turned into a tab.
pub open spec fn unescape_from(s: Seq<char>, i: int) -> Seq<char>
    decreases s.len() - i,
{
    if i < 0 || i >= s.len() {
        Seq::empty()
    } else if i + 1 < s.len() && s[i] == '\\' && s[i + 1] == 'n' {
        seq!['\n'] + unescape_from(s, i + 2)
    } else if i + 1 < s.len() && s[i] == '\\' && s[i + 1] == 't' {
        seq!['\t'] + unescape_from(s, i + 2)
    } else {
        seq![s[i]] + unescape_from(s, i + 1)
    }
}

/// `s` with literal `\n` and `\t` escape sequences rewritten to actual
/// newline and tab characters.
pub open spec fn unescaped(s: Seq<char>) -> Seq<char> {
    unescape_from(s, 0)
}

/// Rewrite literal `\n` and `\t` escape sequences in `s` to actual
/// newline and tab characters.
pub fn unescape(s: &str) -> (r: String)
    ensures
        r@ == unescaped(s@),
{
    let len = s.unicode_len();
    let mut out = String::new();
    let mut i: usize = 0;
    while i < len
        invariant
            len == s@.len(),
            i <= len,
            out@ + unescape_from(s@, i as int) == unescaped(s@),
        decreases len - i,
    {
        let ghost prev = out@;
        let c = s.get_char(i);
        if c == '\\' && i + 1 < len {
            let c2 = s.get_char(i + 1);
            if c2 == 'n' {
                push_char(&mut out, '\n');
                i = i + 2;
                proof {
                    assert(prev.push('\n') + unescape_from(s@, i as int) =~= prev + (seq!['\n']
                        + unescape_from(s@, i as int)));
                }
            } else if c2 == 't' {
                push_char(&mut out, '\t');
                i = i + 2;
                proof {
                    assert(prev.push('\t') + unescape_from(s@, i as int) =~= prev + (seq!['\t']
                        + unescape_from(s@, i as int)));
                }
            } else {
                push_char(&mut out, c);
                i = i + 1;
                proof {
                    assert(prev.push(c) + unescape_from(s@, i as int) =~= prev + (seq![c]
                        + unescape_from(s@, i as int)));
                }
            }
        } else {
            push_char(&mut out, c);
            i = i + 1;
            proof {
                assert(prev.push(c) + unescape_from(s@, i as int) =~= prev + (seq![c]
                    + unescape_from(s@, i as int)));
            }
        }
    }
    proof {
        assert(out@ + unescape_from(s@, len as int) =~= out@);
    }
    out
}

} // verus!
