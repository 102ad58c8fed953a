use vstd::prelude::*;

verus! {

/// What std's `Debug` formatting of a `str` produces for the characters `s`:
/// the text between double quotes, each character escaped as needed.
pub uninterp spec fn debug_quoted(s: Seq<char>) -> Seq<char>;

/// A character that `Debug` leaves alone: printable ASCII, space to tilde.
pub open spec fn is_plain_char(c: char) -> bool {
    ' ' <= c && c <= '~'
}

/// Text made of printable ASCII characters only.
pub open spec fn is_plain_text(s: Seq<char>) -> bool {
    forall|i: int| 0 <= i < s.len() ==> is_plain_char(#[trigger] s[i])
}

/// One character as it stands between the quotes: a double quote or a
/// backslash gets a backslash in front, any other character stays.
pub open spec fn escape_char(c: char) -> Seq<char> {
    if c == '"' || c == '\\' {
        seq!['\\', c]
    } else {
        seq![c]
    }
}

/// Each character of `s` escaped, in order.
pub open spec fn escape_text(s: Seq<char>) -> Seq<char>
    decreases s.len(),
{
    if s.len() == 0 {
        Seq::empty()
    } else {
        escape_char(s[0]) + escape_text(s.drop_first())
    }
}

/// `s` escaped and wrapped in double quotes.
pub open spec fn plain_quoted(s: Seq<char>) -> Seq<char> {
    seq!['"'] + escape_text(s) + seq!['"']
}

/// Reads the inside of a DOT quoted string: a backslash takes the character
/// after it literally; a bare double quote, or a backslash at the very end,
/// makes the text ill-formed.
pub open spec fn unescape_text(t: Seq<char>) -> Option<Seq<char>>
    decreases t.len(),
{
    if t.len() == 0 {
        Some(Seq::empty())
    } else if t[0] == '\\' {
        if t.len() < 2 {
            None
        } else {
            match unescape_text(t.subrange(2, t.len() as int)) {
                Some(rest) => Some(seq![t[1]] + rest),
                None => None,
            }
        }
    } else if t[0] == '"' {
        None
    } else {
        match unescape_text(t.drop_first()) {
            Some(rest) => Some(seq![t[0]] + rest),
            None => None,
        }
    }
}

/// Reads a DOT quoted string back: `None` unless `t` is a well-formed quoted
/// string, else the text it stands for.
pub open spec fn unquote(t: Seq<char>) -> Option<Seq<char>> {
    if t.len() >= 2 && t[0] == '"' && t[t.len() - 1] == '"' {
        unescape_text(t.subrange(1, t.len() - 1))
    } else {
        None
    }
}

/// Unescaping undoes escaping, for any text at all.
pub proof fn lemma_unescape_escape(s: Seq<char>)
    ensures
        unescape_text(escape_text(s)) == Some(s),
    decreases s.len(),
{
    if s.len() > 0 {
        let c = s[0];
        let rest = escape_text(s.drop_first());
        lemma_unescape_escape(s.drop_first());
        let t = escape_char(c) + rest;
        assert(escape_text(s) == t);
        if c == '"' || c == '\\' {
            assert(t.subrange(2, t.len() as int) =~= rest);
        } else {
            assert(t.drop_first() =~= rest);
        }
        assert(seq![c] + s.drop_first() =~= s);
    }
}

/// A quoted string reads back as the text it was made from, and is
/// well-formed DOT: no double quote inside stands without a backslash.
pub proof fn lemma_unquote_plain_quoted(s: Seq<char>)
    ensures
        unquote(plain_quoted(s)) == Some(s),
{
    let t = plain_quoted(s);
    assert(t.subrange(1, t.len() - 1) =~= escape_text(s));
    lemma_unescape_escape(s);
}

/// Relies on std's `Debug` for `str`: the text in double quotes, where
/// printable ASCII is escaped only for a double quote or a backslash.
#[verifier::external_body]
fn debug_quote(s: &str) -> (r: String)
    ensures
        r@ == debug_quoted(s@),
        is_plain_text(s@) ==> r@ == plain_quoted(s@),
{
    format!("{:?}", s)
}

/// Renders `s` as a DOT quoted string. Text of printable ASCII reads back
/// unchanged through `unquote`.
pub fn quote(s: &str) -> (r: String)
    ensures
        r@ == debug_quoted(s@),
        is_plain_text(s@) ==> r@ == plain_quoted(s@),
        is_plain_text(s@) ==> unquote(r@) == Some(s@),
{
    let r = debug_quote(s);
    proof {
        lemma_unquote_plain_quoted(s@);
    }
    r
}

} // verus!
