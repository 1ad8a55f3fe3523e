//! Quoting of arbitrary text for a POSIX shell.
//!
//! A path handed to `sh -c` as part of a script must come out of the shell's
//! word splitting as exactly one argument, whatever it holds: blanks, quotes,
//! dollar signs. The classic answer is to wrap the text in single quotes, and
//! to write every single quote inside it as `'\''` (close the quotes, an
//! escaped quote, open them again).

use vstd::prelude::*;

verus! {

/// `String::push` appends one character at the end of the string and leaves
/// the rest as it was.
pub assume_specification[ String::push ](s: &mut String, ch: char)
    ensures
        final(s)@ == old(s)@.push(ch),
;

/// What a single character becomes inside a single-quoted word.
pub open spec fn quoted_char(c: char) -> Seq<char> {
    if c == '\'' {
        seq!['\'', '\\', '\'', '\'']
    } else {
        seq![c]
    }
}

/// The inside of the quoted word: every character of `s`, in order, each
/// written as `quoted_char` says.
pub open spec fn quoted_body(s: Seq<char>) -> Seq<char>
    decreases s.len(),
{
    if s.len() == 0 {
        Seq::empty()
    } else {
        quoted_char(s[0]) + quoted_body(s.drop_first())
    }
}

/// The quoted word for `s`: an opening quote, the body, a closing quote.
pub open spec fn shell_quoted(s: Seq<char>) -> Seq<char> {
    seq!['\''] + quoted_body(s) + seq!['\'']
}

/// Puts `c` in front of a value that was read, if one was read.
pub open spec fn with_first(c: char, rest: Option<Seq<char>>) -> Option<Seq<char>> {
    match rest {
        Some(v) => Some(seq![c] + v),
        None => None,
    }
}

/// How a POSIX shell reads a word that is written with single-quoted
/// stretches and backslash escapes only.
///
/// `in_quotes` says whether the reader stands inside single quotes. Inside
/// them every character but the quote stands for itself. Outside them a
/// quote opens a stretch and a backslash makes the next character literal.
/// Any other character outside quotes could end the word or be expanded, so
/// the text is then not of the form described and the result is `None`; so
/// is it when the text ends inside quotes or right after a backslash.
pub open spec fn word_value_from(text: Seq<char>, in_quotes: bool) -> Option<Seq<char>>
    decreases text.len(),
{
    if text.len() == 0 {
        if in_quotes {
            None
        } else {
            Some(Seq::empty())
        }
    } else if in_quotes {
        if text[0] == '\'' {
            word_value_from(text.drop_first(), false)
        } else {
            with_first(text[0], word_value_from(text.drop_first(), true))
        }
    } else {
        if text[0] == '\'' {
            word_value_from(text.drop_first(), true)
        } else if text[0] == '\\' && text.len() >= 2 {
            with_first(text[1], word_value_from(text.skip(2), false))
        } else {
            None
        }
    }
}

/// The argument that a shell hands on for the word `text`, if `text` is one
/// word of single-quoted stretches and backslash escapes.
pub open spec fn word_value(text: Seq<char>) -> Option<Seq<char>> {
    word_value_from(text, false)
}

/// Appending one character to the text appends its quoted form to the body.
pub proof fn lemma_quoted_body_push(s: Seq<char>, c: char)
    ensures
        quoted_body(s.push(c)) == quoted_body(s) + quoted_char(c),
    decreases s.len(),
{
    if s.len() == 0 {
        assert(s.push(c).drop_first() =~= Seq::<char>::empty());
        assert(quoted_body(Seq::<char>::empty()) =~= Seq::<char>::empty());
        assert(quoted_body(s.push(c)) =~= quoted_char(c));
        assert(quoted_body(s) + quoted_char(c) =~= quoted_char(c));
    } else {
        assert(s.push(c).drop_first() =~= s.drop_first().push(c));
        lemma_quoted_body_push(s.drop_first(), c);
        assert(quoted_body(s.push(c)) =~= quoted_body(s) + quoted_char(c));
    }
}

/// Read from inside the quotes, the body of `s` followed by the closing
/// quote gives back `s`.
proof fn lemma_body_reads_back(s: Seq<char>)
    ensures
        word_value_from(quoted_body(s) + seq!['\''], true) == Some(s),
    decreases s.len(),
{
    let close = seq!['\''];
    if s.len() == 0 {
        let text = quoted_body(s) + close;
        assert(text =~= close);
        assert(text.drop_first() =~= Seq::<char>::empty());
        assert(word_value_from(text.drop_first(), false) == Some(Seq::<char>::empty()));
        assert(s =~= Seq::<char>::empty());
    } else {
        let rest = s.drop_first();
        let tail = quoted_body(rest) + close;
        lemma_body_reads_back(rest);
        let text = quoted_body(s) + close;
        if s[0] == '\'' {
            // ' \ ' ' tail
            assert(text =~= seq!['\'', '\\', '\'', '\''] + tail);
            let after_close = text.drop_first();
            assert(after_close =~= seq!['\\', '\'', '\''] + tail);
            let after_escape = after_close.skip(2);
            assert(after_escape =~= seq!['\''] + tail);
            assert(after_escape.drop_first() =~= tail);
            assert(word_value_from(after_escape, false) == Some(rest));
            assert(word_value_from(after_close, false) == with_first('\'', Some(rest)));
            assert(seq!['\''] + rest =~= s);
        } else {
            assert(text =~= seq![s[0]] + tail);
            assert(text.drop_first() =~= tail);
            assert(seq![s[0]] + rest =~= s);
        }
    }
}

/// Quoting is faithful: a shell reads the quoted form of any text as one
/// word, and the argument it hands on is that text, character for character.
pub proof fn lemma_quote_roundtrip(s: Seq<char>)
    ensures
        word_value(shell_quoted(s)) == Some(s),
{
    let text = shell_quoted(s);
    assert(text.drop_first() =~= quoted_body(s) + seq!['\'']);
    lemma_body_reads_back(s);
}

/// Two texts with the same quoted form are the same text.
pub proof fn lemma_quote_injective(a: Seq<char>, b: Seq<char>)
    requires
        shell_quoted(a) == shell_quoted(b),
    ensures
        a == b,
{
    lemma_quote_roundtrip(a);
    lemma_quote_roundtrip(b);
}

/// Appends the quoted form of `text` to `out`.
pub fn push_shell_quoted(out: &mut String, text: &str)
    ensures
        final(out)@ == old(out)@ + shell_quoted(text@),
{
    out.push('\'');
    for c in it: text.chars()
        invariant
            it.seq() == text@,
            out@ == old(out)@ + seq!['\''] + quoted_body(text@.take(it.index() as int)),
    {
        proof {
            lemma_quoted_body_push(text@.take(it.index() as int), c);
            assert(text@.take(it.index() as int).push(c) =~= text@.take(it.index() + 1));
        }
        if c == '\'' {
            out.push('\'');
            out.push('\\');
            out.push('\'');
            out.push('\'');
        } else {
            out.push(c);
        }
        assert(out@ =~= old(out)@ + seq!['\''] + quoted_body(text@.take(it.index() + 1)));
    }
    assert(text@.take(text@.len() as int) =~= text@);
    out.push('\'');
    assert(out@ =~= old(out)@ + shell_quoted(text@));
}

/// Quotes `text` for a POSIX shell.
pub fn shell_quote(text: &str) -> (quoted: String)
    ensures
        quoted@ == shell_quoted(text@),
{
    let mut out = String::new();
    push_shell_quoted(&mut out, text);
    assert(out@ =~= shell_quoted(text@));
    out
}

} // verus!
