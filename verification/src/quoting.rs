//! Quoting of argument words for a Unix shell.
//!
//! The quoting itself is done by the `shell-words` crate. This module states,
//! as plain functions on character sequences, what that crate produces, so
//! that the handlers built on it can say exactly which command line they form.

use vstd::prelude::*;

verus! {

/// The characters that force a word into quotes: those a Unix shell would
/// otherwise read as syntax.
pub open spec fn is_special(c: char) -> bool {
    ||| c == '\n'
    ||| c == '\''
    ||| c == '|'
    ||| c == '&'
    ||| c == ';'
    ||| c == '<'
    ||| c == '>'
    ||| c == '('
    ||| c == ')'
    ||| c == '$'
    ||| c == '`'
    ||| c == '\\'
    ||| c == '"'
    ||| c == ' '
    ||| c == '\t'
    ||| c == '*'
    ||| c == '?'
    ||| c == '['
    ||| c == '#'
    ||| c == '~'
    ||| c == '='
    ||| c == '%'
}

/// A word that can stand on a command line as it is: it is not empty and
/// holds no special character.
pub open spec fn is_plain(word: Seq<char>) -> bool {
    word.len() > 0 && forall|i: int| 0 <= i < word.len() ==> !is_special(#[trigger] word[i])
}

/// How one character is written between single quotes. A single quote cannot
/// appear there, so it closes the quotes, stands escaped by a backslash, and
/// opens them again; any other character stands for itself.
pub open spec fn escaped_char(c: char) -> Seq<char> {
    if c == '\'' {
        seq!['\'', '\\', '\'', '\'']
    } else {
        seq![c]
    }
}

/// The inside of a single-quoted word: each character written by
/// [`escaped_char`], in order.
pub open spec fn escaped(word: Seq<char>) -> Seq<char>
    decreases word.len(),
{
    if word.len() == 0 {
        Seq::empty()
    } else {
        escaped(word.drop_last()) + escaped_char(word.last())
    }
}

/// One word as it is written on the command line: unchanged if it is plain,
/// otherwise wrapped in single quotes around its escaped characters. The
/// empty word is written `''`.
pub open spec fn quoted(word: Seq<char>) -> Seq<char> {
    if is_plain(word) {
        word
    } else {
        seq!['\''] + escaped(word) + seq!['\'']
    }
}

/// The command-line text for a list of words: each word quoted, neighbours
/// separated by one space, nothing before the first or after the last. No
/// words give the empty text.
pub open spec fn joined(words: Seq<Seq<char>>) -> Seq<char>
    decreases words.len(),
{
    if words.len() == 0 {
        Seq::empty()
    } else if words.len() == 1 {
        quoted(words[0])
    } else {
        joined(words.drop_last()) + seq![' '] + quoted(words.last())
    }
}

/// A word without single quotes is its own escaped form: quoting such a word
/// only wraps it in single quotes.
pub proof fn lemma_escaped_without_quote(word: Seq<char>)
    requires
        forall|i: int| 0 <= i < word.len() ==> (#[trigger] word[i]) != '\'',
    ensures
        escaped(word) == word,
    decreases word.len(),
{
    if word.len() > 0 {
        lemma_escaped_without_quote(word.drop_last());
    }
}

/// Joins `words` with `shell_words::join`.
///
/// Trusted, not proved: the contract restates what `shell_words::join` and the
/// `quote` function it applies to every word compute. `quote` picks one of
/// three styles: a word that is not empty and holds no special character is
/// left alone, and the two quoting styles write the same text, namely the
/// word between single quotes with every single quote inside it spelled
/// `'\''`. `join` puts one space between the quoted words.
#[verifier::external_body]
pub(crate) fn join_words(words: &Vec<String>) -> (line: String)
    ensures
        line@ == joined(words.deep_view()),
{
    shell_words::join(words)
}

} // verus!
