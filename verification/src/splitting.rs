//! How a Unix shell splits a command line into words.
//!
//! This is the reading side of quoting. Nothing here runs: the module defines
//! what splitting means, so that the quoting side can be proved against it.
//! Blanks separate words; single quotes, double quotes and backslashes take
//! away the special meaning of what they enclose or precede; an unquoted `#`
//! at the start of a word opens a comment that runs to the end of the line.
//! No expansion of any kind is performed and operators are ordinary
//! characters.

use vstd::prelude::*;

verus! {

/// Where the splitter stands between two characters.
pub enum Mode {
    /// Between words.
    Delimiter,
    /// After a backslash met between words.
    Backslash,
    /// Inside a word, outside any quotes.
    Unquoted,
    /// After a backslash inside an unquoted stretch of a word.
    UnquotedBackslash,
    /// Between single quotes.
    SingleQuoted,
    /// Between double quotes.
    DoubleQuoted,
    /// After a backslash between double quotes.
    DoubleQuotedBackslash,
    /// Inside a comment.
    Comment,
}

/// The splitter's state: its mode, the words completed so far, and the
/// characters gathered for the word in progress.
pub struct Scan {
    pub mode: Mode,
    pub words: Seq<Seq<char>>,
    pub word: Seq<char>,
}

/// The characters that separate words.
pub open spec fn is_blank(c: char) -> bool {
    c == ' ' || c == '\t' || c == '\n'
}

/// The state before the first character.
pub open spec fn start() -> Scan {
    Scan { mode: Mode::Delimiter, words: Seq::empty(), word: Seq::empty() }
}

/// The state `s` with `c` added to the word in progress, in mode `mode`.
pub open spec fn gather(s: Scan, mode: Mode, c: char) -> Scan {
    Scan { mode, words: s.words, word: s.word.push(c) }
}

/// The state `s` moved to mode `mode`, nothing gathered.
pub open spec fn turn(s: Scan, mode: Mode) -> Scan {
    Scan { mode, words: s.words, word: s.word }
}

/// The state after reading the character `c` in state `s`.
pub open spec fn step(s: Scan, c: char) -> Scan {
    match s.mode {
        Mode::Delimiter => {
            if c == '\'' {
                turn(s, Mode::SingleQuoted)
            } else if c == '"' {
                turn(s, Mode::DoubleQuoted)
            } else if c == '\\' {
                turn(s, Mode::Backslash)
            } else if is_blank(c) {
                s
            } else if c == '#' {
                turn(s, Mode::Comment)
            } else {
                gather(s, Mode::Unquoted, c)
            }
        },
        Mode::Backslash => {
            if c == '\n' {
                turn(s, Mode::Delimiter)
            } else {
                gather(s, Mode::Unquoted, c)
            }
        },
        Mode::Unquoted => {
            if c == '\'' {
                turn(s, Mode::SingleQuoted)
            } else if c == '"' {
                turn(s, Mode::DoubleQuoted)
            } else if c == '\\' {
                turn(s, Mode::UnquotedBackslash)
            } else if is_blank(c) {
                Scan { mode: Mode::Delimiter, words: s.words.push(s.word), word: Seq::empty() }
            } else {
                gather(s, Mode::Unquoted, c)
            }
        },
        Mode::UnquotedBackslash => {
            if c == '\n' {
                turn(s, Mode::Unquoted)
            } else {
                gather(s, Mode::Unquoted, c)
            }
        },
        Mode::SingleQuoted => {
            if c == '\'' {
                turn(s, Mode::Unquoted)
            } else {
                gather(s, Mode::SingleQuoted, c)
            }
        },
        Mode::DoubleQuoted => {
            if c == '"' {
                turn(s, Mode::Unquoted)
            } else if c == '\\' {
                turn(s, Mode::DoubleQuotedBackslash)
            } else {
                gather(s, Mode::DoubleQuoted, c)
            }
        },
        Mode::DoubleQuotedBackslash => {
            if c == '\n' {
                turn(s, Mode::DoubleQuoted)
            } else if c == '$' || c == '`' || c == '"' || c == '\\' {
                gather(s, Mode::DoubleQuoted, c)
            } else {
                gather(gather(s, Mode::DoubleQuoted, '\\'), Mode::DoubleQuoted, c)
            }
        },
        Mode::Comment => {
            if c == '\n' {
                turn(s, Mode::Delimiter)
            } else {
                s
            }
        },
    }
}

/// The state after reading all of `text`, from state `s`.
pub open spec fn scan(s: Scan, text: Seq<char>) -> Scan
    decreases text.len(),
{
    if text.len() == 0 {
        s
    } else {
        step(scan(s, text.drop_last()), text.last())
    }
}

/// The words the splitter hands out when the text ends in state `s`, or
/// `None` when it ends inside quotes. A trailing backslash stands for itself.
pub open spec fn finish(s: Scan) -> Option<Seq<Seq<char>>> {
    match s.mode {
        Mode::Delimiter | Mode::Comment => Some(s.words),
        Mode::Unquoted => Some(s.words.push(s.word)),
        Mode::Backslash | Mode::UnquotedBackslash => Some(s.words.push(s.word.push('\\'))),
        Mode::SingleQuoted | Mode::DoubleQuoted | Mode::DoubleQuotedBackslash => None,
    }
}

/// The words of the command line `text`, or `None` when a quote in it is
/// never closed.
pub open spec fn split_words(text: Seq<char>) -> Option<Seq<Seq<char>>> {
    finish(scan(start(), text))
}

} // verus!
