//! Joining is undone by splitting: the words a shell reads from a joined
//! command line are the words that were joined.

use vstd::prelude::*;
use crate::launcher::launch_line;
use crate::quoting::{escaped, escaped_char, is_plain, is_special, joined, quoted};
use crate::splitting::{scan, split_words, start, step, turn, Mode, Scan};

verus! {

/// Reading `a` and then `b` is reading `a + b`.
pub proof fn lemma_scan_concat(s: Scan, a: Seq<char>, b: Seq<char>)
    ensures
        scan(s, a + b) == scan(scan(s, a), b),
    decreases b.len(),
{
    if b.len() > 0 {
        assert((a + b).drop_last() =~= a + b.drop_last());
        lemma_scan_concat(s, a, b.drop_last());
    }
}

/// Reading one more character is one more step.
proof fn lemma_scan_push(s: Scan, text: Seq<char>, c: char)
    ensures
        scan(s, text.push(c)) == step(scan(s, text), c),
{
    assert(text.push(c).drop_last() =~= text);
}

/// Characters that are not special are gathered as they are, between words
/// and inside an unquoted word alike.
proof fn lemma_scan_plain(s: Scan, word: Seq<char>)
    requires
        s.mode is Delimiter || s.mode is Unquoted,
        word.len() > 0,
        forall|i: int| 0 <= i < word.len() ==> !is_special(#[trigger] word[i]),
    ensures
        scan(s, word) == (Scan { mode: Mode::Unquoted, words: s.words, word: s.word + word }),
    decreases word.len(),
{
    let front = word.drop_last();
    let c = word.last();
    if front.len() == 0 {
        assert(scan(s, front) == s);
        assert(s.word.push(c) =~= s.word + word);
    } else {
        lemma_scan_plain(s, front);
        assert((s.word + front).push(c) =~= s.word + word);
    }
}

/// Between single quotes, the escaped form of a word gathers the word.
proof fn lemma_scan_escaped(s: Scan, word: Seq<char>)
    requires
        s.mode is SingleQuoted,
    ensures
        scan(s, escaped(word)) == (Scan {
            mode: Mode::SingleQuoted,
            words: s.words,
            word: s.word + word,
        }),
    decreases word.len(),
{
    if word.len() > 0 {
        let front = word.drop_last();
        let c = word.last();
        lemma_scan_escaped(s, front);
        lemma_scan_concat(s, escaped(front), escaped_char(c));
        let mid = scan(s, escaped(front));
        if c == '\'' {
            let e0 = Seq::<char>::empty();
            let e1 = e0.push('\'');
            let e2 = e1.push('\\');
            let e3 = e2.push('\'');
            let e4 = e3.push('\'');
            assert(escaped_char(c) =~= e4);
            lemma_scan_push(mid, e0, '\'');
            lemma_scan_push(mid, e1, '\\');
            lemma_scan_push(mid, e2, '\'');
            lemma_scan_push(mid, e3, '\'');
        } else {
            lemma_scan_push(mid, Seq::<char>::empty(), c);
        }
        assert((s.word + front).push(c) =~= s.word + word);
    }
}

/// Read between words, a quoted word leaves the splitter inside a word that
/// holds exactly the word that was quoted.
proof fn lemma_scan_quoted(s: Scan, word: Seq<char>)
    requires
        s.mode is Delimiter,
    ensures
        scan(s, quoted(word)) == (Scan { mode: Mode::Unquoted, words: s.words, word: s.word + word }),
{
    if is_plain(word) {
        lemma_scan_plain(s, word);
    } else {
        let open = seq!['\''];
        let opened = turn(s, Mode::SingleQuoted);
        lemma_scan_push(s, Seq::<char>::empty(), '\'');
        lemma_scan_concat(s, open, escaped(word));
        lemma_scan_escaped(opened, word);
        lemma_scan_push(s, open + escaped(word), '\'');
        assert(quoted(word) =~= (open + escaped(word)).push('\''));
    }
}

/// Read between words, a joined list leaves the splitter inside the last
/// word of the list, the words before it completed in order.
proof fn lemma_scan_joined(s: Scan, words: Seq<Seq<char>>)
    requires
        s.mode is Delimiter,
        s.word.len() == 0,
        words.len() > 0,
    ensures
        scan(s, joined(words)) == (Scan {
            mode: Mode::Unquoted,
            words: s.words + words.drop_last(),
            word: words.last(),
        }),
    decreases words.len(),
{
    if words.len() == 1 {
        lemma_scan_quoted(s, words[0]);
    } else {
        let front = words.drop_last();
        lemma_scan_joined(s, front);
        let inside = scan(s, joined(front));
        let between = Scan {
            mode: Mode::Delimiter,
            words: inside.words.push(inside.word),
            word: Seq::empty(),
        };
        lemma_scan_push(s, joined(front), ' ');
        assert(joined(front) + seq![' '] =~= joined(front).push(' '));
        lemma_scan_concat(s, joined(front) + seq![' '], quoted(words.last()));
        lemma_scan_quoted(between, words.last());
        assert(between.words =~= s.words + front);
    }
}

/// Splitting a joined command line gives back the words that were joined,
/// whatever they hold: blanks, quotes, backslashes, or nothing at all.
pub proof fn lemma_split_joined(words: Seq<Seq<char>>)
    ensures
        split_words(joined(words)) == Some(words),
{
    if words.len() > 0 {
        lemma_scan_joined(start(), words);
    }
}

/// Between words nothing is gathered: from the start, the splitter holds an
/// empty word in progress whenever it is outside a word.
proof fn lemma_no_word_between(text: Seq<char>)
    ensures
        ({
            let s = scan(start(), text);
            s.mode is Delimiter || s.mode is Backslash || s.mode is Comment ==> s.word.len() == 0
        }),
    decreases text.len(),
{
    if text.len() > 0 {
        lemma_no_word_between(text.drop_last());
    }
}

/// A command text that further words can follow: read from the start, it
/// ends between words or inside an unquoted word, not inside quotes, after a
/// backslash or inside a comment.
pub open spec fn ends_in_the_open(cmd: Seq<char>) -> bool {
    scan(start(), cmd).mode is Delimiter || scan(start(), cmd).mode is Unquoted
}

/// The shell reads a launch line as the command's own words followed by the
/// arguments, each argument one word, provided the command text ends in the
/// open. The command text is passed to the shell as given, so a command that
/// ends inside quotes, after a backslash or inside a comment is outside this
/// promise.
pub proof fn lemma_launch_line_words(cmd: Seq<char>, args: Seq<Seq<char>>)
    requires
        ends_in_the_open(cmd),
    ensures
        split_words(cmd) is Some,
        split_words(launch_line(cmd, args)) == Some(split_words(cmd).unwrap() + args),
{
    let at_end = scan(start(), cmd);
    let own = split_words(cmd).unwrap();
    let between = Scan { mode: Mode::Delimiter, words: own, word: Seq::empty() };
    lemma_no_word_between(cmd);
    lemma_scan_push(start(), cmd, ' ');
    assert(cmd + seq![' '] =~= cmd.push(' '));
    assert(scan(start(), cmd + seq![' ']) == between) by {
        if at_end.mode is Delimiter {
            assert(at_end.word =~= Seq::<char>::empty());
        }
    }
    lemma_scan_concat(start(), cmd + seq![' '], joined(args));
    if args.len() > 0 {
        lemma_scan_joined(between, args);
    }
}

} // verus!
