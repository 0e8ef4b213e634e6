use vstd::prelude::*;

use crate::error::Error;
use crate::strutil::{push_char, str_chars};

verus! {

/// Where the shell-word tokenizer stands while scanning a command line,
/// following the word-splitting rules of the POSIX shell with expansions
/// limited to quote removal.
#[derive(Debug, Clone, Copy, PartialEq, Eq, Structural)]
pub enum SplitState {
    /// Between words.
    Delimiter,
    /// After a backslash, before a word has started.
    Backslash,
    /// Inside an unquoted word.
    Unquoted,
    /// After a backslash inside an unquoted word.
    UnquotedBackslash,
    /// Inside a single-quoted word.
    SingleQuoted,
    /// Inside a double-quoted word.
    DoubleQuoted,
    /// After a backslash inside a double-quoted word.
    DoubleQuotedBackslash,
    /// Inside a comment, which runs to the end of the line.
    Comment,
}

/// The words the tokenizer emits from here on, given the input left to
/// scan, the state it stands in, the word collected so far and the words
/// already emitted; or nothing when a quote is left unmatched.
pub open spec fn spec_split_from(
    s: Seq<char>,
    state: SplitState,
    word: Seq<char>,
    words: Seq<Seq<char>>,
) -> Option<Seq<Seq<char>>>
    decreases s.len(),
{
    if s.len() == 0 {
        match state {
            SplitState::Delimiter => Some(words),
            SplitState::Comment => Some(words),
            SplitState::Backslash => Some(words.push(word.push('\\'))),
            SplitState::UnquotedBackslash => Some(words.push(word.push('\\'))),
            SplitState::Unquoted => Some(words.push(word)),
            SplitState::SingleQuoted => None,
            SplitState::DoubleQuoted => None,
            SplitState::DoubleQuotedBackslash => None,
        }
    } else {
        let c = s[0];
        let rest = s.drop_first();
        match state {
            SplitState::Delimiter => match c {
                '\'' => spec_split_from(rest, SplitState::SingleQuoted, word, words),
                '"' => spec_split_from(rest, SplitState::DoubleQuoted, word, words),
                '\\' => spec_split_from(rest, SplitState::Backslash, word, words),
                '\t' | ' ' | '\n' => spec_split_from(rest, SplitState::Delimiter, word, words),
                '#' => spec_split_from(rest, SplitState::Comment, word, words),
                _ => spec_split_from(rest, SplitState::Unquoted, word.push(c), words),
            },
            SplitState::Backslash => match c {
                '\n' => spec_split_from(rest, SplitState::Delimiter, word, words),
                _ => spec_split_from(rest, SplitState::Unquoted, word.push(c), words),
            },
            SplitState::Unquoted => match c {
                '\'' => spec_split_from(rest, SplitState::SingleQuoted, word, words),
                '"' => spec_split_from(rest, SplitState::DoubleQuoted, word, words),
                '\\' => spec_split_from(rest, SplitState::UnquotedBackslash, word, words),
                '\t' | ' ' | '\n' => spec_split_from(
                    rest,
                    SplitState::Delimiter,
                    Seq::<char>::empty(),
                    words.push(word),
                ),
                _ => spec_split_from(rest, SplitState::Unquoted, word.push(c), words),
            },
            SplitState::UnquotedBackslash => match c {
                '\n' => spec_split_from(rest, SplitState::Unquoted, word, words),
                _ => spec_split_from(rest, SplitState::Unquoted, word.push(c), words),
            },
            SplitState::SingleQuoted => match c {
                '\'' => spec_split_from(rest, SplitState::Unquoted, word, words),
                _ => spec_split_from(rest, SplitState::SingleQuoted, word.push(c), words),
            },
            SplitState::DoubleQuoted => match c {
                '"' => spec_split_from(rest, SplitState::Unquoted, word, words),
                '\\' => spec_split_from(rest, SplitState::DoubleQuotedBackslash, word, words),
                _ => spec_split_from(rest, SplitState::DoubleQuoted, word.push(c), words),
            },
            SplitState::DoubleQuotedBackslash => match c {
                '\n' => spec_split_from(rest, SplitState::DoubleQuoted, word, words),
                '$' | '`' | '"' | '\\' => spec_split_from(
                    rest,
                    SplitState::DoubleQuoted,
                    word.push(c),
                    words,
                ),
                _ => spec_split_from(
                    rest,
                    SplitState::DoubleQuoted,
                    word.push('\\').push(c),
                    words,
                ),
            },
            SplitState::Comment => match c {
                '\n' => spec_split_from(rest, SplitState::Delimiter, word, words),
                _ => spec_split_from(rest, SplitState::Comment, word, words),
            },
        }
    }
}

/// The shell-word splitting of a command line: its words after quote
/// removal, or nothing when a quote is left unmatched.
pub open spec fn spec_shell_split(s: Seq<char>) -> Option<Seq<Seq<char>>> {
    spec_split_from(s, SplitState::Delimiter, Seq::<char>::empty(), Seq::<Seq<char>>::empty())
}

/// Splits a command line into words the way the POSIX shell would, with
/// word expansions limited to quote removal: quoted text keeps its spaces,
/// backslashes escape, `#` starts a comment. A quoted value that contains
/// spaces therefore survives as one word. An unmatched quote is refused.
pub fn split(s: &str) -> (r: Result<Vec<String>, Error>)
    ensures
        match spec_shell_split(s@) {
            Some(ws) => r matches Ok(v) && v.deep_view() == ws,
            None => r == Err::<Vec<String>, Error>(Error::InvalidBuildOptions),
        },
{
    let chars: Vec<char> = str_chars(s);
    let mut state: SplitState = SplitState::Delimiter;
    let mut word: String = String::new();
    let mut words: Vec<String> = Vec::new();
    let mut i: usize = 0;
    proof {
        assert(chars@.skip(0) =~= chars@);
        assert(words.deep_view() =~= Seq::<Seq<char>>::empty());
    }
    while i < chars.len()
        invariant
            0 <= i <= chars@.len(),
            chars@ == s@,
            spec_split_from(chars@.skip(i as int), state, word@, words.deep_view())
                == spec_shell_split(s@),
        decreases chars@.len() - i,
    {
        let ghost pre_words = words.deep_view();
        proof {
            assert(chars@.skip(i as int)[0] == chars@[i as int]);
            assert(chars@.skip(i as int).drop_first() =~= chars@.skip(i as int + 1));
        }
        let c: char = chars[i];
        match state {
            SplitState::Delimiter => match c {
                '\'' => {
                    state = SplitState::SingleQuoted;
                },
                '"' => {
                    state = SplitState::DoubleQuoted;
                },
                '\\' => {
                    state = SplitState::Backslash;
                },
                '\t' | ' ' | '\n' => {
                    state = SplitState::Delimiter;
                },
                '#' => {
                    state = SplitState::Comment;
                },
                _ => {
                    push_char(&mut word, c);
                    state = SplitState::Unquoted;
                },
            },
            SplitState::Backslash => match c {
                '\n' => {
                    state = SplitState::Delimiter;
                },
                _ => {
                    push_char(&mut word, c);
                    state = SplitState::Unquoted;
                },
            },
            SplitState::Unquoted => match c {
                '\'' => {
                    state = SplitState::SingleQuoted;
                },
                '"' => {
                    state = SplitState::DoubleQuoted;
                },
                '\\' => {
                    state = SplitState::UnquotedBackslash;
                },
                '\t' | ' ' | '\n' => {
                    let ghost old_word = word@;
                    words.push(word);
                    word = String::new();
                    state = SplitState::Delimiter;
                    proof {
                        assert(words.deep_view() =~= pre_words.push(old_word));
                    }
                },
                _ => {
                    push_char(&mut word, c);
                    state = SplitState::Unquoted;
                },
            },
            SplitState::UnquotedBackslash => match c {
                '\n' => {
                    state = SplitState::Unquoted;
                },
                _ => {
                    push_char(&mut word, c);
                    state = SplitState::Unquoted;
                },
            },
            SplitState::SingleQuoted => match c {
                '\'' => {
                    state = SplitState::Unquoted;
                },
                _ => {
                    push_char(&mut word, c);
                    state = SplitState::SingleQuoted;
                },
            },
            SplitState::DoubleQuoted => match c {
                '"' => {
                    state = SplitState::Unquoted;
                },
                '\\' => {
                    state = SplitState::DoubleQuotedBackslash;
                },
                _ => {
                    push_char(&mut word, c);
                    state = SplitState::DoubleQuoted;
                },
            },
            SplitState::DoubleQuotedBackslash => match c {
                '\n' => {
                    state = SplitState::DoubleQuoted;
                },
                '$' | '`' | '"' | '\\' => {
                    push_char(&mut word, c);
                    state = SplitState::DoubleQuoted;
                },
                _ => {
                    push_char(&mut word, '\\');
                    push_char(&mut word, c);
                    state = SplitState::DoubleQuoted;
                },
            },
            SplitState::Comment => match c {
                '\n' => {
                    state = SplitState::Delimiter;
                },
                _ => {
                    state = SplitState::Comment;
                },
            },
        }
        i = i + 1;
    }
    match state {
        SplitState::Delimiter | SplitState::Comment => Ok(words),
        SplitState::Backslash | SplitState::UnquotedBackslash => {
            push_char(&mut word, '\\');
            let ghost pre_words = words.deep_view();
            words.push(word);
            proof {
                assert(words.deep_view() =~= pre_words.push(words@[words@.len() - 1]@));
            }
            Ok(words)
        },
        SplitState::Unquoted => {
            let ghost pre_words = words.deep_view();
            words.push(word);
            proof {
                assert(words.deep_view() =~= pre_words.push(words@[words@.len() - 1]@));
            }
            Ok(words)
        },
        SplitState::SingleQuoted
        | SplitState::DoubleQuoted
        | SplitState::DoubleQuotedBackslash => Err(Error::InvalidBuildOptions),
    }
}

} // verus!
