//! Messages that the hosted page posts to the shell.
//!
//! A message is a string. Two words are understood, `close` and
//! `toggle_fullscreen`, each matched exactly and with regard to case once the
//! quote characters around the message are taken off. Every other message is
//! ignored. A second reading takes the message as a list of tokens separated
//! by a comma and a space, and understands only `close`, as first token.

use vstd::prelude::*;
use crate::text::{chars_of, decode_utf16, is_utf16, matches_at, utf16_decoded};

verus! {

/// What a message asks the shell to do.
#[derive(Clone, Copy, Debug, PartialEq, Eq, Structural)]
pub enum Command {
    /// End the program.
    Close,
    /// Enter or leave fullscreen.
    ToggleFullscreen,
    /// Nothing: the message is not understood.
    Ignore,
}

/// Why a message could not be read.
#[derive(Clone, Copy, Debug, PartialEq, Eq, Structural)]
pub enum MessageError {
    /// The code units of the message are not the UTF-16 form of any text.
    NotUtf16,
}

/// A set of characters that trimming takes off the ends of a string.
#[derive(Clone, Copy, Debug, PartialEq, Eq, Structural)]
pub enum CharClass {
    /// The double quote character.
    Quote,
    /// The characters with the Unicode property `White_Space`.
    Whitespace,
}

/// Whether `c` has the Unicode property `White_Space`.
pub open spec fn is_whitespace(c: char) -> bool {
    let v = c as u32;
    ||| 0x0009 <= v <= 0x000D
    ||| v == 0x0020
    ||| v == 0x0085
    ||| v == 0x00A0
    ||| v == 0x1680
    ||| 0x2000 <= v <= 0x200A
    ||| v == 0x2028
    ||| v == 0x2029
    ||| v == 0x202F
    ||| v == 0x205F
    ||| v == 0x3000
}

impl CharClass {
    /// Whether `c` belongs to the class.
    pub open spec fn contains(self, c: char) -> bool {
        match self {
            CharClass::Quote => c == '"',
            CharClass::Whitespace => is_whitespace(c),
        }
    }

    /// Tests whether `c` belongs to the class.
    pub fn has(&self, c: char) -> (b: bool)
        ensures
            b == self.contains(c),
    {
        match self {
            CharClass::Quote => c == '"',
            CharClass::Whitespace => {
                let v: u32 = c as u32;
                (0x0009 <= v && v <= 0x000D) || v == 0x0020 || v == 0x0085 || v == 0x00A0 || v
                    == 0x1680 || (0x2000 <= v && v <= 0x200A) || v == 0x2028 || v == 0x2029 || v
                    == 0x202F || v == 0x205F || v == 0x3000
            },
        }
    }
}

/// `s` without its leading characters of `class`.
pub open spec fn trim_start(s: Seq<char>, class: CharClass) -> Seq<char>
    decreases s.len(),
{
    if s.len() > 0 && class.contains(s[0]) {
        trim_start(s.drop_first(), class)
    } else {
        s
    }
}

/// `s` without its trailing characters of `class`.
pub open spec fn trim_end(s: Seq<char>, class: CharClass) -> Seq<char>
    decreases s.len(),
{
    if s.len() > 0 && class.contains(s.last()) {
        trim_end(s.drop_last(), class)
    } else {
        s
    }
}

/// `s` without the characters of `class` at either end.
pub open spec fn trim(s: Seq<char>, class: CharClass) -> Seq<char> {
    trim_end(trim_start(s, class), class)
}

/// `s` without the quote characters around it.
pub open spec fn trim_quotes(s: Seq<char>) -> Seq<char> {
    trim(s, CharClass::Quote)
}

/// `s` without the whitespace around it.
pub open spec fn trim_whitespace(s: Seq<char>) -> Seq<char> {
    trim(s, CharClass::Whitespace)
}

/// Whether a comma followed by a space stands at index `i` of `s`.
pub open spec fn separator_at(s: Seq<char>, i: int) -> bool {
    0 <= i && i + 1 < s.len() && s[i] == ',' && s[i + 1] == ' '
}

/// Whether the first separator of `s` stands at index `i`.
pub open spec fn first_separator_at(s: Seq<char>, i: int) -> bool {
    separator_at(s, i) && forall|j: int| 0 <= j < i ==> !separator_at(s, j)
}

/// The index at which the first token of `s` ends: that of the first
/// separator, or the length of `s` where it holds none.
pub open spec fn token_end(s: Seq<char>) -> int {
    if exists|i: int| first_separator_at(s, i) {
        choose|i: int| first_separator_at(s, i)
    } else {
        s.len() as int
    }
}

/// The part of `s` before its first separator; all of `s` where it holds
/// none.
pub open spec fn first_token(s: Seq<char>) -> Seq<char> {
    s.take(token_end(s))
}

/// The command that a message stands for.
pub open spec fn command_of(message: Seq<char>) -> Command {
    let word = trim_quotes(message);
    if word == "close"@ {
        Command::Close
    } else if word == "toggle_fullscreen"@ {
        Command::ToggleFullscreen
    } else {
        Command::Ignore
    }
}

/// The command that a message stands for when it is read as a list of
/// tokens: only the first token counts, and only `close` is understood.
pub open spec fn token_command_of(message: Seq<char>) -> Command {
    if trim_whitespace(first_token(message)) == "close"@ {
        Command::Close
    } else {
        Command::Ignore
    }
}

proof fn lemma_trim_start(s: Seq<char>, class: CharClass, i: int)
    requires
        0 <= i <= s.len(),
        forall|k: int| 0 <= k < i ==> class.contains(#[trigger] s[k]),
        i == s.len() || !class.contains(s[i]),
    ensures
        trim_start(s, class) == s.subrange(i, s.len() as int),
    decreases i,
{
    if i == 0 {
        assert(s.subrange(0, s.len() as int) =~= s);
    } else {
        let rest = s.drop_first();
        assert forall|k: int| 0 <= k < i - 1 implies class.contains(#[trigger] rest[k]) by {
            assert(rest[k] == s[k + 1]);
        }
        lemma_trim_start(rest, class, i - 1);
        assert(rest.subrange(i - 1, rest.len() as int) =~= s.subrange(i, s.len() as int));
    }
}

proof fn lemma_trim_end(s: Seq<char>, class: CharClass, j: int)
    requires
        0 <= j <= s.len(),
        forall|k: int| j <= k < s.len() ==> class.contains(#[trigger] s[k]),
        j == 0 || !class.contains(s[j - 1]),
    ensures
        trim_end(s, class) == s.subrange(0, j),
    decreases s.len() - j,
{
    if j == s.len() {
        assert(s.subrange(0, j) =~= s);
    } else {
        let rest = s.drop_last();
        lemma_trim_end(rest, class, j);
        assert(rest.subrange(0, j) =~= s.subrange(0, j));
    }
}

proof fn lemma_token_end(s: Seq<char>, n: int)
    requires
        0 <= n <= s.len(),
        forall|j: int| 0 <= j < n ==> !separator_at(s, j),
        n == s.len() || separator_at(s, n),
    ensures
        token_end(s) == n,
{
    if separator_at(s, n) {
        assert(first_separator_at(s, n));
        let i = choose|i: int| first_separator_at(s, i);
        assert(first_separator_at(s, i));
        if i < n {
            assert(!separator_at(s, i));
        }
        if n < i {
            assert(!separator_at(s, n));
        }
    } else {
        assert forall|i: int| !first_separator_at(s, i) by {
            if separator_at(s, i) {
                assert(i < n);
            }
        }
    }
}

/// Finds the part of `chars[from..to]` that is left when the characters of
/// `class` are taken off both ends.
fn trimmed_range(chars: &Vec<char>, from: usize, to: usize, class: CharClass) -> (r: (usize, usize))
    requires
        from <= to <= chars.len(),
    ensures
        from <= r.0 <= r.1 <= to,
        chars@.subrange(r.0 as int, r.1 as int) == trim(
            chars@.subrange(from as int, to as int),
            class,
        ),
{
    let ghost whole = chars@.subrange(from as int, to as int);
    let mut i: usize = from;
    while i < to && class.has(chars[i])
        invariant
            from <= i <= to <= chars.len(),
            forall|k: int| from <= k < i ==> class.contains(#[trigger] chars@[k]),
        decreases to - i,
    {
        i += 1;
    }
    let mut j: usize = to;
    while j > i && class.has(chars[j - 1])
        invariant
            i <= j <= to <= chars.len(),
            forall|k: int| j <= k < to ==> class.contains(#[trigger] chars@[k]),
        decreases j,
    {
        j -= 1;
    }
    proof {
        let tail = chars@.subrange(i as int, to as int);
        assert forall|k: int| 0 <= k < i - from implies class.contains(#[trigger] whole[k]) by {
            assert(whole[k] == chars@[from + k]);
        }
        lemma_trim_start(whole, class, i - from);
        assert(whole.subrange(i - from, whole.len() as int) =~= tail);
        assert forall|k: int| j - i <= k < tail.len() implies class.contains(#[trigger] tail[k]) by {
            assert(tail[k] == chars@[i + k]);
        }
        lemma_trim_end(tail, class, j - i);
        assert(tail.subrange(0, j - i) =~= chars@.subrange(i as int, j as int));
    }
    (i, j)
}

/// Tests whether `chars[from..to]` spells `word`.
fn range_is(chars: &Vec<char>, from: usize, to: usize, word: &str) -> (b: bool)
    requires
        from <= to <= chars.len(),
    ensures
        b == (chars@.subrange(from as int, to as int) == word@),
{
    let letters = chars_of(word);
    to - from == letters.len() && matches_at(chars, &letters, from)
}

/// Finds where the first token of `chars` ends.
fn find_token_end(chars: &Vec<char>) -> (n: usize)
    ensures
        n == token_end(chars@),
        n <= chars.len(),
{
    let mut i: usize = 0;
    while i < chars.len()
        invariant
            i <= chars.len(),
            forall|j: int| 0 <= j < i ==> !separator_at(chars@, j),
        decreases chars.len() - i,
    {
        if i + 1 < chars.len() && chars[i] == ',' && chars[i + 1] == ' ' {
            proof {
                lemma_token_end(chars@, i as int);
            }
            return i;
        }
        i += 1;
    }
    proof {
        lemma_token_end(chars@, i as int);
    }
    i
}

/// Reads a message from the page.
///
/// The quote characters around the message are taken off. What is left asks
/// to close if and only if it is exactly `close`, and to toggle fullscreen if
/// and only if it is exactly `toggle_fullscreen`.
pub fn parse_command(message: &str) -> (command: Command)
    ensures
        command == command_of(message@),
        command is Close <==> trim_quotes(message@) == "close"@,
        command is ToggleFullscreen <==> trim_quotes(message@) == "toggle_fullscreen"@,
{
    let chars = chars_of(message);
    assert(chars@.subrange(0, chars@.len() as int) =~= chars@);
    let (from, to) = trimmed_range(&chars, 0, chars.len(), CharClass::Quote);
    proof {
        reveal_strlit("close");
        reveal_strlit("toggle_fullscreen");
        assert("close"@.len() != "toggle_fullscreen"@.len());
    }
    if range_is(&chars, from, to, "close") {
        Command::Close
    } else if range_is(&chars, from, to, "toggle_fullscreen") {
        Command::ToggleFullscreen
    } else {
        Command::Ignore
    }
}

/// Reads a message from the page as it arrives, in UTF-16 code units
/// without a terminator.
///
/// Units that are no text are an error. Every text is read as
/// `parse_command` reads it.
pub fn decode_command(units: &[u16]) -> (result: Result<Command, MessageError>)
    ensures
        is_utf16(units@) ==> result == Ok::<Command, MessageError>(
            command_of(utf16_decoded(units@)),
        ),
        !is_utf16(units@) ==> result == Err::<Command, MessageError>(MessageError::NotUtf16),
{
    match decode_utf16(units) {
        Some(message) => Ok(parse_command(message.as_str())),
        None => Err(MessageError::NotUtf16),
    }
}

/// Reads a message from the page as a list of tokens separated by a comma
/// and a space.
///
/// Only the first token counts. With the whitespace around it taken off, it
/// asks to close if and only if it is exactly `close`. No other command is
/// understood in this reading.
pub fn parse_token_list(message: &str) -> (command: Command)
    ensures
        command == token_command_of(message@),
        command is Close <==> trim_whitespace(first_token(message@)) == "close"@,
        !(command is ToggleFullscreen),
{
    let chars = chars_of(message);
    let end = find_token_end(&chars);
    let (from, to) = trimmed_range(&chars, 0, end, CharClass::Whitespace);
    if range_is(&chars, from, to, "close") {
        Command::Close
    } else {
        Command::Ignore
    }
}

} // verus!
