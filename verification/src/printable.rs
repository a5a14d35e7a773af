//! Texts that can be laid out in a table.
//!
//! The width of a cell is measured without the escape sequences in it. That works only where
//! every escape character belongs to a sequence that is complete.

use vstd::prelude::*;
use vstd::string::StrSliceExecFns;

verus! {

/// A set of characters.
#[derive(Clone, Copy, Debug, PartialEq, Eq, Structural)]
pub enum CharClass {
    /// The digits and separators of the parameters of a control sequence.
    Parameter,
    /// What can stand before the last character of a sequence.
    Intermediate,
    /// What a command to the operating system can hold: no control characters.
    Command,
    /// What the other control strings can hold: the characters of ASCII that can be seen, and
    /// the space.
    Visible,
}

impl CharClass {
    /// Whether a character is in the set.
    pub open spec fn holds(self, c: char) -> bool {
        match self {
            CharClass::Parameter => '0' <= c <= ';',
            CharClass::Intermediate => ' ' <= c <= '/',
            CharClass::Command => ' ' <= c && c != '\x7f',
            CharClass::Visible => ' ' <= c <= '~',
        }
    }

    fn contains(self, c: char) -> (res: bool)
        ensures
            res == self.holds(c),
    {
        match self {
            CharClass::Parameter => '0' <= c && c <= ';',
            CharClass::Intermediate => ' ' <= c && c <= '/',
            CharClass::Command => ' ' <= c && c != '\x7f',
            CharClass::Visible => ' ' <= c && c <= '~',
        }
    }
}

/// The first position from `from` on that holds no character of the set, or the end.
pub open spec fn run_end(text: Seq<char>, from: int, class: CharClass) -> int
    decreases text.len() - from,
{
    if 0 <= from < text.len() && class.holds(text[from]) {
        run_end(text, from + 1, class)
    } else {
        from
    }
}

/// How many separators of parameters a text holds from `from` to before `to`.
pub open spec fn separators(text: Seq<char>, from: int, to: int) -> nat
    decreases to - from,
{
    if from < to {
        separators(text, from, to - 1) + (if text[to - 1] == ';' || text[to - 1] == ':' {
            1nat
        } else {
            0
        })
    } else {
        0
    }
}

/// Whether a character marks the parameters of a control sequence as private.
pub open spec fn is_private_mark(c: char) -> bool {
    '<' <= c <= '?'
}

/// Whether a control sequence continues at `from` and comes to its end: a private mark or
/// none, at most 32 parameters, an intermediate or none, not both a mark and an intermediate,
/// and a final character.
pub open spec fn control_completed(text: Seq<char>, from: int) -> bool {
    let marks: int = if from < text.len() && is_private_mark(text[from]) {
        1
    } else {
        0
    };
    let parameters = run_end(text, from + marks, CharClass::Parameter);
    let end = run_end(text, parameters, CharClass::Intermediate);
    &&& separators(text, from + marks, parameters) < 32
    &&& marks + (end - parameters) <= 1
    &&& end < text.len()
    &&& '@' <= text[end] <= '~'
}

/// Whether the terminator of control strings stands at `at`: an escape character and `\`.
pub open spec fn terminator_at(text: Seq<char>, at: int) -> bool {
    at + 1 < text.len() && text[at] == '\x1b' && text[at + 1] == '\\'
}

/// Whether a command to the operating system continues at `from` and comes to its end, with the
/// bell or the terminator.
pub open spec fn command_completed(text: Seq<char>, from: int) -> bool {
    let end = run_end(text, from, CharClass::Command);
    end < text.len() && text[end] == '\x07' || terminator_at(text, end)
}

/// Whether a plain escape sequence continues at `from` and comes to its end: intermediates, and
/// a final character.
pub open spec fn plain_completed(text: Seq<char>, from: int) -> bool {
    let end = run_end(text, from, CharClass::Intermediate);
    end < text.len() && '0' <= text[end] <= '~'
}

/// Whether an escape sequence begins with the escape character before `from` and comes to its
/// end.
pub open spec fn sequence_completed(text: Seq<char>, from: int) -> bool {
    if from >= text.len() {
        false
    } else if text[from] == '[' {
        control_completed(text, from + 1)
    } else if text[from] == ']' {
        command_completed(text, from + 1)
    } else if text[from] == 'P' || text[from] == 'X' || text[from] == '^' || text[from] == '_' {
        terminator_at(text, run_end(text, from + 1, CharClass::Visible))
    } else {
        plain_completed(text, from)
    }
}

/// Whether every escape character of a text begins a complete escape sequence.
pub open spec fn printable(text: Seq<char>) -> bool {
    forall|i: int|
        0 <= i < text.len() && #[trigger] text[i] == '\x1b' ==> sequence_completed(text, i + 1)
}

fn find_run_end(text: &str, from: usize, class: CharClass) -> (res: usize)
    requires
        from <= text@.len(),
    ensures
        res == run_end(text@, from as int, class),
        from <= res <= text@.len(),
{
    let len: usize = text.unicode_len();
    let mut at: usize = from;
    while at < len && class.contains(text.get_char(at))
        invariant
            len == text@.len(),
            from <= at <= len,
            run_end(text@, from as int, class) == run_end(text@, at as int, class),
        decreases len - at,
    {
        at = at + 1;
    }
    at
}

fn count_separators(text: &str, from: usize, to: usize) -> (res: usize)
    requires
        from <= to <= text@.len(),
    ensures
        res == separators(text@, from as int, to as int),
{
    let mut count: usize = 0;
    for at in from..to
        invariant
            to <= text@.len(),
            count == separators(text@, from as int, at as int),
            count <= at - from,
    {
        let c = text.get_char(at);
        if c == ';' || c == ':' {
            count = count + 1;
        }
    }
    count
}

fn is_control_completed(text: &str, from: usize) -> (res: bool)
    requires
        from <= text@.len(),
    ensures
        res == control_completed(text@, from as int),
{
    let len: usize = text.unicode_len();
    let marks: usize = if from < len && '<' <= text.get_char(from) && text.get_char(from) <= '?' {
        1
    } else {
        0
    };
    let parameters = find_run_end(text, from + marks, CharClass::Parameter);
    let end = find_run_end(text, parameters, CharClass::Intermediate);
    let intermediates: usize = end - parameters;
    count_separators(text, from + marks, parameters) < 32 && intermediates <= 1 - marks && end < len
        && '@' <= text.get_char(end) && text.get_char(end) <= '~'
}

fn is_terminator_at(text: &str, at: usize) -> (res: bool)
    requires
        at <= text@.len(),
    ensures
        res == terminator_at(text@, at as int),
{
    let len: usize = text.unicode_len();
    len - at > 1 && text.get_char(at) == '\x1b' && text.get_char(at + 1) == '\\'
}

fn is_sequence_completed(text: &str, from: usize) -> (res: bool)
    requires
        from <= text@.len(),
    ensures
        res == sequence_completed(text@, from as int),
{
    let len: usize = text.unicode_len();
    if from >= len {
        return false;
    }
    let c = text.get_char(from);
    if c == '[' {
        is_control_completed(text, from + 1)
    } else if c == ']' {
        let end = find_run_end(text, from + 1, CharClass::Command);
        (end < len && text.get_char(end) == '\x07') || is_terminator_at(text, end)
    } else if c == 'P' || c == 'X' || c == '^' || c == '_' {
        let end = find_run_end(text, from + 1, CharClass::Visible);
        is_terminator_at(text, end)
    } else {
        let end = find_run_end(text, from, CharClass::Intermediate);
        end < len && '0' <= text.get_char(end) && text.get_char(end) <= '~'
    }
}

/// Whether every escape character of `text` begins a complete escape sequence.
pub fn is_printable(text: &str) -> (res: bool)
    ensures
        res == printable(text@),
{
    let len: usize = text.unicode_len();
    for i in 0..len
        invariant
            len == text@.len(),
            forall|j: int|
                0 <= j < i && #[trigger] text@[j] == '\x1b' ==> sequence_completed(text@, j + 1),
    {
        if text.get_char(i) == '\x1b' && !is_sequence_completed(text, i + 1) {
            assert(text@[i as int] == '\x1b');
            return false;
        }
    }
    true
}

/// A text without escape characters is printable.
pub proof fn plain_text_is_printable(text: Seq<char>)
    requires
        !text.contains('\x1b'),
    ensures
        printable(text),
{
}

} // verus!
