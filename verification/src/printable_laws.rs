//! What holds of every text with escape sequences.

use crate::printable::{
    command_completed, control_completed, is_private_mark, plain_completed, printable, run_end,
    separators, sequence_completed, terminator_at, CharClass,
};
use vstd::prelude::*;

verus! {

/// The sets of characters: digits and separators; the space and the signs before the digits; all
/// but control characters; and the space and the visible characters of ASCII.
pub proof fn classes_hold_these_characters(c: char)
    ensures
        CharClass::Parameter.holds(c) <==> '0' <= c <= '9' || c == ':' || c == ';',
        CharClass::Intermediate.holds(c) <==> 0x20 <= c as u32 <= 0x2f,
        CharClass::Command.holds(c) <==> c as u32 >= 0x20 && c as u32 != 0x7f,
        CharClass::Visible.holds(c) <==> 0x20 <= c as u32 <= 0x7e,
        is_private_mark(c) <==> c == '<' || c == '=' || c == '>' || c == '?',
{
}

/// A run of characters of a set goes on as far as the characters are in the set, and no further.
pub proof fn run_ends_with_the_class(text: Seq<char>, from: int, class: CharClass)
    requires
        0 <= from <= text.len(),
    ensures
        from <= run_end(text, from, class) <= text.len(),
        forall|i: int| from <= i < run_end(text, from, class) ==> class.holds(#[trigger] text[i]),
        run_end(text, from, class) < text.len() ==> !class.holds(
            text[run_end(text, from, class)],
        ),
    decreases text.len() - from,
{
    if from < text.len() && class.holds(text[from]) {
        run_ends_with_the_class(text, from + 1, class);
    }
}

/// A run ends where it is seen to end.
proof fn run_ends_at(text: Seq<char>, from: int, end: int, class: CharClass)
    requires
        0 <= from <= end < text.len(),
        forall|i: int| from <= i < end ==> class.holds(#[trigger] text[i]),
        !class.holds(text[end]),
    ensures
        run_end(text, from, class) == end,
{
    run_ends_with_the_class(text, from, class);
    let found = run_end(text, from, class);
    if found < end {
        assert(class.holds(text[found]));
    }
}

/// Each semicolon and each colon separates parameters, and nothing else does.
pub proof fn separators_are_counted(text: Seq<char>, from: int, to: int)
    requires
        from <= to,
    ensures
        separators(text, from, from) == 0,
        text[to] == ';' || text[to] == ':' ==> separators(text, from, to + 1) == separators(
            text,
            from,
            to,
        ) + 1,
        text[to] != ';' && text[to] != ':' ==> separators(text, from, to + 1) == separators(
            text,
            from,
            to,
        ),
{
}

/// A control sequence is complete if its parameters, fewer than 33 of them, are followed by an
/// intermediate or none, and that by a final character; and one that is marked as private if
/// its parameters are followed by the final character.
pub proof fn control_sequence_is_complete(text: Seq<char>, from: int, parameters: int, end: int)
    requires
        0 <= from <= parameters <= end < text.len(),
        '@' <= text[end] <= '~',
    ensures
        end <= parameters + 1 && (end > parameters ==> CharClass::Intermediate.holds(
            text[parameters],
        )) && (forall|i: int|
            from <= i < parameters ==> CharClass::Parameter.holds(#[trigger] text[i])) && separators(
            text,
            from,
            parameters,
        ) < 32 ==> control_completed(text, from),
        end == parameters && from < parameters && is_private_mark(text[from]) && (forall|i: int|
            from < i < parameters ==> CharClass::Parameter.holds(#[trigger] text[i])) && separators(
            text,
            from + 1,
            parameters,
        ) < 32 ==> control_completed(text, from),
{
    if end <= parameters + 1 && (end > parameters ==> CharClass::Intermediate.holds(
        text[parameters],
    )) && (forall|i: int|
        from <= i < parameters ==> CharClass::Parameter.holds(#[trigger] text[i])) {
        assert(!is_private_mark(text[from]));
        run_ends_at(text, from, parameters, CharClass::Parameter);
        run_ends_at(text, parameters, end, CharClass::Intermediate);
    }
    if end == parameters && from < parameters && is_private_mark(text[from]) && (forall|i: int|
        from < i < parameters ==> CharClass::Parameter.holds(#[trigger] text[i])) {
        run_ends_at(text, from + 1, parameters, CharClass::Parameter);
        run_ends_at(text, parameters, end, CharClass::Intermediate);
    }
}

/// A control sequence that is complete comes to a final character, with nothing but parameters,
/// a mark and an intermediate before it.
pub proof fn complete_control_sequence_ends(text: Seq<char>, from: int) -> (end: int)
    requires
        0 <= from <= text.len(),
        control_completed(text, from),
    ensures
        from <= end < text.len(),
        '@' <= text[end] <= '~',
        forall|i: int| from <= i < end ==> ' ' <= #[trigger] text[i] <= '?',
{
    let marks: int = if from < text.len() && is_private_mark(text[from]) {
        1
    } else {
        0
    };
    run_ends_with_the_class(text, from + marks, CharClass::Parameter);
    let parameters = run_end(text, from + marks, CharClass::Parameter);
    run_ends_with_the_class(text, parameters, CharClass::Intermediate);
    run_end(text, parameters, CharClass::Intermediate)
}

/// A command to the operating system is complete if the bell or the terminator ends it before
/// any other control character, and only then.
pub proof fn command_is_complete(text: Seq<char>, from: int)
    requires
        0 <= from <= text.len(),
    ensures
        command_completed(text, from) <==> exists|end: int|
            #![trigger text[end]]
            {
                &&& from <= end < text.len()
                &&& forall|i: int| from <= i < end ==> CharClass::Command.holds(#[trigger] text[i])
                &&& text[end] == '\x07' || (text[end] == '\x1b' && end + 1 < text.len() && text[end
                    + 1] == '\\')
            },
{
    run_ends_with_the_class(text, from, CharClass::Command);
    let found = run_end(text, from, CharClass::Command);
    if command_completed(text, from) {
        assert(text[found] == '\x07' || text[found] == '\x1b');
    }
    if exists|end: int|
        #![trigger text[end]]
        {
            &&& from <= end < text.len()
            &&& forall|i: int| from <= i < end ==> CharClass::Command.holds(#[trigger] text[i])
            &&& text[end] == '\x07' || (text[end] == '\x1b' && end + 1 < text.len() && text[end
                + 1] == '\\')
        } {
        let end = choose|end: int|
            #![trigger text[end]]
            {
                &&& from <= end < text.len()
                &&& forall|i: int| from <= i < end ==> CharClass::Command.holds(#[trigger] text[i])
                &&& text[end] == '\x07' || (text[end] == '\x1b' && end + 1 < text.len() && text[end
                    + 1] == '\\')
            };
        run_ends_at(text, from, end, CharClass::Command);
    }
}

/// A plain escape sequence is complete if intermediates are followed by a final character, and
/// only then.
pub proof fn plain_sequence_is_complete(text: Seq<char>, from: int)
    requires
        0 <= from <= text.len(),
    ensures
        plain_completed(text, from) <==> exists|end: int|
            #![trigger text[end]]
            {
                &&& from <= end < text.len()
                &&& forall|i: int| from <= i < end ==> ' ' <= #[trigger] text[i] <= '/'
                &&& '0' <= text[end] <= '~'
            },
{
    run_ends_with_the_class(text, from, CharClass::Intermediate);
    let found = run_end(text, from, CharClass::Intermediate);
    if plain_completed(text, from) {
        assert('0' <= text[found] <= '~');
        assert forall|i: int| from <= i < found implies ' ' <= #[trigger] text[i] <= '/' by {
            assert(CharClass::Intermediate.holds(text[i]));
        }
    }
    if exists|end: int|
        #![trigger text[end]]
        {
            &&& from <= end < text.len()
            &&& forall|i: int| from <= i < end ==> ' ' <= #[trigger] text[i] <= '/'
            &&& '0' <= text[end] <= '~'
        } {
        let end = choose|end: int|
            #![trigger text[end]]
            {
                &&& from <= end < text.len()
                &&& forall|i: int| from <= i < end ==> ' ' <= #[trigger] text[i] <= '/'
                &&& '0' <= text[end] <= '~'
            };
        run_ends_at(text, from, end, CharClass::Intermediate);
    }
}

/// What follows the escape character decides what the sequence is: a bracket begins a control
/// sequence, the other bracket a command to the operating system, four other characters a
/// control string that the terminator ends, and anything else a plain sequence.
pub proof fn introducer_decides(text: Seq<char>, from: int)
    requires
        0 <= from <= text.len(),
    ensures
        from == text.len() ==> !sequence_completed(text, from),
        from < text.len() && text[from] == '[' ==> sequence_completed(text, from)
            == control_completed(text, from + 1),
        from < text.len() && text[from] == ']' ==> sequence_completed(text, from)
            == command_completed(text, from + 1),
        from < text.len() && (text[from] == 'P' || text[from] == 'X' || text[from] == '^'
            || text[from] == '_') ==> (sequence_completed(text, from) <==> terminator_at(
            text,
            run_end(text, from + 1, CharClass::Visible),
        )),
        from < text.len() && text[from] != '[' && text[from] != ']' && text[from] != 'P'
            && text[from] != 'X' && text[from] != '^' && text[from] != '_' ==> sequence_completed(
            text,
            from,
        ) == plain_completed(text, from),
        terminator_at(text, from) <==> from + 1 < text.len() && text[from] == '\x1b' && text[from
            + 1] == '\\',
{
}

/// A text is printable exactly if each of its escape characters begins a complete sequence.
pub proof fn every_escape_character_counts(text: Seq<char>, i: int)
    requires
        0 <= i < text.len(),
        text[i] == '\x1b',
    ensures
        printable(text) ==> sequence_completed(text, i + 1),
        !sequence_completed(text, i + 1) ==> !printable(text),
        i == text.len() - 1 ==> !printable(text),
{
}

proof fn run_goes_on_alike(text: Seq<char>, more: Seq<char>, from: int, class: CharClass)
    requires
        0 <= from <= text.len(),
        run_end(text, from, class) < text.len(),
    ensures
        run_end(text + more, from, class) == run_end(text, from, class),
{
    run_ends_with_the_class(text, from, class);
    let end = run_end(text, from, class);
    let longer = text + more;
    assert forall|i: int| from <= i < end implies class.holds(#[trigger] longer[i]) by {
        assert(longer[i] == text[i]);
    }
    run_ends_at(longer, from, end, class);
}

proof fn separators_count_alike(text: Seq<char>, more: Seq<char>, from: int, to: int)
    requires
        0 <= from,
        to <= text.len(),
    ensures
        separators(text + more, from, to) == separators(text, from, to),
    decreases to - from,
{
    if from < to {
        separators_count_alike(text, more, from, to - 1);
    }
}

/// A sequence that is complete stays complete, whatever follows.
pub proof fn complete_sequence_stays_complete(text: Seq<char>, more: Seq<char>, from: int)
    requires
        0 <= from <= text.len(),
        sequence_completed(text, from),
    ensures
        sequence_completed(text + more, from),
{
    let longer = text + more;
    let start = from + 1;
    if text[from] == '[' {
        let marks: int = if start < text.len() && is_private_mark(text[start]) {
            1
        } else {
            0
        };
        run_ends_with_the_class(text, start + marks, CharClass::Parameter);
        let parameters = run_end(text, start + marks, CharClass::Parameter);
        run_ends_with_the_class(text, parameters, CharClass::Intermediate);
        run_goes_on_alike(text, more, start + marks, CharClass::Parameter);
        run_goes_on_alike(text, more, parameters, CharClass::Intermediate);
        separators_count_alike(text, more, start + marks, parameters);
    } else if text[from] == ']' {
        run_ends_with_the_class(text, start, CharClass::Command);
        run_goes_on_alike(text, more, start, CharClass::Command);
    } else if text[from] == 'P' || text[from] == 'X' || text[from] == '^' || text[from] == '_' {
        run_ends_with_the_class(text, start, CharClass::Visible);
        run_goes_on_alike(text, more, start, CharClass::Visible);
    } else {
        run_ends_with_the_class(text, from, CharClass::Intermediate);
        run_goes_on_alike(text, more, from, CharClass::Intermediate);
    }
}

proof fn run_is_the_same_behind(text: Seq<char>, more: Seq<char>, from: int, class: CharClass)
    requires
        0 <= from <= more.len(),
    ensures
        run_end(text + more, text.len() + from, class) == text.len() + run_end(more, from, class),
    decreases more.len() - from,
{
    let longer = text + more;
    if from < more.len() {
        assert(longer[text.len() + from] == more[from]);
        if class.holds(more[from]) {
            run_is_the_same_behind(text, more, from + 1, class);
        }
    }
}

proof fn separators_are_the_same_behind(text: Seq<char>, more: Seq<char>, from: int, to: int)
    requires
        0 <= from,
        to <= more.len(),
    ensures
        separators(text + more, text.len() + from, text.len() + to) == separators(more, from, to),
    decreases to - from,
{
    if from < to {
        separators_are_the_same_behind(text, more, from, to - 1);
        assert((text + more)[text.len() + (to - 1)] == more[to - 1]);
    }
}

proof fn sequence_is_complete_behind(text: Seq<char>, more: Seq<char>, from: int)
    requires
        0 <= from <= more.len(),
        sequence_completed(more, from),
    ensures
        sequence_completed(text + more, text.len() + from),
{
    let longer = text + more;
    let n = text.len() as int;
    let start = from + 1;
    assert(longer[n + from] == more[from]);
    if more[from] == '[' {
        let marks: int = if start < more.len() && is_private_mark(more[start]) {
            1
        } else {
            0
        };
        if start < more.len() {
            assert(longer[n + start] == more[start]);
        }
        run_ends_with_the_class(more, start + marks, CharClass::Parameter);
        let parameters = run_end(more, start + marks, CharClass::Parameter);
        run_ends_with_the_class(more, parameters, CharClass::Intermediate);
        run_is_the_same_behind(text, more, start + marks, CharClass::Parameter);
        run_is_the_same_behind(text, more, parameters, CharClass::Intermediate);
        separators_are_the_same_behind(text, more, start + marks, parameters);
    } else if more[from] == ']' {
        run_ends_with_the_class(more, start, CharClass::Command);
        run_is_the_same_behind(text, more, start, CharClass::Command);
    } else if more[from] == 'P' || more[from] == 'X' || more[from] == '^' || more[from] == '_' {
        run_ends_with_the_class(more, start, CharClass::Visible);
        run_is_the_same_behind(text, more, start, CharClass::Visible);
    } else {
        run_ends_with_the_class(more, from, CharClass::Intermediate);
        run_is_the_same_behind(text, more, from, CharClass::Intermediate);
    }
}

/// Two printable texts make a printable text.
pub proof fn printable_texts_can_be_joined(text: Seq<char>, more: Seq<char>)
    requires
        printable(text),
        printable(more),
    ensures
        printable(text + more),
{
    let longer = text + more;
    assert forall|i: int| 0 <= i < longer.len() && #[trigger] longer[i] == '\x1b' implies
        sequence_completed(longer, i + 1) by {
        if i < text.len() {
            assert(text[i] == '\x1b');
            complete_sequence_stays_complete(text, more, i + 1);
        } else {
            assert(more[i - text.len()] == '\x1b');
            sequence_is_complete_behind(text, more, i - text.len() + 1);
        }
    }
}

} // verus!
