//! Lines of the runtime log: one line per entry, bounded, and tagged with its subsystem.

use crate::text;
use crate::text::{chars_of, decimal_text, is_ascii_alphanumeric, text_of};
use vstd::prelude::*;
use vstd::string::*;

verus! {

broadcast use vstd::string::group_string_axioms;

/// How many characters of a message one entry holds.
pub const RUNTIME_LOG_MESSAGE_MAX_CHARS: usize = 16384;

/// How many characters of a subsystem's name one entry holds.
pub const RUNTIME_LOG_SUBSYSTEM_MAX_CHARS: usize = 32;

/// The characters that the name of a subsystem keeps.
pub open spec fn subsystem_char(c: char) -> bool {
    text::ascii_alphanumeric(c) || c == '_' || c == '-'
}

/// The smaller of two numbers.
pub open spec fn at_most(number: nat, bound: int) -> int {
    if number <= bound {
        number as int
    } else {
        bound
    }
}

/// The name of a subsystem as the log shows it: at most so many of its letters, digits,
/// underscores and hyphens, or `runtime` where none is left.
pub open spec fn shown_subsystem(subsystem: Seq<char>) -> Seq<char> {
    let kept = subsystem.filter(|c: char| subsystem_char(c));
    if kept.len() == 0 {
        "runtime"@
    } else {
        kept.take(at_most(kept.len(), RUNTIME_LOG_SUBSYSTEM_MAX_CHARS as int))
    }
}

/// The name of a subsystem as the log shows it.
pub fn sanitize_log_subsystem(subsystem: &str) -> (result: String)
    ensures
        result@ == shown_subsystem(subsystem@),
{
    let chars = chars_of(subsystem);
    let mut kept: Vec<char> = Vec::new();
    let mut i: usize = 0;
    proof {
        reveal(Seq::filter);
        assert(subsystem@.take(0).filter(|c: char| subsystem_char(c)) == Seq::<char>::empty());
    }
    while i < chars.len()
        invariant
            chars@ == subsystem@,
            i <= chars.len(),
            kept@ == subsystem@.take(i as int).filter(|c: char| subsystem_char(c)),
        decreases chars.len() - i,
    {
        proof {
            reveal(Seq::filter);
            assert(subsystem@.take(i + 1).drop_last() == subsystem@.take(i as int));
        }
        let c: char = chars[i];
        if is_ascii_alphanumeric(c) || c == '_' || c == '-' {
            kept.push(c);
        }
        i += 1;
    }
    proof {
        assert(subsystem@.take(subsystem@.len() as int) == subsystem@);
    }
    if kept.len() == 0 {
        return "runtime".to_owned();
    }
    if kept.len() > RUNTIME_LOG_SUBSYSTEM_MAX_CHARS {
        kept.truncate(RUNTIME_LOG_SUBSYSTEM_MAX_CHARS);
    }
    text_of(kept.as_slice())
}

/// A character as the log shows it: line breaks in escaped form.
pub open spec fn shown_char(c: char) -> Seq<char> {
    if c == '\r' {
        "\\r"@
    } else if c == '\n' {
        "\\n"@
    } else {
        seq![c]
    }
}

/// A text with its line breaks in escaped form.
pub open spec fn escaped(message: Seq<char>) -> Seq<char>
    decreases message.len(),
{
    if message.len() == 0 {
        seq![]
    } else {
        escaped(message.drop_last()) + shown_char(message.last())
    }
}

/// A message as the log shows it: its first characters with line breaks escaped, and a mark
/// where more were cut off.
pub open spec fn shown_message(message: Seq<char>) -> Seq<char> {
    let shown = escaped(message.take(at_most(message.len(), RUNTIME_LOG_MESSAGE_MAX_CHARS as int)));
    if message.len() > RUNTIME_LOG_MESSAGE_MAX_CHARS {
        shown + "…[truncated]"@
    } else {
        shown
    }
}

/// A message as the log shows it.
pub fn sanitize_log_message(message: &str) -> (result: String)
    ensures
        result@ == shown_message(message@),
{
    let chars = chars_of(message);
    let limit: usize = if chars.len() <= RUNTIME_LOG_MESSAGE_MAX_CHARS {
        chars.len()
    } else {
        RUNTIME_LOG_MESSAGE_MAX_CHARS
    };
    let mut result = String::new();
    let mut i: usize = 0;
    while i < limit
        invariant
            chars@ == message@,
            i <= limit <= chars.len(),
            result@ == escaped(message@.take(i as int)),
        decreases limit - i,
    {
        proof {
            assert(message@.take(i + 1).drop_last() == message@.take(i as int));
        }
        let c: char = chars[i];
        if c == '\r' {
            result.append("\\r");
        } else if c == '\n' {
            result.append("\\n");
        } else {
            result.push(c);
            proof {
                assert(result@ == escaped(message@.take(i as int)) + seq![c]);
            }
        }
        i += 1;
    }
    if chars.len() > limit {
        result.append("…[truncated]");
    }
    result
}

/// One entry of the log.
pub open spec fn log_entry(
    timestamp_ms: nat,
    subsystem: Seq<char>,
    message: Seq<char>,
) -> Seq<char> {
    text::decimal(timestamp_ms) + " ["@ + shown_subsystem(subsystem) + "] "@ + shown_message(
        message,
    )
}

/// The entry to append to the runtime log, where logging is enabled.
pub fn append_runtime_log_line(
    enabled: bool,
    timestamp_ms: u128,
    subsystem: &str,
    message: &str,
) -> (line: Option<String>)
    ensures
        text::optional_text(line) == (if enabled {
            Some(log_entry(timestamp_ms as nat, subsystem@, message@))
        } else {
            None
        }),
{
    if !enabled {
        return None;
    }
    let mut line = decimal_text(timestamp_ms);
    line.append(" [");
    line.append(sanitize_log_subsystem(subsystem).as_str());
    line.append("] ");
    line.append(sanitize_log_message(message).as_str());
    Some(line)
}

/// The entry of the speech subsystem to append to the runtime log, where logging is enabled.
pub fn append_tts_runtime_log_line(enabled: bool, timestamp_ms: u128, message: &str) -> (line:
    Option<String>)
    ensures
        text::optional_text(line) == (if enabled {
            Some(log_entry(timestamp_ms as nat, "tts"@, message@))
        } else {
            None
        }),
{
    append_runtime_log_line(enabled, timestamp_ms, "tts", message)
}

/// Whether a text has neither a carriage return nor a line feed.
pub open spec fn single_line(line: Seq<char>) -> bool {
    forall|i: int| 0 <= i < line.len() ==> line[i] != '\r' && line[i] != '\n'
}

proof fn lemma_escaped(message: Seq<char>)
    ensures
        single_line(escaped(message)),
        escaped(message).len() <= 2 * message.len(),
    decreases message.len(),
{
    reveal_strlit("\\r");
    reveal_strlit("\\n");
    if message.len() > 0 {
        lemma_escaped(message.drop_last());
        assert(single_line(shown_char(message.last())));
    }
}

proof fn lemma_decimal_single_line(number: nat)
    ensures
        single_line(text::decimal(number)),
    decreases number,
{
    if number >= 10 {
        lemma_decimal_single_line(number / 10);
    }
}

/// An entry of the log is one line, whatever the message holds, and the message takes no more
/// than a bounded part of it.
pub proof fn law_log_entries_are_single_bounded_lines(
    timestamp_ms: nat,
    subsystem: Seq<char>,
    message: Seq<char>,
)
    ensures
        single_line(log_entry(timestamp_ms, subsystem, message)),
        0 < shown_subsystem(subsystem).len() <= RUNTIME_LOG_SUBSYSTEM_MAX_CHARS,
        forall|i: int|
            0 <= i < shown_subsystem(subsystem).len() ==> subsystem_char(
                #[trigger] shown_subsystem(subsystem)[i],
            ),
        shown_message(message).len() <= 2 * RUNTIME_LOG_MESSAGE_MAX_CHARS + 12,
{
    reveal_strlit("runtime");
    reveal_strlit("…[truncated]");
    reveal_strlit(" [");
    reveal_strlit("] ");
    lemma_decimal_single_line(timestamp_ms);
    lemma_escaped(message.take(at_most(message.len(), RUNTIME_LOG_MESSAGE_MAX_CHARS as int)));
    let kept = subsystem.filter(|c: char| subsystem_char(c));
    broadcast use vstd::seq_lib::group_filter_ensures;
    assert forall|i: int| 0 <= i < shown_subsystem(subsystem).len() implies subsystem_char(
        #[trigger] shown_subsystem(subsystem)[i],
    ) by {
        if kept.len() > 0 {
            assert(kept.contains(kept[i]));
            subsystem.lemma_filter_contains_rev(|c: char| subsystem_char(c), kept[i]);
        }
    }
}

/// What a message of the user interface is about.
#[derive(Clone, Copy, Debug, PartialEq, Eq, Structural)]
pub enum FrontendRuntimeDiagnosticKind {
    FrontendNotice,
    Cue,
    RuntimeControl,
    Execution,
    Tts,
    Audio,
    Profile,
}

impl FrontendRuntimeDiagnosticKind {
    /// The part of the application under which a message is logged.
    pub open spec fn log_subsystem(self) -> Seq<char> {
        match self {
            FrontendRuntimeDiagnosticKind::FrontendNotice => "frontend"@,
            FrontendRuntimeDiagnosticKind::Cue => "cue"@,
            FrontendRuntimeDiagnosticKind::RuntimeControl => "runtime-control"@,
            FrontendRuntimeDiagnosticKind::Execution => "execution"@,
            FrontendRuntimeDiagnosticKind::Tts => "tts"@,
            FrontendRuntimeDiagnosticKind::Audio => "audio"@,
            FrontendRuntimeDiagnosticKind::Profile => "profile"@,
        }
    }

    /// The part of the application under which a message is logged.
    pub fn as_log_subsystem(self) -> (subsystem: &'static str)
        ensures
            subsystem@ == self.log_subsystem(),
    {
        match self {
            FrontendRuntimeDiagnosticKind::FrontendNotice => "frontend",
            FrontendRuntimeDiagnosticKind::Cue => "cue",
            FrontendRuntimeDiagnosticKind::RuntimeControl => "runtime-control",
            FrontendRuntimeDiagnosticKind::Execution => "execution",
            FrontendRuntimeDiagnosticKind::Tts => "tts",
            FrontendRuntimeDiagnosticKind::Audio => "audio",
            FrontendRuntimeDiagnosticKind::Profile => "profile",
        }
    }
}

/// The name of a subsystem keeps its letters, digits, underscores and hyphens in their order, as
/// many as fit, and is `runtime` where none is left.
pub proof fn law_subsystems_keep_their_letters(before: Seq<char>, c: char)
    ensures
        ({
            let plain = 'a' <= c <= 'z' || 'A' <= c <= 'Z' || '0' <= c <= '9' || c == '_' || c
                == '-';
            let known = exists|i: int|
                0 <= i < before.len() && subsystem_char(#[trigger] before[i]);
            let shown = shown_subsystem(before.push(c));
            &&& !plain ==> shown == shown_subsystem(before)
            &&& plain && !known ==> shown == seq![c]
            &&& plain && known && shown_subsystem(before).len() < 32 ==> shown == shown_subsystem(
                before,
            ).push(c)
            &&& known && shown_subsystem(before).len() == 32 ==> shown == shown_subsystem(before)
            &&& !plain && !known ==> shown == "runtime"@
        }),
{
    reveal(Seq::filter);
    let keep = |x: char| subsystem_char(x);
    let longer = before.push(c);
    assert(longer.drop_last() == before);
    let kept = before.filter(keep);
    assert(longer.filter(keep) == (if subsystem_char(c) {
        kept.push(c)
    } else {
        kept
    }));
    broadcast use vstd::seq_lib::group_filter_ensures;
    if kept.len() > 0 {
        assert(kept.contains(kept[0]));
        before.lemma_filter_contains_rev(keep, kept[0]);
        let i = choose|i: int| 0 <= i < before.len() && before[i] == kept[0];
        assert(subsystem_char(before[i]));
    }
    if exists|i: int| 0 <= i < before.len() && subsystem_char(#[trigger] before[i]) {
        let i = choose|i: int| 0 <= i < before.len() && subsystem_char(#[trigger] before[i]);
        lemma_kept(before, i);
    }
    if kept.len() > 0 && kept.len() < 32 {
        assert(kept.take(kept.len() as int) == kept);
        assert(kept.push(c).take((kept.len() + 1) as int) == kept.push(c));
    }
    if kept.len() >= 32 {
        assert(kept.push(c).take(32) == kept.take(32));
    }
    if kept.len() == 0 {
        assert(kept.push(c).take(1) == seq![c]);
    }
}

proof fn lemma_kept(text: Seq<char>, i: int)
    requires
        0 <= i < text.len(),
        subsystem_char(text[i]),
    ensures
        text.filter(|c: char| subsystem_char(c)).len() > 0,
    decreases text.len(),
{
    reveal(Seq::filter);
    if i < text.len() - 1 {
        lemma_kept(text.drop_last(), i);
    }
}

/// A message is shown from its beginning, character by character, with line breaks escaped: whole
/// where it is short, and with a mark where it was cut off.
pub proof fn law_messages_are_shown_from_their_beginning(before: Seq<char>, c: char)
    ensures
        shown_message(Seq::<char>::empty()).len() == 0,
        before.len() < 16384 ==> shown_message(before.push(c)) == shown_message(before) + (if c
            == '\r' {
            "\\r"@
        } else if c == '\n' {
            "\\n"@
        } else {
            seq![c]
        }),
        before.len() == 16384 ==> shown_message(before.push(c)) == shown_message(before)
            + "…[truncated]"@,
        before.len() > 16384 ==> shown_message(before.push(c)) == shown_message(before),
{
    let longer = before.push(c);
    assert(Seq::<char>::empty().take(0) == Seq::<char>::empty());
    if before.len() < 16384 {
        assert(longer.take(longer.len() as int) == longer);
        assert(before.take(before.len() as int) == before);
        assert(longer.drop_last() == before);
    } else {
        assert(longer.take(16384) == before.take(16384));
    }
}

/// An entry holds its time, its subsystem and its message, in that order.
pub proof fn law_entries_hold_time_subsystem_and_message(
    timestamp_ms: nat,
    subsystem: Seq<char>,
    message: Seq<char>,
)
    ensures
        log_entry(timestamp_ms, subsystem, message) == text::decimal(timestamp_ms) + " ["@
            + shown_subsystem(subsystem) + "] "@ + shown_message(message),
{
}

/// Messages of the user interface are logged under the part of the application that they are about.
pub proof fn law_messages_are_logged_under_their_part(kind: FrontendRuntimeDiagnosticKind)
    ensures
        kind is FrontendNotice ==> kind.log_subsystem() == "frontend"@,
        kind is Cue ==> kind.log_subsystem() == "cue"@,
        kind is RuntimeControl ==> kind.log_subsystem() == "runtime-control"@,
        kind is Execution ==> kind.log_subsystem() == "execution"@,
        kind is Tts ==> kind.log_subsystem() == "tts"@,
        kind is Audio ==> kind.log_subsystem() == "audio"@,
        kind is Profile ==> kind.log_subsystem() == "profile"@,
{
}

} // verus!
