//! The inbound rule of the Windows firewall for the local homepage: whether
//! the ports of the rule that is there cover the port that is served.

use crate::text::{
    ascii_lower_char, ascii_lowered, chars_of, contains_text, joined, parse_unsigned,
    parse_unsigned_span, part_end, part_len, same_chars, split_on, text_contains, to_lowercase,
    trim_span, trim_text, trimmed, unicode_lowercase,
};
use vstd::prelude::*;
use vstd::string::StringExecFns;

verus! {

/// The exit code with which the query says that no rule of the name exists.
pub const NO_RULE_EXIT_CODE: i32 = 3;

/// A text read as a port: a decimal number of at most 65535.
pub open spec fn port_of(s: Seq<char>) -> Option<nat> {
    parse_unsigned(s, 10, 65535)
}

/// Whether one entry of a rule's ports covers the port: a range `a-b`
/// covers the ports from `a` to `b`, a single port covers itself, and an
/// entry that is neither covers nothing.
pub open spec fn entry_covers(entry: Seq<char>, target: u16) -> bool {
    let token = trimmed(entry);
    let dash = part_len(token, '-') as int;
    if token.len() == 0 {
        false
    } else if dash < token.len() {
        match (port_of(trimmed(token.take(dash))), port_of(trimmed(token.skip(dash + 1)))) {
            (Some(first), Some(last)) => first <= target <= last,
            _ => false,
        }
    } else {
        port_of(token) == Some(target as nat)
    }
}

/// Whether the ports of a rule, written as a list separated by commas,
/// cover the port. The word `any` covers every port; capitals and surrounding
/// whitespace do not count.
pub open spec fn ports_cover(candidate: Seq<char>, target: u16) -> bool {
    let value = ascii_lowered(trimmed(candidate));
    if value.len() == 0 {
        false
    } else if value == "any"@ {
        true
    } else {
        exists|k: int|
            0 <= k < split_on(value, ',').len() && entry_covers(
                #[trigger] split_on(value, ',')[k],
                target,
            )
    }
}

/// Whether the entry `chars[from..to]` covers the port.
fn entry_matches(chars: &Vec<char>, from: usize, to: usize, target: u16) -> (r: bool)
    requires
        from <= to <= chars.len(),
    ensures
        r == entry_covers(chars@.subrange(from as int, to as int), target),
{
    let (start, end) = trim_span(chars, from, to);
    let ghost token = chars@.subrange(start as int, end as int);
    if start == end {
        return false;
    }
    let dash = part_end(chars, start, end, '-');
    if dash < end {
        proof {
            assert(token.take(dash - start) == chars@.subrange(start as int, dash as int));
            assert(token.skip(dash - start + 1) == chars@.subrange(dash + 1, end as int));
        }
        let (a, b) = trim_span(chars, start, dash);
        let (c, d) = trim_span(chars, dash + 1, end);
        let first = match parse_unsigned_span(chars, a, b, 10, 65535) {
            Some(v) => v,
            None => {
                return false;
            },
        };
        let last = match parse_unsigned_span(chars, c, d, 10, 65535) {
            Some(v) => v,
            None => {
                return false;
            },
        };
        first <= target as u32 && target as u32 <= last
    } else {
        match parse_unsigned_span(chars, start, end, 10, 65535) {
            Some(v) => v == target as u32,
            None => false,
        }
    }
}

/// Whether the list of ports `chars` covers the port.
fn port_list_matches(chars: &Vec<char>, target: u16) -> (r: bool)
    ensures
        r == ports_cover(chars@, target),
{
    let (start, end) = trim_span(chars, 0, chars.len());
    assert(chars@.subrange(0, chars.len() as int) == chars@);
    let mut value: Vec<char> = Vec::new();
    let mut i: usize = start;
    while i < end
        invariant
            start <= i <= end <= chars.len(),
            value@ == ascii_lowered(chars@.subrange(start as int, i as int)),
        decreases end - i,
    {
        value.push(ascii_lower_char(chars[i]));
        i += 1;
        assert(value@ =~= ascii_lowered(chars@.subrange(start as int, i as int)));
    }
    if value.len() == 0 {
        return false;
    }
    if same_chars(&value, &chars_of("any")) {
        return true;
    }
    entries_cover(&value, target)
}

/// Whether an entry of the list `value`, split at commas, covers the port.
fn entries_cover(value: &Vec<char>, target: u16) -> (r: bool)
    ensures
        r == (exists|k: int|
            0 <= k < split_on(value@, ',').len() && entry_covers(
                #[trigger] split_on(value@, ',')[k],
                target,
            )),
{
    let ghost all = split_on(value@, ',');
    let ghost mut done: Seq<Seq<char>> = Seq::empty();
    let mut pos: usize = 0;
    assert(value@.skip(0) == value@);
    loop
        invariant
            pos <= value.len(),
            all == split_on(value@, ','),
            all == done + split_on(value@.skip(pos as int), ','),
            forall|k: int| 0 <= k < done.len() ==> !entry_covers(#[trigger] done[k], target),
        decreases value.len() - pos,
    {
        let ghost rest = value@.skip(pos as int);
        assert(rest == value@.subrange(pos as int, value.len() as int));
        let end = part_end(value, pos, value.len(), ',');
        let ghost part = value@.subrange(pos as int, end as int);
        assert(rest.take(end - pos) == part);
        let hit = entry_matches(value, pos, end, target);
        proof {
            if end < value.len() {
                assert(rest.skip(end - pos + 1) == value@.skip(end + 1));
                assert(split_on(rest, ',') == seq![part] + split_on(value@.skip(end + 1), ','));
                assert(done + (seq![part] + split_on(value@.skip(end + 1), ',')) == done.push(part)
                    + split_on(value@.skip(end + 1), ','));
            } else {
                assert(rest == part);
                assert(split_on(rest, ',') == seq![part]);
                assert(done + seq![part] == done.push(part));
            }
        }
        if hit {
            proof {
                let k = done.len() as int;
                assert(all[k] == part);
            }
            return true;
        }
        proof {
            done = done.push(part);
        }
        if end == value.len() {
            assert(all == done);
            return false;
        }
        pos = end + 1;
    }
}

/// Whether the ports of a rule, as the query prints them, cover the port.
pub fn local_port_matches(candidate: &str, target: u16) -> (r: bool)
    ensures
        r == ports_cover(candidate@, target),
{
    let chars = chars_of(candidate);
    port_list_matches(&chars, target)
}

/// Whether some line of the output, split at line feeds, is a list of ports
/// that covers the port.
pub open spec fn some_line_covers(output: Seq<char>, target: u16) -> bool {
    exists|k: int|
        0 <= k < split_on(output, '\n').len() && ports_cover(
            #[trigger] split_on(output, '\n')[k],
            target,
        )
}

fn lines_cover(output: &Vec<char>, target: u16) -> (r: bool)
    ensures
        r == some_line_covers(output@, target),
{
    let ghost all = split_on(output@, '\n');
    let ghost mut done: Seq<Seq<char>> = Seq::empty();
    let mut pos: usize = 0;
    assert(output@.skip(0) == output@);
    loop
        invariant
            pos <= output.len(),
            all == split_on(output@, '\n'),
            all == done + split_on(output@.skip(pos as int), '\n'),
            forall|k: int| 0 <= k < done.len() ==> !ports_cover(#[trigger] done[k], target),
        decreases output.len() - pos,
    {
        let ghost rest = output@.skip(pos as int);
        assert(rest == output@.subrange(pos as int, output.len() as int));
        let end = part_end(output, pos, output.len(), '\n');
        let ghost part = output@.subrange(pos as int, end as int);
        assert(rest.take(end - pos) == part);
        let mut line: Vec<char> = Vec::new();
        let mut i: usize = pos;
        while i < end
            invariant
                pos <= i <= end <= output.len(),
                line@ == output@.subrange(pos as int, i as int),
            decreases end - i,
        {
            line.push(output[i]);
            i += 1;
            assert(output@.subrange(pos as int, i as int) == output@.subrange(
                pos as int,
                i - 1,
            ).push(output@[i - 1]));
        }
        let hit = port_list_matches(&line, target);
        proof {
            if end < output.len() {
                assert(rest.skip(end - pos + 1) == output@.skip(end + 1));
                assert(split_on(rest, '\n') == seq![part] + split_on(output@.skip(end + 1), '\n'));
                assert(done + (seq![part] + split_on(output@.skip(end + 1), '\n')) == done.push(
                    part,
                ) + split_on(output@.skip(end + 1), '\n'));
            } else {
                assert(rest == part);
                assert(split_on(rest, '\n') == seq![part]);
                assert(done + seq![part] == done.push(part));
            }
        }
        if hit {
            proof {
                let k = done.len() as int;
                assert(all[k] == part);
            }
            return true;
        }
        proof {
            done = done.push(part);
        }
        if end == output.len() {
            assert(all == done);
            return false;
        }
        pos = end + 1;
    }
}

/// Whether the rule is to be written anew: where the query succeeded, when
/// no line of its output covers the port; where it failed, unless it failed
/// with the exit code that says that no rule exists.
pub open spec fn needs_update(
    query_succeeded: bool,
    exit_code: Option<i32>,
    output: Seq<char>,
    port: u16,
) -> bool {
    if query_succeeded {
        !some_line_covers(output, port)
    } else {
        exit_code != Some(NO_RULE_EXIT_CODE)
    }
}

/// Decides from the answer of the query whether the rule is to be written
/// anew.
pub fn rule_needs_update(query_succeeded: bool, exit_code: Option<i32>, output: &str, port: u16)
    -> (r: bool)
    ensures
        r == needs_update(query_succeeded, exit_code, output@, port),
{
    if query_succeeded {
        let chars = chars_of(output);
        !lines_cover(&chars, port)
    } else {
        match exit_code {
            Some(code) => code != NO_RULE_EXIT_CODE,
            None => true,
        }
    }
}

/// Whether the output of the update, in lower case, says that the user
/// declined it.
pub open spec fn says_cancelled(lower: Seq<char>) -> bool {
    contains_text(lower, "canceled by the user"@) || contains_text(lower, "cancelled by the user"@)
}

/// The message of a failed update, given its output in lower case.
pub open spec fn failure_text(
    lower: Seq<char>,
    status: Seq<char>,
    stdout: Seq<char>,
    stderr: Seq<char>,
) -> Seq<char> {
    if says_cancelled(lower) {
        "firewall rule update was cancelled in UAC prompt"@
    } else {
        "elevated firewall update script exited with "@ + status + ". stdout: "@ + stdout
            + " stderr: "@ + stderr
    }
}

/// The message of a failed update, given what it printed, already trimmed,
/// the two outputs joined by a space and put in lower case, and how it exited.
pub fn failure_from_lowercase(lower: &str, status: &str, stdout: &str, stderr: &str) -> (message:
    String)
    ensures
        message@ == failure_text(lower@, status@, stdout@, stderr@),
{
    if text_contains(lower, "canceled by the user") || text_contains(
        lower,
        "cancelled by the user",
    ) {
        return "firewall rule update was cancelled in UAC prompt".to_owned();
    }
    let mut message = joined("elevated firewall update script exited with ", status);
    message.append(". stdout: ");
    message.append(stdout);
    message.append(" stderr: ");
    message.append(stderr);
    message
}

/// The message of a failed update, given what it printed and how it exited.
pub fn update_failure(status: &str, stdout: &str, stderr: &str) -> (message: String)
    ensures
        message@ == failure_text(
            unicode_lowercase(trimmed(stdout@) + " "@ + trimmed(stderr@)),
            status@,
            trimmed(stdout@),
            trimmed(stderr@),
        ),
{
    let out = trim_text(stdout);
    let err = trim_text(stderr);
    let mut merged = joined(out, " ");
    merged.append(err);
    let lower = to_lowercase(merged.as_str());
    failure_from_lowercase(lower.as_str(), status, out, err)
}

} // verus!
