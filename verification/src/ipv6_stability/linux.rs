//! The Linux classifier: the kernel's table of IPv6 interface addresses, one
//! line per address, and the ranks that its flags stand for.

use super::{upserted, RankKey, StabilityIndex, StabilityRank};
use crate::address::Ipv6Address;
use crate::text::{
    char_is_whitespace, chars_of, is_whitespace, parse_unsigned, parse_unsigned_span, part_end,
    part_len,
};
use vstd::prelude::*;
use vstd::string::StrSliceExecFns;

verus! {

pub const IFA_F_TEMPORARY: u32 = 0x01;

pub const IFA_F_DADFAILED: u32 = 0x08;

pub const IFA_F_DEPRECATED: u32 = 0x20;

pub const IFA_F_TENTATIVE: u32 = 0x40;

pub const IFA_F_PERMANENT: u32 = 0x80;

pub const IFA_F_STABLE_PRIVACY: u32 = 0x800;

/// The rank that a line's flags and prefix length stand for: temporary
/// first, then the transitional states, then the permanent ones, then the
/// prefix length.
pub open spec fn linux_rank(flags: u32, prefix_len: u8) -> StabilityRank {
    if flags & IFA_F_TEMPORARY != 0 {
        StabilityRank::Temporary
    } else if flags & (IFA_F_TENTATIVE | IFA_F_DEPRECATED | IFA_F_DADFAILED) != 0 {
        StabilityRank::Fallback
    } else if flags & (IFA_F_STABLE_PRIVACY | IFA_F_PERMANENT) != 0 {
        StabilityRank::PreferredStable
    } else if prefix_len == 64 {
        StabilityRank::Stable
    } else {
        StabilityRank::Fallback
    }
}

/// The rank of an address with the given flags and prefix length.
pub fn classify_linux_rank(flags: u32, prefix_len: u8) -> (r: StabilityRank)
    ensures
        r == linux_rank(flags, prefix_len),
{
    if flags & IFA_F_TEMPORARY != 0 {
        return StabilityRank::Temporary;
    }
    if flags & (IFA_F_TENTATIVE | IFA_F_DEPRECATED | IFA_F_DADFAILED) != 0 {
        return StabilityRank::Fallback;
    }
    if flags & (IFA_F_STABLE_PRIVACY | IFA_F_PERMANENT) != 0 {
        return StabilityRank::PreferredStable;
    }
    if prefix_len == 64 {
        return StabilityRank::Stable;
    }
    StabilityRank::Fallback
}

/// A hexadecimal field read as an unsigned number of at most `max`: an
/// optional `+`, then at least one digit in either case, and a value within
/// the limit.
pub open spec fn parse_hex(s: Seq<char>, max: nat) -> Option<nat> {
    parse_unsigned(s, 16, max)
}

/// The address that thirty-two hexadecimal characters write, two per octet.
pub open spec fn parse_address(raw: Seq<char>) -> Option<Seq<u8>> {
    if raw.len() == 32 && (forall|i: int|
        0 <= i < 16 ==> (#[trigger] parse_hex(raw.subrange(2 * i, 2 * i + 2), 255)) is Some) {
        Some(Seq::new(16, |i: int| parse_hex(raw.subrange(2 * i, 2 * i + 2), 255)->0 as u8))
    } else {
        None
    }
}

/// The lines of `s`: the runs between line feeds, a last one only where it
/// is not empty.
pub open spec fn lines_of(s: Seq<char>) -> Seq<Seq<char>>
    decreases s.len(),
{
    if s.len() == 0 {
        Seq::empty()
    } else {
        let n = part_len(s, '\n') as int;
        if n >= s.len() {
            seq![s]
        } else {
            seq![s.take(n)] + lines_of(s.skip(n + 1))
        }
    }
}

/// The number of characters before the first whitespace of `s`.
pub open spec fn token_len(s: Seq<char>) -> nat
    decreases s.len(),
{
    if s.len() == 0 || is_whitespace(s[0]) {
        0
    } else {
        1 + token_len(s.drop_first())
    }
}

/// The number of whitespace characters at the start of `s`.
pub open spec fn gap_len(s: Seq<char>) -> nat
    decreases s.len(),
{
    if s.len() == 0 || !is_whitespace(s[0]) {
        0
    } else {
        1 + gap_len(s.drop_first())
    }
}

/// The fields of a line: its maximal runs of characters that are not
/// whitespace, in order.
pub open spec fn fields_of(s: Seq<char>) -> Seq<Seq<char>>
    decreases s.len(),
    via fields_of_decreases
{
    let g = gap_len(s) as int;
    if g >= s.len() {
        Seq::empty()
    } else {
        let t = token_len(s.skip(g)) as int;
        if t == 0 {
            Seq::empty()
        } else {
            seq![s.subrange(g, g + t)] + fields_of(s.skip(g + t))
        }
    }
}

#[via_fn]
proof fn fields_of_decreases(s: Seq<char>) {
    let g = gap_len(s) as int;
    lemma_gap_end(s);
    if g < s.len() {
        lemma_token_len_bound(s.skip(g));
    }
}

proof fn lemma_token_len_bound(s: Seq<char>)
    ensures
        token_len(s) <= s.len(),
    decreases s.len(),
{
    if s.len() == 0 || is_whitespace(s[0]) {
    } else {
        lemma_token_len_bound(s.drop_first());
    }
}

/// What one line of the table reports: six fields, of which the first is the
/// address, the third the prefix length, the fifth the flags and the sixth
/// the interface's name. A line of another shape reports nothing.
pub open spec fn line_entry(line: Seq<char>) -> Option<(RankKey, StabilityRank)> {
    let fields = fields_of(line);
    if fields.len() != 6 {
        None
    } else {
        match (
            parse_address(fields[0]),
            parse_hex(fields[2], 0xff),
            parse_hex(fields[4], 0xffff_ffff),
        ) {
            (Some(addr), Some(prefix_len), Some(flags)) => Some(
                ((fields[5], addr), linux_rank(flags as u32, prefix_len as u8)),
            ),
            _ => None,
        }
    }
}

/// The ranks that the lines report, merged in order.
pub open spec fn table_ranks(lines: Seq<Seq<char>>) -> Map<RankKey, StabilityRank>
    decreases lines.len(),
{
    if lines.len() == 0 {
        Map::empty()
    } else {
        let earlier = table_ranks(lines.drop_last());
        match line_entry(lines.last()) {
            Some((key, rank)) => upserted(earlier, key, rank),
            None => earlier,
        }
    }
}

/// Reads `chars[from..to]` as a hexadecimal number of at most `max`.
pub fn parse_hex_field(chars: &Vec<char>, from: usize, to: usize, max: u32) -> (r: Option<u32>)
    requires
        from <= to <= chars.len(),
    ensures
        match r {
            Some(v) => parse_hex(chars@.subrange(from as int, to as int), max as nat) == Some(
                v as nat,
            ),
            None => parse_hex(chars@.subrange(from as int, to as int), max as nat) is None,
        },
{
    parse_unsigned_span(chars, from, to, 16, max)
}

/// Reads `chars[from..to]` as an address: thirty-two characters, each pair a
/// hexadecimal octet.
pub fn parse_if_inet6_address(chars: &Vec<char>, from: usize, to: usize) -> (r: Option<
    Ipv6Address,
>)
    requires
        from <= to <= chars.len(),
    ensures
        match r {
            Some(addr) => parse_address(chars@.subrange(from as int, to as int)) == Some(addr@),
            None => parse_address(chars@.subrange(from as int, to as int)) is None,
        },
{
    let ghost raw = chars@.subrange(from as int, to as int);
    if to - from != 32 {
        return None;
    }
    let mut octets: [u8; 16] = [0u8;16];
    let mut idx: usize = 0;
    while idx < 16
        invariant
            idx <= 16,
            to - from == 32,
            to <= chars.len(),
            raw == chars@.subrange(from as int, to as int),
            forall|i: int|
                0 <= i < idx ==> (#[trigger] parse_hex(raw.subrange(2 * i, 2 * i + 2), 255))
                    == Some(octets@[i] as nat),
        decreases 16 - idx,
    {
        let at = from + 2 * idx;
        assert(chars@.subrange(at as int, at + 2) == raw.subrange(2 * idx, 2 * idx + 2));
        match parse_hex_field(chars, at, at + 2, 255) {
            None => {
                return None;
            },
            Some(v) => {
                octets[idx] = v as u8;
            },
        }
        idx += 1;
    }
    let addr = Ipv6Address::new(octets);
    assert(addr@ =~= parse_address(raw)->0);
    Some(addr)
}

/// The first index in `from..to` that holds no whitespace, or `to`.
fn skip_gap(chars: &Vec<char>, from: usize, to: usize) -> (r: usize)
    requires
        from <= to <= chars.len(),
    ensures
        from <= r <= to,
        r - from == gap_len(chars@.subrange(from as int, to as int)),
{
    let mut i = from;
    while i < to && char_is_whitespace(chars[i])
        invariant
            from <= i <= to,
            to <= chars.len(),
            gap_len(chars@.subrange(from as int, to as int)) == (i - from) + gap_len(
                chars@.subrange(i as int, to as int),
            ),
        decreases to - i,
    {
        proof {
            let rest = chars@.subrange(i as int, to as int);
            assert(rest[0] == chars@[i as int]);
            assert(rest.drop_first() == chars@.subrange(i + 1, to as int));
        }
        i += 1;
    }
    proof {
        let rest = chars@.subrange(i as int, to as int);
        if i < to {
            assert(rest[0] == chars@[i as int]);
        }
    }
    i
}

/// The first index in `from..to` that holds whitespace, or `to`.
fn skip_token(chars: &Vec<char>, from: usize, to: usize) -> (r: usize)
    requires
        from <= to <= chars.len(),
    ensures
        from <= r <= to,
        r - from == token_len(chars@.subrange(from as int, to as int)),
{
    let mut i = from;
    while i < to && !char_is_whitespace(chars[i])
        invariant
            from <= i <= to,
            to <= chars.len(),
            token_len(chars@.subrange(from as int, to as int)) == (i - from) + token_len(
                chars@.subrange(i as int, to as int),
            ),
        decreases to - i,
    {
        proof {
            let rest = chars@.subrange(i as int, to as int);
            assert(rest[0] == chars@[i as int]);
            assert(rest.drop_first() == chars@.subrange(i + 1, to as int));
        }
        i += 1;
    }
    proof {
        let rest = chars@.subrange(i as int, to as int);
        if i < to {
            assert(rest[0] == chars@[i as int]);
        }
    }
    i
}

/// Whether `spans` mark, within `chars`, the given fields.
pub open spec fn spans_mark(chars: Seq<char>, spans: Seq<(usize, usize)>, fields: Seq<Seq<char>>)
    -> bool {
    &&& spans.len() == fields.len()
    &&& forall|k: int|
        0 <= k < spans.len() ==> {
            &&& (#[trigger] spans[k]).0 <= spans[k].1 <= chars.len()
            &&& chars.subrange(spans[k].0 as int, spans[k].1 as int) == fields[k]
        }
}

/// The fields of `chars[from..to]`, each as the span that it fills.
pub fn field_spans(chars: &Vec<char>, from: usize, to: usize) -> (spans: Vec<(usize, usize)>)
    requires
        from <= to <= chars.len(),
    ensures
        spans_mark(chars@, spans@, fields_of(chars@.subrange(from as int, to as int))),
{
    let ghost line = chars@.subrange(from as int, to as int);
    let mut spans: Vec<(usize, usize)> = Vec::new();
    let mut pos = from;
    let ghost mut found: Seq<Seq<char>> = Seq::empty();
    assert(line.skip(0) == line);
    loop
        invariant
            from <= pos <= to,
            to <= chars.len(),
            line == chars@.subrange(from as int, to as int),
            spans_mark(chars@, spans@, found),
            fields_of(line) == found + fields_of(line.skip(pos - from)),
        decreases to - pos,
    {
        let ghost rest = line.skip(pos - from);
        assert(rest == chars@.subrange(pos as int, to as int));
        let start = skip_gap(chars, pos, to);
        if start == to {
            assert(fields_of(rest) == Seq::<Seq<char>>::empty());
            assert(found + Seq::<Seq<char>>::empty() == found);
            return spans;
        }
        assert(rest.skip(start - pos) == chars@.subrange(start as int, to as int));
        let end = skip_token(chars, start, to);
        proof {
            let tail = chars@.subrange(start as int, to as int);
            assert(tail[0] == chars@[start as int]);
            lemma_gap_end(rest);
            assert(!is_whitespace(chars@[start as int]));
            assert(end > start);
            assert(rest.subrange(start - pos, end - pos) == chars@.subrange(
                start as int,
                end as int,
            ));
            assert(rest.skip(end - pos) == line.skip(end - from));
            assert(fields_of(rest) == seq![chars@.subrange(start as int, end as int)] + fields_of(
                line.skip(end - from),
            ));
            found = found.push(chars@.subrange(start as int, end as int));
            assert(fields_of(line) == found + fields_of(line.skip(end - from)));
        }
        spans.push((start, end));
        pos = end;
    }
}

/// After its leading whitespace a text is at its end or at a character that
/// is no whitespace.
proof fn lemma_gap_end(s: Seq<char>)
    ensures
        gap_len(s) <= s.len(),
        gap_len(s) < s.len() ==> !is_whitespace(s[gap_len(s) as int]),
    decreases s.len(),
{
    if s.len() == 0 || !is_whitespace(s[0]) {
    } else {
        lemma_gap_end(s.drop_first());
    }
}

/// Reads one line of the table, `chars[from..to]`.
fn read_line(chars: &Vec<char>, content: &str, from: usize, to: usize) -> (r: Option<
    (String, Ipv6Address, StabilityRank),
>)
    requires
        chars@ == content@,
        from <= to <= chars.len(),
    ensures
        match r {
            Some((name, addr, rank)) => line_entry(chars@.subrange(from as int, to as int))
                == Some(((name@, addr@), rank)),
            None => line_entry(chars@.subrange(from as int, to as int)) is None,
        },
{
    let spans = field_spans(chars, from, to);
    if spans.len() != 6 {
        return None;
    }
    let addr = match parse_if_inet6_address(chars, spans[0].0, spans[0].1) {
        Some(addr) => addr,
        None => {
            return None;
        },
    };
    let prefix_len = match parse_hex_field(chars, spans[2].0, spans[2].1, 0xff) {
        Some(v) => v as u8,
        None => {
            return None;
        },
    };
    let flags = match parse_hex_field(chars, spans[4].0, spans[4].1, 0xffff_ffff) {
        Some(v) => v,
        None => {
            return None;
        },
    };
    let name = content.substring_char(spans[5].0, spans[5].1).to_owned();
    let rank = classify_linux_rank(flags, prefix_len);
    Some((name, addr, rank))
}

/// The index that the kernel's table of IPv6 interface addresses stands for.
/// Lines that do not have the table's shape are passed over.
pub fn collect_stability_ranks(content: &str) -> (ranks: StabilityIndex)
    ensures
        ranks.wf(),
        ranks@ == table_ranks(lines_of(content@)),
{
    let chars = chars_of(content);
    let mut ranks = StabilityIndex::new();
    let mut pos: usize = 0;
    let ghost mut done: Seq<Seq<char>> = Seq::empty();
    assert(chars@.skip(0) == chars@);
    while pos < chars.len()
        invariant
            pos <= chars.len(),
            chars@ == content@,
            ranks.wf(),
            ranks@ == table_ranks(done),
            lines_of(chars@) == done + lines_of(chars@.skip(pos as int)),
        decreases chars.len() - pos,
    {
        let ghost rest = chars@.skip(pos as int);
        assert(rest == chars@.subrange(pos as int, chars.len() as int));
        let end = part_end(&chars, pos, chars.len(), '\n');
        let ghost line = chars@.subrange(pos as int, end as int);
        proof {
            assert(rest.take(end - pos) == line);
            if end < chars.len() {
                assert(rest.skip(end - pos + 1) == chars@.skip(end + 1));
                assert(lines_of(rest) == seq![line] + lines_of(chars@.skip(end + 1)));
                assert(done + (seq![line] + lines_of(chars@.skip(end + 1))) == done.push(line)
                    + lines_of(chars@.skip(end + 1)));
            } else {
                assert(rest == line);
                assert(lines_of(rest) == seq![line]);
                assert(lines_of(chars@.skip(chars@.len() as int)) == Seq::<Seq<char>>::empty());
                assert(done + seq![line] == done.push(line) + Seq::<Seq<char>>::empty());
            }
            assert(done.push(line).drop_last() == done);
        }
        match read_line(&chars, content, pos, end) {
            Some((name, addr, rank)) => {
                StabilityIndex::upsert_rank(&mut ranks, name, addr, rank);
            },
            None => {},
        }
        proof {
            done = done.push(line);
        }
        pos = if end < chars.len() {
            end + 1
        } else {
            end
        };
    }
    proof {
        assert(lines_of(chars@.skip(pos as int)) == Seq::<Seq<char>>::empty());
        assert(done + Seq::<Seq<char>>::empty() == done);
    }
    ranks
}

} // verus!
