//! Text as sequences of characters: trimming, ASCII case folding, substring
//! search, lexical order and decimal rendering, each with its mathematical
//! meaning.

use vstd::prelude::*;
use vstd::string::StrSliceExecFns;
use vstd::string::StringExecFns;

verus! {

/// Whether `c` has the Unicode property White_Space.
pub open spec fn is_whitespace(c: char) -> bool {
    let n = c as u32;
    ||| 0x09 <= n <= 0x0d
    ||| n == 0x20
    ||| n == 0x85
    ||| n == 0xa0
    ||| n == 0x1680
    ||| 0x2000 <= n <= 0x200a
    ||| n == 0x2028
    ||| n == 0x2029
    ||| n == 0x202f
    ||| n == 0x205f
    ||| n == 0x3000
}

/// `s` without its leading whitespace.
pub open spec fn trim_start(s: Seq<char>) -> Seq<char>
    decreases s.len(),
{
    if s.len() > 0 && is_whitespace(s[0]) {
        trim_start(s.drop_first())
    } else {
        s
    }
}

/// `s` without its trailing whitespace.
pub open spec fn trim_end(s: Seq<char>) -> Seq<char>
    decreases s.len(),
{
    if s.len() > 0 && is_whitespace(s.last()) {
        trim_end(s.drop_last())
    } else {
        s
    }
}

/// `s` without leading and trailing whitespace.
pub open spec fn trimmed(s: Seq<char>) -> Seq<char> {
    trim_end(trim_start(s))
}

/// The lower-case form of an ASCII capital; every other character is itself.
pub open spec fn ascii_lower(c: char) -> char {
    if 'A' <= c && c <= 'Z' {
        ((c as u8 + 32) as u8) as char
    } else {
        c
    }
}

/// `s` with every ASCII capital replaced by its lower-case form.
pub open spec fn ascii_lowered(s: Seq<char>) -> Seq<char> {
    s.map_values(|c: char| ascii_lower(c))
}

/// Whether `needle` stands in `hay` at position `at`.
pub open spec fn occurs_at(hay: Seq<char>, needle: Seq<char>, at: int) -> bool {
    &&& 0 <= at
    &&& at + needle.len() <= hay.len()
    &&& hay.subrange(at, at + needle.len()) == needle
}

/// Whether `needle` stands somewhere in `hay`.
pub open spec fn contains_text(hay: Seq<char>, needle: Seq<char>) -> bool {
    exists|at: int| occurs_at(hay, needle, at)
}

/// Strict lexical order of two texts by the code points of their characters.
pub open spec fn text_less(a: Seq<char>, b: Seq<char>) -> bool
    decreases a.len(),
{
    if b.len() == 0 {
        false
    } else if a.len() == 0 {
        true
    } else if a[0] != b[0] {
        a[0] < b[0]
    } else {
        text_less(a.drop_first(), b.drop_first())
    }
}

/// The character that writes the digit `d`.
pub open spec fn digit_char(d: nat) -> char
    recommends
        d < 10,
{
    ((48 + d) as u8) as char
}

/// The decimal numeral of `n`, without leading zeros.
pub open spec fn decimal(n: nat) -> Seq<char>
    decreases n,
{
    if n < 10 {
        seq![digit_char(n)]
    } else {
        decimal(n / 10).push(digit_char(n % 10))
    }
}

/// The characters of a string slice, in order.
pub fn chars_of(s: &str) -> (v: Vec<char>)
    ensures
        v@ == s@,
{
    let mut v: Vec<char> = Vec::new();
    for c in it: s.chars()
        invariant
            it.seq() == s@,
            v@ == it.seq().take(it.index()),
    {
        v.push(c);
        assert(it.seq().take(it.index() + 1) == it.seq().take(it.index()).push(c));
    }
    assert(v@ == s@.take(s@.len() as int));
    v
}

/// Whether two string slices hold the same characters.
pub fn same_text(a: &str, b: &str) -> (r: bool)
    ensures
        r == (a@ == b@),
{
    let x = a.to_owned();
    let y = b.to_owned();
    x == y
}

/// Whether two optional texts agree: both absent, or both present with the
/// same characters.
pub fn same_optional_text(a: &Option<String>, b: &Option<String>) -> (r: bool)
    ensures
        r == (a.deep_view() == b.deep_view()),
{
    match (a, b) {
        (None, None) => true,
        (Some(x), Some(y)) => *x == *y,
        _ => false,
    }
}

/// A copy of an optional text.
pub fn copy_optional_text(a: &Option<String>) -> (r: Option<String>)
    ensures
        r.deep_view() == a.deep_view(),
{
    match a {
        None => None,
        Some(x) => Some(x.clone()),
    }
}

/// Whether `c` has the Unicode property White_Space.
pub fn char_is_whitespace(c: char) -> (r: bool)
    ensures
        r == is_whitespace(c),
{
    let n: u32 = c as u32;
    (0x09 <= n && n <= 0x0d) || n == 0x20 || n == 0x85 || n == 0xa0 || n == 0x1680 || (0x2000 <= n
        && n <= 0x200a) || n == 0x2028 || n == 0x2029 || n == 0x202f || n == 0x205f || n == 0x3000
}

/// The bounds of `trimmed(chars@)` within `chars`.
pub fn trim_bounds(chars: &Vec<char>) -> (r: (usize, usize))
    ensures
        r.0 <= r.1 <= chars.len(),
        chars@.subrange(r.0 as int, r.1 as int) == trimmed(chars@),
{
    assert(chars@.subrange(0, chars.len() as int) == chars@);
    trim_span(chars, 0, chars.len())
}

/// The slice of `s` between its leading and trailing whitespace.
pub fn trim_text(s: &str) -> (r: &str)
    ensures
        r@ == trimmed(s@),
{
    let chars = chars_of(s);
    let (start, end) = trim_bounds(&chars);
    s.substring_char(start, end)
}

/// Whether nothing but whitespace stands in `s`.
pub fn is_blank(s: &str) -> (r: bool)
    ensures
        r == (trimmed(s@).len() == 0),
{
    let chars = chars_of(s);
    let (start, end) = trim_bounds(&chars);
    start == end
}

/// The lower-case form of an ASCII capital; every other character is itself.
pub fn ascii_lower_char(c: char) -> (r: char)
    ensures
        r == ascii_lower(c),
{
    if 'A' <= c && c <= 'Z' {
        ((c as u8) + 32) as char
    } else {
        c
    }
}

/// The characters of `s`, ASCII capitals folded to lower case.
pub fn ascii_lowered_chars(s: &str) -> (v: Vec<char>)
    ensures
        v@ == ascii_lowered(s@),
{
    let chars = chars_of(s);
    let mut v: Vec<char> = Vec::new();
    let mut i: usize = 0;
    while i < chars.len()
        invariant
            i <= chars.len(),
            chars@ == s@,
            v@ == ascii_lowered(s@.take(i as int)),
        decreases chars.len() - i,
    {
        v.push(ascii_lower_char(chars[i]));
        i += 1;
        assert(v@ =~= ascii_lowered(s@.take(i as int)));
    }
    assert(s@.take(i as int) == s@);
    v
}

/// Whether two texts agree once ASCII capitals are folded to lower case.
pub fn eq_ignore_ascii_case(a: &str, b: &str) -> (r: bool)
    ensures
        r == (ascii_lowered(a@) == ascii_lowered(b@)),
{
    let x = ascii_lowered_chars(a);
    let y = ascii_lowered_chars(b);
    same_chars(&x, &y)
}

/// Whether two lists hold the same characters.
pub fn same_chars(x: &Vec<char>, y: &Vec<char>) -> (r: bool)
    ensures
        r == (x@ == y@),
{
    if x.len() != y.len() {
        return false;
    }
    let mut i: usize = 0;
    while i < x.len()
        invariant
            i <= x.len(),
            x.len() == y.len(),
            x@.take(i as int) == y@.take(i as int),
        decreases x.len() - i,
    {
        if x[i] != y[i] {
            return false;
        }
        i += 1;
        assert(x@.take(i as int) == x@.take(i - 1).push(x@[i - 1]));
        assert(y@.take(i as int) == y@.take(i - 1).push(y@[i - 1]));
    }
    assert(x@.take(i as int) == x@);
    assert(y@.take(i as int) == y@);
    true
}

/// Whether `needle` stands in `hay` at position `at`.
fn chars_occur_at(hay: &Vec<char>, needle: &Vec<char>, at: usize) -> (r: bool)
    requires
        at + needle.len() <= hay.len(),
    ensures
        r == occurs_at(hay@, needle@, at as int),
{
    let mut j: usize = 0;
    while j < needle.len()
        invariant
            j <= needle.len(),
            at + needle.len() <= hay.len(),
            hay@.subrange(at as int, at + j) == needle@.take(j as int),
        decreases needle.len() - j,
    {
        if hay[at + j] != needle[j] {
            assert(hay@.subrange(at as int, at + needle.len())[j as int] != needle@[j as int]);
            return false;
        }
        j += 1;
        assert(hay@.subrange(at as int, at + j) == hay@.subrange(at as int, at + j - 1).push(
            hay@[at + j - 1],
        ));
        assert(needle@.take(j as int) == needle@.take(j - 1).push(needle@[j - 1]));
    }
    assert(needle@.take(j as int) == needle@);
    true
}

/// Whether `needle` stands somewhere in `hay`.
pub fn chars_contain(hay: &Vec<char>, needle: &Vec<char>) -> (r: bool)
    ensures
        r == contains_text(hay@, needle@),
{
    if needle.len() > hay.len() {
        return false;
    }
    let last: usize = hay.len() - needle.len();
    let mut at: usize = 0;
    loop
        invariant
            at <= last,
            last == hay.len() - needle.len(),
            needle.len() <= hay.len(),
            forall|k: int| 0 <= k < at ==> !occurs_at(hay@, needle@, k),
        decreases last - at,
    {
        if chars_occur_at(hay, needle, at) {
            return true;
        }
        if at == last {
            return false;
        }
        at += 1;
    }
}

/// Whether `needle` stands somewhere in `hay`.
pub fn text_contains(hay: &str, needle: &str) -> (r: bool)
    ensures
        r == contains_text(hay@, needle@),
{
    let h = chars_of(hay);
    let n = chars_of(needle);
    chars_contain(&h, &n)
}

/// Whether `a` comes strictly before `b` in lexical order.
pub fn text_precedes(a: &str, b: &str) -> (r: bool)
    ensures
        r == text_less(a@, b@),
{
    let x = chars_of(a);
    let y = chars_of(b);
    let mut i: usize = 0;
    assert(a@.skip(0) == a@);
    assert(b@.skip(0) == b@);
    while i < x.len() && i < y.len()
        invariant
            i <= x.len(),
            i <= y.len(),
            x@ == a@,
            y@ == b@,
            text_less(a@, b@) == text_less(a@.skip(i as int), b@.skip(i as int)),
        decreases x.len() - i,
    {
        proof {
            let p = a@.skip(i as int);
            let q = b@.skip(i as int);
            assert(p[0] == a@[i as int]);
            assert(q[0] == b@[i as int]);
            assert(p.drop_first() == a@.skip(i + 1));
            assert(q.drop_first() == b@.skip(i + 1));
        }
        if x[i] != y[i] {
            return x[i] < y[i];
        }
        i += 1;
    }
    i < y.len()
}

fn digit_text(d: u64) -> (r: &'static str)
    requires
        d < 10,
    ensures
        r@ == seq![digit_char(d as nat)],
{
    proof {
        reveal_strlit("0");
        reveal_strlit("1");
        reveal_strlit("2");
        reveal_strlit("3");
        reveal_strlit("4");
        reveal_strlit("5");
        reveal_strlit("6");
        reveal_strlit("7");
        reveal_strlit("8");
        reveal_strlit("9");
    }
    let r = if d == 0 {
        "0"
    } else if d == 1 {
        "1"
    } else if d == 2 {
        "2"
    } else if d == 3 {
        "3"
    } else if d == 4 {
        "4"
    } else if d == 5 {
        "5"
    } else if d == 6 {
        "6"
    } else if d == 7 {
        "7"
    } else if d == 8 {
        "8"
    } else {
        "9"
    };
    assert(r@ =~= seq![digit_char(d as nat)]);
    r
}

/// The lower-case form of a text by the rules of Unicode, which may change
/// the number of its characters. It is what `str::to_lowercase` returns.
pub uninterp spec fn unicode_lowercase(s: Seq<char>) -> Seq<char>;

/// `str::to_lowercase`: the lower-case form of the text by the rules of
/// Unicode. The result depends on the text alone.
#[verifier::external_body]
pub(crate) fn to_lowercase(s: &str) -> (r: String)
    ensures
        r@ == unicode_lowercase(s@),
{
    s.to_lowercase()
}

/// The decimal numeral of `n`.
pub fn decimal_text(n: u64) -> (r: String)
    ensures
        r@ == decimal(n as nat),
    decreases n,
{
    if n < 10 {
        digit_text(n).to_owned()
    } else {
        let mut r = decimal_text(n / 10);
        r.append(digit_text(n % 10));
        assert(r@ =~= decimal(n as nat));
        r
    }
}

/// `a` followed by `b`.
pub fn joined(a: &str, b: &str) -> (r: String)
    ensures
        r@ == a@ + b@,
{
    let mut r = a.to_owned();
    r.append(b);
    r
}

/// No text comes before itself.
pub proof fn lemma_text_less_irreflexive(a: Seq<char>)
    ensures
        !text_less(a, a),
    decreases a.len(),
{
    if a.len() > 0 {
        lemma_text_less_irreflexive(a.drop_first());
    }
}

/// Of two different texts one comes before the other.
pub proof fn lemma_text_less_total(a: Seq<char>, b: Seq<char>)
    ensures
        text_less(a, b) || text_less(b, a) || a == b,
    decreases a.len(),
{
    if a.len() == 0 || b.len() == 0 {
        if a.len() == 0 && b.len() == 0 {
            assert(a =~= b);
        }
    } else if a[0] == b[0] {
        lemma_text_less_total(a.drop_first(), b.drop_first());
        if a.drop_first() == b.drop_first() {
            assert(a =~= seq![a[0]] + a.drop_first());
            assert(b =~= seq![b[0]] + b.drop_first());
        }
    }
}

/// The lexical order of texts is transitive.
pub proof fn lemma_text_less_transitive(a: Seq<char>, b: Seq<char>, c: Seq<char>)
    requires
        text_less(a, b),
        text_less(b, c),
    ensures
        text_less(a, c),
    decreases a.len(),
{
    if a.len() > 0 && a[0] == b[0] && b[0] == c[0] {
        lemma_text_less_transitive(a.drop_first(), b.drop_first(), c.drop_first());
    }
}

/// Whether the key at position `a` is to stand before the key at position
/// `b`: the lesser text first, and of two equal texts the earlier position.
pub open spec fn comes_before(keys: Seq<Seq<char>>, a: int, b: int) -> bool {
    text_less(keys[a], keys[b]) || (keys[a] == keys[b] && a < b)
}

/// Whether `order` lists the positions of `keys` in ascending order of the
/// keys, equal keys in the order in which they stand.
pub open spec fn is_stable_order(keys: Seq<Seq<char>>, order: Seq<usize>) -> bool {
    &&& order.len() == keys.len()
    &&& forall|i: int| 0 <= i < order.len() ==> (#[trigger] order[i]) < keys.len()
    &&& forall|i: int, j: int|
        0 <= i < j < order.len() ==> comes_before(keys, order[i] as int, order[j] as int)
}

/// The items at the positions that `order` lists.
pub open spec fn arranged<A>(items: Seq<A>, order: Seq<usize>) -> Seq<A> {
    Seq::new(order.len(), |i: int| items[order[i] as int])
}

/// The positions of `keys` in ascending order of the keys; equal keys keep
/// the order in which they stand.
pub fn sorted_positions(keys: &Vec<String>) -> (order: Vec<usize>)
    ensures
        is_stable_order(keys.deep_view(), order@),
{
    let ghost texts = keys.deep_view();
    let mut order: Vec<usize> = Vec::new();
    let mut k: usize = 0;
    while k < keys.len()
        invariant
            k <= keys.len(),
            texts == keys.deep_view(),
            order.len() == k,
            forall|i: int| 0 <= i < k ==> (#[trigger] order@[i]) < k,
            forall|i: int, j: int|
                0 <= i < j < k ==> comes_before(texts, order@[i] as int, order@[j] as int),
        decreases keys.len() - k,
    {
        let mut at: usize = k;
        while at > 0 && text_precedes(keys[k].as_str(), keys[order[at - 1]].as_str())
            invariant
                at <= k < keys.len(),
                texts == keys.deep_view(),
                order.len() == k,
                forall|i: int| 0 <= i < k ==> (#[trigger] order@[i]) < k,
                forall|i: int| at <= i < k ==> text_less(texts[k as int], texts[order@[i] as int]),
            decreases at,
        {
            at -= 1;
        }
        proof {
            let before = order@;
            let after = before.insert(at as int, k);
            assert forall|i: int, j: int| 0 <= i < j < k + 1 implies comes_before(
                texts,
                after[i] as int,
                after[j] as int,
            ) by {
                if j == at {
                    // after[i] stood before the place of insertion
                    let held = texts[before[at - 1] as int];
                    let this = texts[before[i] as int];
                    let fresh = texts[k as int];
                    lemma_text_less_total(held, fresh);
                    lemma_text_less_total(this, fresh);
                    if i < at - 1 {
                        assert(comes_before(texts, before[i] as int, before[at - 1] as int));
                        if text_less(fresh, this) {
                            if text_less(this, held) {
                                lemma_text_less_transitive(fresh, this, held);
                            }
                        }
                    }
                } else if i == at {
                    assert(after[j] == before[j - 1]);
                } else if i < at && j < at {
                    assert(comes_before(texts, before[i] as int, before[j] as int));
                } else if i < at {
                    assert(after[j] == before[j - 1]);
                    assert(comes_before(texts, before[i] as int, before[j - 1] as int));
                } else {
                    assert(after[i] == before[i - 1]);
                    assert(after[j] == before[j - 1]);
                    assert(comes_before(texts, before[i - 1] as int, before[j - 1] as int));
                }
            }
            assert forall|i: int| 0 <= i < k + 1 implies (#[trigger] after[i]) < k + 1 by {
                if i < at {
                    assert(after[i] == before[i]);
                } else if i > at {
                    assert(after[i] == before[i - 1]);
                }
            }
        }
        order.insert(at, k);
        k += 1;
    }
    order
}

/// The value of a digit in the given radix: `0` to `9`, then the letters in
/// either case, as far as the radix goes.
pub open spec fn digit_value(c: char, radix: nat) -> Option<nat> {
    let value: Option<nat> = if '0' <= c && c <= '9' {
        Some((c as u32 - 0x30) as nat)
    } else if 'a' <= c && c <= 'z' {
        Some((c as u32 - 0x61 + 10) as nat)
    } else if 'A' <= c && c <= 'Z' {
        Some((c as u32 - 0x41 + 10) as nat)
    } else {
        None
    };
    match value {
        Some(v) => if v < radix {
            Some(v)
        } else {
            None
        },
        None => None,
    }
}

/// The number that a run of digits writes in the given radix; `None` where
/// a character is no digit. The empty run writes zero.
pub open spec fn digits_value(s: Seq<char>, radix: nat) -> Option<nat>
    decreases s.len(),
{
    if s.len() == 0 {
        Some(0)
    } else {
        match (digits_value(s.drop_last(), radix), digit_value(s.last(), radix)) {
            (Some(v), Some(d)) => Some(radix * v + d),
            _ => None,
        }
    }
}

/// A text read as an unsigned number of at most `max`: an optional `+`, then
/// at least one digit, and a value within the limit.
pub open spec fn parse_unsigned(s: Seq<char>, radix: nat, max: nat) -> Option<nat> {
    let digits = if s.len() > 0 && s[0] == '+' {
        s.drop_first()
    } else {
        s
    };
    if digits.len() == 0 {
        None
    } else {
        match digits_value(digits, radix) {
            Some(v) => if v <= max {
                Some(v)
            } else {
                None
            },
            None => None,
        }
    }
}

fn digit_of(c: char, radix: u32) -> (r: Option<u32>)
    requires
        2 <= radix <= 36,
    ensures
        match r {
            Some(d) => digit_value(c, radix as nat) == Some(d as nat) && d < radix,
            None => digit_value(c, radix as nat) is None,
        },
{
    let n: u32 = c as u32;
    let value: u32 = if 0x30 <= n && n <= 0x39 {
        n - 0x30
    } else if 0x61 <= n && n <= 0x7a {
        n - 0x61 + 10
    } else if 0x41 <= n && n <= 0x5a {
        n - 0x41 + 10
    } else {
        return None;
    };
    if value < radix {
        Some(value)
    } else {
        None
    }
}

/// A run of digits is a number only where each of its prefixes is one, and
/// it is no less than any of them.
proof fn lemma_digits_value_grows(s: Seq<char>, radix: nat, n: int)
    requires
        0 <= n <= s.len(),
        radix >= 1,
    ensures
        digits_value(s, radix) matches Some(v) ==> digits_value(s.take(n), radix) matches Some(p)
            && p <= v,
    decreases s.len(),
{
    if n == s.len() {
        assert(s.take(n) == s);
    } else {
        lemma_digits_value_grows(s.drop_last(), radix, n);
        assert(s.drop_last().take(n) == s.take(n));
        if let Some(v) = digits_value(s, radix) {
            let prev = digits_value(s.drop_last(), radix)->0;
            assert(prev <= radix * prev) by (nonlinear_arith)
                requires
                    radix >= 1,
            ;
        }
    }
}

/// Reads `chars[from..to]` as an unsigned number of at most `max` in the
/// given radix.
pub fn parse_unsigned_span(chars: &Vec<char>, from: usize, to: usize, radix: u32, max: u32) -> (r:
    Option<u32>)
    requires
        from <= to <= chars.len(),
        2 <= radix <= 36,
    ensures
        match r {
            Some(v) => parse_unsigned(
                chars@.subrange(from as int, to as int),
                radix as nat,
                max as nat,
            ) == Some(v as nat),
            None => parse_unsigned(
                chars@.subrange(from as int, to as int),
                radix as nat,
                max as nat,
            ) is None,
        },
{
    let ghost field = chars@.subrange(from as int, to as int);
    let mut start = from;
    if start < to && chars[start] == '+' {
        start += 1;
    }
    let ghost digits = chars@.subrange(start as int, to as int);
    proof {
        if from < to {
            assert(field[0] == chars@[from as int]);
        }
        if start > from {
            assert(field.drop_first() == digits);
        } else {
            assert(field == digits);
        }
    }
    if start == to {
        return None;
    }
    assert(parse_unsigned(field, radix as nat, max as nat) == match digits_value(
        digits,
        radix as nat,
    ) {
        Some(v) => if v <= max {
            Some(v)
        } else {
            None
        },
        None => None,
    });
    let mut value: u64 = 0;
    let mut i: usize = start;
    assert(digits.take(0) == Seq::<char>::empty());
    while i < to
        invariant
            start <= i <= to,
            to <= chars.len(),
            2 <= radix <= 36,
            digits == chars@.subrange(start as int, to as int),
            field == chars@.subrange(from as int, to as int),
            parse_unsigned(field, radix as nat, max as nat) == match digits_value(
                digits,
                radix as nat,
            ) {
                Some(v) => if v <= max {
                    Some(v)
                } else {
                    None
                },
                None => None,
            },
            digits_value(digits.take(i - start), radix as nat) == Some(value as nat),
            value <= max,
        decreases to - i,
    {
        let ghost prefix = digits.take(i - start + 1);
        proof {
            assert(prefix.drop_last() == digits.take(i - start));
            assert(prefix.last() == chars@[i as int]);
        }
        match digit_of(chars[i], radix) {
            None => {
                proof {
                    lemma_digits_value_grows(digits, radix as nat, i - start + 1);
                }
                return None;
            },
            Some(d) => {
                assert(value * radix <= 0xffff_ffff * 36) by (nonlinear_arith)
                    requires
                        value <= 0xffff_ffff,
                        radix <= 36,
                ;
                let ghost earlier = value;
                value = value * (radix as u64) + d as u64;
                assert(earlier * radix == radix * earlier) by (nonlinear_arith);
                assert(digits_value(prefix, radix as nat) == Some(value as nat));
                if value > max as u64 {
                    proof {
                        lemma_digits_value_grows(digits, radix as nat, i - start + 1);
                    }
                    return None;
                }
            },
        }
        i += 1;
    }
    assert(digits.take(to - start) == digits);
    Some(value as u32)
}

/// The bounds, within `chars`, of `chars[from..to]` without its leading
/// and trailing whitespace.
pub fn trim_span(chars: &Vec<char>, from: usize, to: usize) -> (r: (usize, usize))
    requires
        from <= to <= chars.len(),
    ensures
        from <= r.0 <= r.1 <= to,
        chars@.subrange(r.0 as int, r.1 as int) == trimmed(chars@.subrange(from as int, to as int)),
{
    let ghost part = chars@.subrange(from as int, to as int);
    let mut start: usize = from;
    while start < to && char_is_whitespace(chars[start])
        invariant
            from <= start <= to,
            to <= chars.len(),
            part == chars@.subrange(from as int, to as int),
            trim_start(part) == trim_start(chars@.subrange(start as int, to as int)),
        decreases to - start,
    {
        proof {
            let tail = chars@.subrange(start as int, to as int);
            assert(tail[0] == chars@[start as int]);
            assert(tail.drop_first() == chars@.subrange(start + 1, to as int));
        }
        start += 1;
    }
    assert(trim_start(part) == chars@.subrange(start as int, to as int)) by {
        let tail = chars@.subrange(start as int, to as int);
        if start < to {
            assert(tail[0] == chars@[start as int]);
        }
    }
    let mut end: usize = to;
    while end > start && char_is_whitespace(chars[end - 1])
        invariant
            start <= end <= to,
            to <= chars.len(),
            trimmed(part) == trim_end(chars@.subrange(start as int, end as int)),
        decreases end - start,
    {
        proof {
            let held = chars@.subrange(start as int, end as int);
            assert(held.last() == chars@[end - 1]);
            assert(held.drop_last() == chars@.subrange(start as int, end - 1));
        }
        end -= 1;
    }
    assert(trimmed(part) == chars@.subrange(start as int, end as int)) by {
        let held = chars@.subrange(start as int, end as int);
        if end > start {
            assert(held.last() == chars@[end - 1]);
        }
    }
    (start, end)
}

/// The number of characters of `s` before the first `sep`.
pub open spec fn part_len(s: Seq<char>, sep: char) -> nat
    decreases s.len(),
{
    if s.len() == 0 || s[0] == sep {
        0
    } else {
        1 + part_len(s.drop_first(), sep)
    }
}

/// The parts of `s` between the separators; a text without a separator is
/// its own single part.
pub open spec fn split_on(s: Seq<char>, sep: char) -> Seq<Seq<char>>
    decreases s.len(),
{
    let n = part_len(s, sep) as int;
    if n >= s.len() {
        seq![s]
    } else {
        seq![s.take(n)] + split_on(s.skip(n + 1), sep)
    }
}

/// The first index in `from..to` that holds `sep`, or `to`.
pub fn part_end(chars: &Vec<char>, from: usize, to: usize, sep: char) -> (r: usize)
    requires
        from <= to <= chars.len(),
    ensures
        from <= r <= to,
        r - from == part_len(chars@.subrange(from as int, to as int), sep),
        r < to ==> chars@[r as int] == sep,
{
    let mut i = from;
    while i < to && chars[i] != sep
        invariant
            from <= i <= to,
            to <= chars.len(),
            part_len(chars@.subrange(from as int, to as int), sep) == (i - from) + part_len(
                chars@.subrange(i as int, to as int),
                sep,
            ),
        decreases to - i,
    {
        proof {
            let rest = chars@.subrange(i as int, to as int);
            assert(rest[0] == chars@[i as int]);
            assert(rest.drop_first() == chars@.subrange(i + 1, to as int));
        }
        i += 1;
    }
    proof {
        let rest = chars@.subrange(i as int, to as int);
        if i < to {
            assert(rest[0] == chars@[i as int]);
        }
    }
    i
}

} // verus!
