//! Cutting and trimming of text, and the arithmetic of instants.

use crate::entries::{lookup, EntryView};
use crate::text::{
    alike, all_digits, among, as_str_option, before, begins_with, char_position, chars_of,
    contains, cut_before, cut_once, decimal, digits_value, either, find, folded, has, is_digit,
    is_white, lemma_char_position, lemma_char_position_is, lemma_char_position_none,
    lemma_decimal, lemma_position, number, occurs_at, opt_same, parse_number, parse_u16,
    parse_u32, parse_unsigned, pieces, position, same, split, split_once, strip_prefix, trim,
    trim_end, trim_start, trimmed, views, white, without_plus,
};
use crate::time::{whole_seconds, Timestamp};
use vstd::prelude::*;
use vstd::string::*;

verus! {

/// A pattern stands where its characters stand, one for one.
pub proof fn law_occurs_at(text: Seq<char>, pat: Seq<char>, at: int)
    ensures
        occurs_at(text, pat, at) <==> 0 <= at && at + pat.len() <= text.len() && forall|k: int|
            0 <= k < pat.len() ==> text[at + k] == #[trigger] pat[k],
{
    if 0 <= at && at + pat.len() <= text.len() {
        let cut = text.subrange(at, at + pat.len());
        assert forall|k: int| 0 <= k < pat.len() implies #[trigger] cut[k] == text[at + k] by {}
        if forall|k: int| 0 <= k < pat.len() ==> text[at + k] == #[trigger] pat[k] {
            assert(cut =~= pat);
        } else {
            let k = choose|k: int| 0 <= k < pat.len() && text[at + k] != #[trigger] pat[k];
            assert(cut[k] != pat[k]);
        }
    }
}

/// A text holds a pattern, begins with it or has it at a first place exactly where the
/// pattern stands there.
pub proof fn law_searching(text: Seq<char>, pat: Seq<char>)
    ensures
        has(text, pat) <==> exists|i: int| occurs_at(text, pat, i),
        begins_with(text, pat) <==> occurs_at(text, pat, 0),
        position(text, pat) is None <==> !(exists|i: int| occurs_at(text, pat, i)),
        position(text, pat) matches Some(i) ==> occurs_at(text, pat, i) && forall|j: int|
            0 <= j < i ==> !occurs_at(text, pat, j),
{
    lemma_position(text, pat);
}

/// The text of a number is digits, with a plus sign before them or without, and denotes no
/// more than is allowed.
pub proof fn law_number_is_digits(s: Seq<char>, max: nat)
    ensures
        parse_unsigned(s, max) matches Some(n) ==> n <= max && s.len() > 0 && is_digit(s.last())
            && forall|i: int|
            0 <= i < s.len() ==> is_digit(#[trigger] s[i]) || i == 0 && s[i] == '+',
{
    if parse_unsigned(s, max) is Some {
        let digits = without_plus(s);
        assert(digits.last() == s.last());
        assert(is_digit(digits[digits.len() - 1]));
        assert forall|i: int| 0 <= i < s.len() implies is_digit(#[trigger] s[i]) || i == 0 && s[i]
            == '+' by {
            if digits == s {
                assert(is_digit(digits[i]));
            } else if i > 0 {
                assert(digits[i - 1] == s[i]);
                assert(is_digit(digits[i - 1]));
            }
        }
    }
}

/// The ten digits, and nothing else, are digits.
pub proof fn law_digits(c: char)
    ensures
        is_digit(c) <==> 0x30 <= c as u32 <= 0x39,
{
}

/// A text without the separator is one piece.
pub proof fn law_split_one_piece(s: Seq<char>, sep: char)
    requires
        !s.contains(sep),
    ensures
        split(s, sep) == seq![s],
{
    assert forall|j: int| 0 <= j < s.len() implies s[j] != sep by {
        assert(s.contains(s[j]));
    }
    lemma_char_position_none(s, sep);
}

/// Two lists with a separator between them have the pieces of the one and then those of
/// the other.
pub proof fn law_split_joined(a: Seq<char>, sep: char, b: Seq<char>)
    ensures
        split(a + seq![sep] + b, sep) == split(a, sep) + split(b, sep),
    decreases a.len(),
{
    let s = a + seq![sep] + b;
    lemma_char_position(a, sep);
    match char_position(a, sep) {
        Some(i) => {
            assert forall|j: int| 0 <= j < i implies s[j] != sep by {
                assert(s[j] == a[j]);
            }
            lemma_char_position_is(s, sep, i);
            let rest = a.skip(i + 1);
            law_split_joined(rest, sep, b);
            assert(s.skip(i + 1) =~= rest + seq![sep] + b);
            assert(s.take(i) =~= a.take(i));
            assert(seq![a.take(i)] + (split(rest, sep) + split(b, sep)) =~= seq![a.take(i)] + split(
                rest,
                sep,
            ) + split(b, sep));
        },
        None => {
            let i = a.len() as int;
            assert forall|j: int| 0 <= j < i implies s[j] != sep by {
                assert(s[j] == a[j]);
            }
            lemma_char_position_is(s, sep, i);
            assert(s.take(i) =~= a);
            assert(s.skip(i + 1) =~= b);
        },
    }
}

/// A text is cut in two at the first separator, and not at all where there is none.
pub proof fn law_split_once(a: Seq<char>, c: char, b: Seq<char>)
    requires
        !a.contains(c),
    ensures
        split_once(a + seq![c] + b, c) == Some((a, b)),
        split_once(a, c) is None,
        before(a + seq![c] + b, c) == a,
        before(a, c) == a,
{
    let s = a + seq![c] + b;
    assert forall|j: int| 0 <= j < a.len() implies s[j] != c && a[j] != c by {
        assert(a.contains(a[j]));
        assert(s[j] == a[j]);
    }
    lemma_char_position_is(s, c, a.len() as int);
    lemma_char_position_none(a, c);
    assert(s.take(a.len() as int) =~= a);
    assert(s.skip(a.len() as int + 1) =~= b);
}

/// All characters of a text are white space.
pub open spec fn all_white(s: Seq<char>) -> bool {
    forall|i: int| 0 <= i < s.len() ==> is_white(#[trigger] s[i])
}

/// A text neither begins nor ends with white space.
pub open spec fn has_dark_ends(s: Seq<char>) -> bool {
    s.len() > 0 ==> !is_white(s[0]) && !is_white(s.last())
}

/// White space at the start goes.
proof fn lemma_trim_start(w: Seq<char>, s: Seq<char>)
    requires
        all_white(w),
        s.len() > 0 ==> !is_white(s[0]),
    ensures
        trim_start(w + s) == s,
    decreases w.len(),
{
    if w.len() == 0 {
        assert(w + s =~= s);
    } else {
        assert(is_white(w[0]));
        assert((w + s)[0] == w[0]);
        assert((w + s).skip(1) =~= w.skip(1) + s);
        assert forall|i: int| 0 <= i < w.skip(1).len() implies is_white(#[trigger] w.skip(1)[i]) by {
            assert(w.skip(1)[i] == w[i + 1]);
        }
        lemma_trim_start(w.skip(1), s);
    }
}

/// White space at the end goes.
proof fn lemma_trim_end(s: Seq<char>, w: Seq<char>)
    requires
        all_white(w),
        s.len() > 0 ==> !is_white(s.last()),
    ensures
        trim_end(s + w) == s,
    decreases w.len(),
{
    if w.len() == 0 {
        assert(s + w =~= s);
    } else {
        assert(is_white(w[w.len() - 1]));
        assert((s + w).last() == w.last());
        assert((s + w).drop_last() =~= s + w.drop_last());
        assert forall|i: int| 0 <= i < w.drop_last().len() implies is_white(
            #[trigger] w.drop_last()[i],
        ) by {
            assert(w.drop_last()[i] == w[i]);
        }
        lemma_trim_end(s, w.drop_last());
    }
}

/// Trimming takes away the white space at the two ends and nothing else.
pub proof fn law_trim(left: Seq<char>, s: Seq<char>, right: Seq<char>)
    requires
        all_white(left),
        all_white(right),
        has_dark_ends(s),
    ensures
        trim(left + s + right) == s,
{
    if s.len() > 0 {
        assert((s + right)[0] == s[0]);
        lemma_trim_start(left, s + right);
        assert(left + s + right =~= left + (s + right));
        lemma_trim_end(s, right);
    } else {
        let w = left + right;
        assert(left + s + right =~= w);
        assert forall|i: int| 0 <= i < w.len() implies is_white(#[trigger] w[i]) by {
            if i < left.len() {
                assert(w[i] == left[i]);
            } else {
                assert(w[i] == right[i - left.len()]);
            }
        }
        lemma_trim_start(w, s);
        assert(w + s =~= w);
        lemma_trim_end(s, s);
        assert(s + s =~= s);
    }
}

/// Decimal notation neither begins nor ends with white space and holds no separator.
pub proof fn lemma_decimal_is_dark(n: nat)
    ensures
        decimal(n).len() > 0,
        has_dark_ends(decimal(n)),
        !decimal(n).contains(','),
        !decimal(n).contains(':'),
        !decimal(n).contains('/'),
        trim(decimal(n)) == decimal(n),
{
    lemma_decimal(n);
    let d = decimal(n);
    assert(is_digit(d[0]));
    assert(is_digit(d[d.len() - 1]));
    assert forall|i: int| 0 <= i < d.len() implies d[i] != ',' && d[i] != ':' && d[i] != '/' by {
        assert(is_digit(d[i]));
    }
    let none = Seq::<char>::empty();
    law_trim(none, d, none);
    assert(none + d + none =~= d);
}

/// The first of the entries with a key counts, and only entries with that key do.
pub proof fn law_lookup(entries: Seq<EntryView>, key: Seq<char>)
    ensures
        match lookup(entries, key) {
            Some(value) => exists|i: int|
                0 <= i < entries.len() && (#[trigger] entries[i]).key == key && entries[i].value
                    == value && forall|j: int| 0 <= j < i ==> (#[trigger] entries[j]).key != key,
            None => forall|j: int| 0 <= j < entries.len() ==> (#[trigger] entries[j]).key != key,
        },
    decreases entries.len(),
{
    if entries.len() > 0 && entries[0].key != key {
        let rest = entries.drop_first();
        law_lookup(rest, key);
        match lookup(rest, key) {
            Some(value) => {
                let i = choose|i: int|
                    0 <= i < rest.len() && (#[trigger] rest[i]).key == key && rest[i].value == value
                        && forall|j: int| 0 <= j < i ==> (#[trigger] rest[j]).key != key;
                assert(entries[i + 1] == rest[i]);
                assert forall|j: int| 0 <= j < i + 1 implies (#[trigger] entries[j]).key != key by {
                    if j > 0 {
                        assert(entries[j] == rest[j - 1]);
                    }
                }
            },
            None => {
                assert forall|j: int| 0 <= j < entries.len() implies (#[trigger] entries[j]).key
                    != key by {
                    if j > 0 {
                        assert(entries[j] == rest[j - 1]);
                    }
                }
            },
        }
    }
}

/// The whole seconds of a span are as many as fit into it, counted away from zero in
/// neither direction.
pub proof fn law_whole_seconds(nanos: int)
    ensures
        nanos >= 0 ==> 0 <= nanos - 1_000_000_000 * whole_seconds(nanos) < 1_000_000_000,
        nanos <= 0 ==> -1_000_000_000 < nanos - 1_000_000_000 * whole_seconds(nanos) <= 0,
        whole_seconds(-nanos) == -whole_seconds(nanos),
{
}

/// Each second added to an instant is a billion nanoseconds.
pub proof fn law_later(t: Timestamp, secs: nat)
    requires
        t.secs + secs <= i64::MAX,
    ensures
        t.later(secs).total_nanos() == t.total_nanos() + 1_000_000_000 * secs,
{
}

/// A plus sign and zeros before a number do not change it.
pub proof fn law_padded_number_is_read(zeros: Seq<char>, n: nat, max: nat)
    requires
        forall|i: int| 0 <= i < zeros.len() ==> #[trigger] zeros[i] == '0',
    ensures
        parse_unsigned(zeros + decimal(n), max) == (if n <= max {
            Some(n)
        } else {
            None
        }),
        parse_unsigned(seq!['+'] + zeros + decimal(n), max) == (if n <= max {
            Some(n)
        } else {
            None
        }),
{
    lemma_decimal(n);
    lemma_zeros(zeros, decimal(n));
    let s = zeros + decimal(n);
    assert forall|i: int| 0 <= i < s.len() implies is_digit(#[trigger] s[i]) by {
        if i < zeros.len() {
            assert(s[i] == zeros[i]);
        } else {
            assert(s[i] == decimal(n)[i - zeros.len()]);
        }
    }
    assert(is_digit(s[0]));
    let t = seq!['+'] + zeros + decimal(n);
    assert(t.skip(1) =~= s);
}

/// Zeros before digits do not change what they denote.
proof fn lemma_zeros(zeros: Seq<char>, digits: Seq<char>)
    requires
        forall|i: int| 0 <= i < zeros.len() ==> #[trigger] zeros[i] == '0',
        all_digits(digits),
    ensures
        digits_value(zeros + digits) == digits_value(digits),
    decreases zeros.len() + digits.len(),
{
    let s = zeros + digits;
    if digits.len() > 0 {
        assert(s.drop_last() =~= zeros + digits.drop_last());
        assert(s.last() == digits.last());
        assert forall|i: int| 0 <= i < digits.drop_last().len() implies is_digit(
            #[trigger] digits.drop_last()[i],
        ) by {
            assert(digits.drop_last()[i] == digits[i]);
        }
        lemma_zeros(zeros, digits.drop_last());
    } else if zeros.len() > 0 {
        assert(s =~= zeros);
        assert(s.last() == zeros[zeros.len() - 1]);
        assert(s.drop_last() =~= zeros.drop_last() + digits);
        assert forall|i: int| 0 <= i < zeros.drop_last().len() implies #[trigger] zeros.drop_last()[i]
            == '0' by {
            assert(zeros.drop_last()[i] == zeros[i]);
        }
        lemma_zeros(zeros.drop_last(), digits);
    } else {
        assert(s =~= digits);
    }
}

// ---------------------------------------------------------------------------
// Calls
// ---------------------------------------------------------------------------

/// Letters are the same without regard to their case where they are the same, or one is
/// the capital of the other.
pub proof fn law_same_letters(a: &str, b: &str, r: bool)
    requires
        call_ensures(alike, (a, b), r),
    ensures
        r <==> a@.len() == b@.len() && forall|i: int|
            0 <= i < a@.len() ==> {
                let c = (#[trigger] a@[i]) as int;
                let d = b@[i] as int;
                c == d || 0x61 <= c <= 0x7a && d == c - 0x20 || 0x61 <= d <= 0x7a && c == d - 0x20
            },
{
    assert forall|c: char, d: char| #[trigger] folded(c) == #[trigger] folded(d) <==> (c as int
        == d as int || 0x61 <= c as int <= 0x7a && d as int == c as int - 0x20 || 0x61 <= d as int
        <= 0x7a && c as int == d as int - 0x20) by {}
    if a@.len() == b@.len() {
        assert forall|i: int| 0 <= i < a@.len() implies (folded(#[trigger] a@[i]) == folded(b@[i])
            <==> {
            let c = a@[i] as int;
            let d = b@[i] as int;
            c == d || 0x61 <= c <= 0x7a && d == c - 0x20 || 0x61 <= d <= 0x7a && c == d - 0x20
        }) by {}
    }
}

/// White space: the ASCII controls from tab to carriage return, and the spaces and line
/// separators of Unicode.
pub proof fn law_white_space(c: char, r: bool)
    requires
        call_ensures(white, (c,), r),
    ensures
        r <==> set![
            0x9int, 0xa, 0xb, 0xc, 0xd, 0x20, 0x85, 0xa0, 0x1680, 0x2000, 0x2001, 0x2002, 0x2003,
            0x2004, 0x2005, 0x2006, 0x2007, 0x2008, 0x2009, 0x200a, 0x2028, 0x2029, 0x202f, 0x205f,
            0x3000,
        ].contains(c as int),
{
}

/// Comparing and searching.
pub proof fn law_search_calls(
    text: &str,
    pat: &str,
    equal: bool,
    found: Option<usize>,
    inside: bool,
    rest: Option<&str>,
    chars: Vec<char>,
)
    requires
        call_ensures(same, (text, pat), equal),
        call_ensures(find, (text, pat), found),
        call_ensures(contains, (text, pat), inside),
        call_ensures(strip_prefix, (text, pat), rest),
        call_ensures(chars_of, (text,), chars),
    ensures
        equal <==> text@ == pat@,
        chars@ == text@,
        inside <==> exists|i: int| occurs_at(text@, pat@, i),
        found is Some <==> inside,
        found matches Some(i) ==> occurs_at(text@, pat@, i as int) && forall|j: int|
            0 <= j < i ==> !occurs_at(text@, pat@, j),
        rest is Some <==> occurs_at(text@, pat@, 0),
        rest matches Some(s) ==> text@ == pat@ + s@,
{
    law_searching(text@, pat@);
    if let Some(s) = rest {
        assert(text@.subrange(0, pat@.len() as int) =~= pat@);
        assert(text@ =~= pat@ + s@);
    }
}

/// Cutting and trimming: what is cut off and what stays make up the whole.
pub proof fn law_cut_calls(
    s: &str,
    c: char,
    head: &str,
    parts: Option<(&str, &str)>,
    kept: &str,
    list: Vec<String>,
    blank: bool,
)
    requires
        call_ensures(cut_before, (s, c), head),
        call_ensures(cut_once, (s, c), parts),
        call_ensures(trimmed, (s,), kept),
        call_ensures(pieces, (s, c), list),
        call_ensures(white, (c,), blank),
    ensures
        parts is Some <==> s@.contains(c),
        parts matches Some(p) ==> s@ == p.0@ + seq![c] + p.1@ && !p.0@.contains(c) && head@ == p.0@,
        parts is None ==> head@ == s@,
        kept@ == trim(s@),
        views(list@) == split(s@, c),
        blank == is_white(c),
{
    lemma_char_position(s@, c);
    match parts {
        Some(p) => {
            let i = char_position(s@, c)->0;
            assert(p.0@ =~= s@.subrange(0, i));
            assert(s@ =~= p.0@ + seq![c] + p.1@);
            assert forall|k: int| 0 <= k < p.0@.len() implies p.0@[k] != c by {
                assert(p.0@[k] == s@[k]);
            }
            assert(s@[i] == c);
        },
        None => {},
    }
}

/// Optional and listed strings.
pub proof fn law_choice_calls(
    a: Option<String>,
    b: Option<String>,
    equal: bool,
    first: Option<&str>,
    borrowed: Option<&str>,
    list: Vec<String>,
    s: &str,
    listed: bool,
)
    requires
        call_ensures(opt_same, (&a, &b), equal),
        call_ensures(either, (&a, &b), first),
        call_ensures(as_str_option, (&a,), borrowed),
        call_ensures(among, (&list, s), listed),
    ensures
        equal <==> (a is None && b is None || a is Some && b is Some && a->0@ == b->0@),
        a matches Some(text) ==> (first matches Some(t) && t@ == text@),
        a is None ==> (b matches Some(text) ==> (first matches Some(t) && t@ == text@)),
        a is None && b is None ==> first is None,
        borrowed is Some <==> a is Some,
        borrowed matches Some(t) ==> t@ == a->0@,
        listed <==> exists|i: int| 0 <= i < list@.len() && (#[trigger] list@[i])@ == s@,
{
    let all = views(list@);
    assert(all.len() == list@.len());
    if all.contains(s@) {
        let i = choose|i: int| 0 <= i < all.len() && all[i] == s@;
        assert(list@[i]@ == s@);
    }
    if exists|i: int| 0 <= i < list@.len() && (#[trigger] list@[i])@ == s@ {
        let i = choose|i: int| 0 <= i < list@.len() && (#[trigger] list@[i])@ == s@;
        assert(all[i] == s@);
    }
}

/// A number that is written down is read back, where it fits.
pub proof fn law_number_calls(
    n: u64,
    s: String,
    text: &str,
    max: u64,
    big: Option<u64>,
    port: Option<u16>,
    word: Option<u32>,
)
    requires
        call_ensures(number, (n,), s),
        call_ensures(parse_number, (text, max), big),
        call_ensures(parse_u16, (text,), port),
        call_ensures(parse_u32, (text,), word),
    ensures
        s@ == decimal(n as nat),
        text@ == s@ ==> big == (if n <= max {
            Some(n)
        } else {
            None
        }),
        text@ == s@ ==> port == (if n <= 65535 {
            Some(n as u16)
        } else {
            None
        }),
        text@ == s@ ==> word == (if n <= 0xffff_ffff {
            Some(n as u32)
        } else {
            None
        }),
        big matches Some(m) ==> parse_unsigned(text@, max as nat) == Some(m as nat),
        port matches Some(m) ==> parse_unsigned(text@, 65535) == Some(m as nat),
        word matches Some(m) ==> parse_unsigned(text@, 0xffff_ffff) == Some(m as nat),
        big is None ==> parse_unsigned(text@, max as nat) is None,
        port is None ==> parse_unsigned(text@, 65535) is None,
        word is None ==> parse_unsigned(text@, 0xffff_ffff) is None,
{
    lemma_decimal(n as nat);
    assert(is_digit(decimal(n as nat)[0]));
}

/// Instants are ordered by their seconds, and then by their nanoseconds.
pub proof fn law_instants(a: Timestamp, b: Timestamp)
    requires
        a.wf(),
        b.wf(),
    ensures
        a.nanos < 1_000_000_000,
        a.total_nanos() < b.total_nanos() <==> a.secs < b.secs || a.secs == b.secs && a.nanos
            < b.nanos,
        a.total_nanos() - b.total_nanos() == (a.secs - b.secs) * 1_000_000_000 + (a.nanos
            - b.nanos),
{
}

/// An instant is made of seconds in the calendar and less than a second of nanoseconds.
/// The seconds between two are whole, and seconds can be added.
pub proof fn law_instant_calls(
    secs: i64,
    nanos: u32,
    made: Option<Timestamp>,
    a: Timestamp,
    b: Timestamp,
    between: i64,
    more: u32,
    then: Timestamp,
)
    requires
        call_ensures(Timestamp::new, (secs, nanos), made),
        call_ensures(Timestamp::seconds_since, (&a, &b), between),
        call_ensures(Timestamp::plus_seconds, (&b, more), then),
        a.wf(),
        b.wf(),
    ensures
        made matches Some(t) ==> t.secs == secs && t.nanos == nanos,
        made is Some <==> -8_334_601_228_800 <= secs <= 8_210_266_876_799 && nanos < 1_000_000_000,
        ({
            let span = a.total_nanos() - b.total_nanos();
            &&& span >= 0 ==> between * 1_000_000_000 <= span < (between + 1) * 1_000_000_000
            &&& span <= 0 ==> (between - 1) * 1_000_000_000 < span <= between * 1_000_000_000
        }),
        then.total_nanos() == b.total_nanos() + more * 1_000_000_000,
{
    law_whole_seconds(a.total_nanos() - b.total_nanos());
}

} // verus!
