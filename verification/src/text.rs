//! Strings as sequences of characters: searching, splitting, trimming, and the
//! decimal notation of unsigned numbers.

use vstd::prelude::*;
use vstd::string::*;

verus! {

// ---------------------------------------------------------------------------
// Searching
// ---------------------------------------------------------------------------

/// `pat` stands in `text` at position `at`.
pub open spec fn occurs_at(text: Seq<char>, pat: Seq<char>, at: int) -> bool {
    &&& 0 <= at
    &&& at + pat.len() <= text.len()
    &&& text.subrange(at, at + pat.len()) == pat
}

/// `at` is the leftmost position at which `pat` stands in `text`.
pub open spec fn is_first(text: Seq<char>, pat: Seq<char>, at: int) -> bool {
    &&& occurs_at(text, pat, at)
    &&& forall|j: int| 0 <= j < at ==> !occurs_at(text, pat, j)
}

/// The leftmost position at which `pat` stands in `text`, if it stands there at all.
pub open spec fn position(text: Seq<char>, pat: Seq<char>) -> Option<int> {
    if exists|i: int| is_first(text, pat, i) {
        Some(choose|i: int| is_first(text, pat, i))
    } else {
        None
    }
}

/// `pat` stands somewhere in `text`.
pub open spec fn has(text: Seq<char>, pat: Seq<char>) -> bool {
    exists|i: int| occurs_at(text, pat, i)
}

/// A leftmost position is the position.
pub proof fn lemma_position_is(text: Seq<char>, pat: Seq<char>, at: int)
    requires
        is_first(text, pat, at),
    ensures
        position(text, pat) == Some(at),
{
    let i = choose|i: int| is_first(text, pat, i);
    assert(is_first(text, pat, i));
    if i < at {
        assert(!occurs_at(text, pat, i));
    }
    if at < i {
        assert(!occurs_at(text, pat, at));
    }
}

/// An occurrence at `at` gives a leftmost one at or before it.
proof fn lemma_occurrence_gives_first(text: Seq<char>, pat: Seq<char>, at: int)
    requires
        occurs_at(text, pat, at),
    ensures
        exists|i: int| i <= at && is_first(text, pat, i),
    decreases at,
{
    if exists|j: int| 0 <= j < at && occurs_at(text, pat, j) {
        let j = choose|j: int| 0 <= j < at && occurs_at(text, pat, j);
        lemma_occurrence_gives_first(text, pat, j);
    } else {
        assert(is_first(text, pat, at));
    }
}

/// What a position says about occurrences: there is one exactly when there is a
/// position, and the position is the leftmost.
pub proof fn lemma_position(text: Seq<char>, pat: Seq<char>)
    ensures
        position(text, pat) is Some <==> has(text, pat),
        position(text, pat) matches Some(i) ==> is_first(text, pat, i),
{
    if has(text, pat) {
        let i = choose|i: int| occurs_at(text, pat, i);
        lemma_occurrence_gives_first(text, pat, i);
    }
    if position(text, pat) is Some {
        let i = choose|i: int| is_first(text, pat, i);
        assert(is_first(text, pat, i));
        assert(occurs_at(text, pat, i));
    }
}

/// The letter without regard to its case, by its code; other characters keep theirs.
pub open spec fn folded(c: char) -> int {
    if 'a' <= c && c <= 'z' {
        c as int - 32
    } else {
        c as int
    }
}

/// Two texts are the same but for the case of ASCII letters.
pub open spec fn same_letters(a: Seq<char>, b: Seq<char>) -> bool {
    a.len() == b.len() && forall|i: int|
        0 <= i < a.len() ==> folded(#[trigger] a[i]) == folded(b[i])
}

/// The letter without regard to its case, by its code.
fn fold(c: char) -> (n: u32)
    ensures
        n == folded(c),
{
    if 'a' <= c && c <= 'z' {
        c as u32 - 32
    } else {
        c as u32
    }
}

/// Whether two strings are the same but for the case of ASCII letters.
pub fn alike(a: &str, b: &str) -> (r: bool)
    ensures
        r == same_letters(a@, b@),
{
    let x = chars_of(a);
    let y = chars_of(b);
    if x.len() != y.len() {
        return false;
    }
    let mut i: usize = 0;
    while i < x.len()
        invariant
            x@ == a@,
            y@ == b@,
            x.len() == y.len(),
            i <= x.len(),
            forall|k: int| 0 <= k < i ==> folded(#[trigger] x@[k]) == folded(y@[k]),
        decreases x.len() - i,
    {
        if fold(x[i]) != fold(y[i]) {
            assert(folded(x@[i as int]) != folded(y@[i as int]));
            return false;
        }
        i += 1;
    }
    true
}

/// `text` and `pat`, laid over it at position `at`, differ in some place.
pub open spec fn differs_at(text: Seq<char>, pat: Seq<char>, at: int) -> bool {
    exists|m: int|
        0 <= m < pat.len() && at + m < text.len() && #[trigger] text[at + m] != #[trigger] pat[m]
}

/// No occurrence of `pat` begins in `text`, whatever follows it.
pub open spec fn clear_of(text: Seq<char>, pat: Seq<char>) -> bool {
    forall|k: int| 0 <= k < text.len() ==> #[trigger] differs_at(text, pat, k)
}

/// Two texts that are clear of a pattern are so together.
pub proof fn lemma_clear_parts(a: Seq<char>, b: Seq<char>, pat: Seq<char>)
    requires
        clear_of(a, pat),
        clear_of(b, pat),
    ensures
        clear_of(a + b, pat),
{
    let s = a + b;
    assert forall|k: int| 0 <= k < s.len() implies #[trigger] differs_at(s, pat, k) by {
        if k < a.len() {
            assert(differs_at(a, pat, k));
            let m = choose|m: int|
                0 <= m < pat.len() && k + m < a.len() && #[trigger] a[k + m] != #[trigger] pat[m];
            assert(s[k + m] != pat[m]);
        } else {
            let j = k - a.len();
            assert(differs_at(b, pat, j));
            let m = choose|m: int|
                0 <= m < pat.len() && j + m < b.len() && #[trigger] b[j + m] != #[trigger] pat[m];
            assert(s[k + m] == b[j + m]);
            assert(s[k + m] != pat[m]);
        }
    }
}

/// Behind a text that is clear of a pattern, the pattern stands first where it begins
/// what follows.
pub proof fn lemma_position_behind(before: Seq<char>, pat: Seq<char>, after: Seq<char>)
    requires
        clear_of(before, pat),
    ensures
        position(before + pat + after, pat) == Some(before.len() as int),
{
    let s = before + pat + after;
    let at = before.len() as int;
    assert(s.subrange(at, at + pat.len()) =~= pat);
    assert forall|j: int| 0 <= j < at implies !occurs_at(s, pat, j) by {
        assert(differs_at(before, pat, j));
        let m = choose|m: int|
            0 <= m < pat.len() && j + m < before.len() && #[trigger] before[j + m]
                != #[trigger] pat[m];
        if occurs_at(s, pat, j) {
            assert(s.subrange(j, j + pat.len())[m] == s[j + m]);
        }
    }
    lemma_position_is(s, pat, at);
}

/// A one-character pattern occurs where that character stands.
pub proof fn lemma_char_occurs(text: Seq<char>, c: char, at: int)
    ensures
        occurs_at(text, seq![c], at) <==> 0 <= at < text.len() && text[at] == c,
{
    if 0 <= at < text.len() {
        assert(text.subrange(at, at + 1)[0] == text[at]);
        if text[at] == c {
            assert(text.subrange(at, at + 1) =~= seq![c]);
        }
    }
}

/// The characters of a string.
pub fn chars_of(s: &str) -> (v: Vec<char>)
    ensures
        v@ == s@,
{
    let mut v: Vec<char> = Vec::new();
    for c in it: s.chars()
        invariant
            v@ == it.seq().take(it.index() as int),
            it.seq() == s@,
    {
        v.push(c);
    }
    v
}

/// Whether two strings hold the same characters.
pub fn same(a: &str, b: &str) -> (r: bool)
    ensures
        r == (a@ == b@),
{
    a.to_owned() == b.to_owned()
}

/// Whether `pat` stands in `text` at `at`.
fn matches_at(text: &Vec<char>, pat: &Vec<char>, at: usize) -> (r: bool)
    requires
        at + pat@.len() <= text@.len(),
    ensures
        r == occurs_at(text@, pat@, at as int),
{
    let size: usize = text.len();
    let mut k: usize = 0;
    while k < pat.len()
        invariant
            at + pat@.len() <= text@.len() == size,
            k <= pat@.len(),
            forall|j: int| 0 <= j < k ==> text@[at + j] == pat@[j],
        decreases pat@.len() - k,
    {
        if text[at + k] != pat[k] {
            assert(text@.subrange(at as int, at + pat@.len())[k as int] == text@[at + k]);
            return false;
        }
        k += 1;
    }
    assert(text@.subrange(at as int, at + pat@.len()) =~= pat@);
    true
}

/// The leftmost position, in characters, at which `pat` stands in `text`.
pub fn find(text: &str, pat: &str) -> (r: Option<usize>)
    ensures
        match r {
            Some(i) => position(text@, pat@) == Some(i as int) && i + pat@.len() <= text@.len(),
            None => position(text@, pat@) is None,
        },
{
    let t = chars_of(text);
    let p = chars_of(pat);
    if t.len() >= p.len() {
        let last: usize = t.len() - p.len();
        let mut i: usize = 0;
        loop
            invariant
                t@ == text@,
                p@ == pat@,
                i <= last,
                last + p@.len() == t@.len(),
                forall|j: int| 0 <= j < i ==> !occurs_at(t@, p@, j),
            ensures
                forall|j: int| 0 <= j <= last ==> !occurs_at(t@, p@, j),
            decreases last - i,
        {
            if matches_at(&t, &p, i) {
                proof {
                    lemma_position_is(text@, pat@, i as int);
                }
                return Some(i);
            }
            if i == last {
                break;
            }
            i += 1;
        }
    }
    proof {
        lemma_position(text@, pat@);
    }
    None
}

/// Whether `pat` stands somewhere in `text`.
pub fn contains(text: &str, pat: &str) -> (r: bool)
    ensures
        r == has(text@, pat@),
{
    proof {
        lemma_position(text@, pat@);
    }
    find(text, pat).is_some()
}

/// `text` begins with `prefix`.
pub open spec fn begins_with(text: Seq<char>, prefix: Seq<char>) -> bool {
    occurs_at(text, prefix, 0)
}

/// What follows `prefix` in `text`, if `text` begins with it.
pub fn strip_prefix<'a>(text: &'a str, prefix: &str) -> (r: Option<&'a str>)
    ensures
        match r {
            Some(rest) => begins_with(text@, prefix@) && rest@ == text@.skip(prefix@.len() as int),
            None => !begins_with(text@, prefix@),
        },
{
    let t = chars_of(text);
    let p = chars_of(prefix);
    if p.len() <= t.len() && matches_at(&t, &p, 0) {
        let rest = text.substring_char(p.len(), t.len());
        assert(rest@ =~= text@.skip(prefix@.len() as int));
        Some(rest)
    } else {
        None
    }
}

// ---------------------------------------------------------------------------
// Cutting at a character
// ---------------------------------------------------------------------------

/// The position of the first `c` in `s`.
pub open spec fn char_position(s: Seq<char>, c: char) -> Option<int> {
    position(s, seq![c])
}

/// A `c` with no `c` before it is the first.
pub proof fn lemma_char_position_is(s: Seq<char>, c: char, at: int)
    requires
        0 <= at < s.len(),
        s[at] == c,
        forall|j: int| 0 <= j < at ==> s[j] != c,
    ensures
        char_position(s, c) == Some(at),
{
    lemma_char_occurs(s, c, at);
    assert forall|j: int| 0 <= j < at implies !occurs_at(s, seq![c], j) by {
        lemma_char_occurs(s, c, j);
    }
    lemma_position_is(s, seq![c], at);
}

/// A text without `c` has no position of `c`.
pub proof fn lemma_char_position_none(s: Seq<char>, c: char)
    requires
        forall|j: int| 0 <= j < s.len() ==> s[j] != c,
    ensures
        char_position(s, c) is None,
{
    lemma_position(s, seq![c]);
    if has(s, seq![c]) {
        let i = choose|i: int| occurs_at(s, seq![c], i);
        lemma_char_occurs(s, c, i);
    }
}

/// What a position of `c` says.
pub proof fn lemma_char_position(s: Seq<char>, c: char)
    ensures
        match char_position(s, c) {
            Some(i) => {
                &&& 0 <= i < s.len()
                &&& s[i] == c
                &&& forall|j: int| 0 <= j < i ==> s[j] != c
            },
            None => forall|j: int| 0 <= j < s.len() ==> s[j] != c,
        },
{
    lemma_position(s, seq![c]);
    match char_position(s, c) {
        Some(i) => {
            lemma_char_occurs(s, c, i);
            assert forall|j: int| 0 <= j < i implies s[j] != c by {
                lemma_char_occurs(s, c, j);
            }
        },
        None => {
            assert forall|j: int| 0 <= j < s.len() implies s[j] != c by {
                lemma_char_occurs(s, c, j);
            }
        },
    }
}

/// The position of the first `c` at or after `from`.
fn find_char_from(t: &Vec<char>, c: char, from: usize) -> (r: Option<usize>)
    requires
        from <= t@.len(),
    ensures
        match r {
            Some(i) => {
                &&& from <= i < t@.len()
                &&& char_position(t@.skip(from as int), c) == Some(i - from)
            },
            None => char_position(t@.skip(from as int), c) is None,
        },
{
    let ghost rest = t@.skip(from as int);
    let mut i: usize = from;
    while i < t.len()
        invariant
            from <= i <= t@.len(),
            rest == t@.skip(from as int),
            forall|j: int| 0 <= j < i - from ==> rest[j] != c,
        decreases t@.len() - i,
    {
        assert(rest[i - from] == t@[i as int]);
        if t[i] == c {
            proof {
                lemma_char_position_is(rest, c, i - from);
            }
            return Some(i);
        }
        i += 1;
    }
    proof {
        lemma_char_position_none(rest, c);
    }
    None
}

/// The part of `s` before the first `c`; all of it where there is no `c`.
pub open spec fn before(s: Seq<char>, c: char) -> Seq<char> {
    match char_position(s, c) {
        Some(i) => s.take(i),
        None => s,
    }
}

/// The part of `s` before the first `c`; all of it where there is no `c`.
pub fn cut_before<'a>(s: &'a str, c: char) -> (r: &'a str)
    ensures
        r@ == before(s@, c),
{
    let t = chars_of(s);
    assert(t@.skip(0) =~= s@);
    match find_char_from(&t, c, 0) {
        Some(i) => {
            let r = s.substring_char(0, i);
            assert(r@ =~= s@.take(i as int));
            r
        },
        None => s,
    }
}

/// The parts of `s` before and after its first `c`.
pub open spec fn split_once(s: Seq<char>, c: char) -> Option<(Seq<char>, Seq<char>)> {
    match char_position(s, c) {
        Some(i) => Some((s.take(i), s.skip(i + 1))),
        None => None,
    }
}

/// The parts of `s` before and after its first `c`.
pub fn cut_once<'a>(s: &'a str, c: char) -> (r: Option<(&'a str, &'a str)>)
    ensures
        match r {
            Some(parts) => split_once(s@, c) == Some((parts.0@, parts.1@)),
            None => split_once(s@, c) is None,
        },
{
    let t = chars_of(s);
    let size: usize = t.len();
    assert(t@.skip(0) =~= s@);
    match find_char_from(&t, c, 0) {
        Some(i) => {
            let head = s.substring_char(0, i);
            let tail = s.substring_char(i + 1, size);
            assert(head@ =~= s@.take(i as int));
            assert(tail@ =~= s@.skip(i + 1));
            Some((head, tail))
        },
        None => None,
    }
}

/// The pieces of `s` between the `sep` characters: one more than there are `sep`s.
pub open spec fn split(s: Seq<char>, sep: char) -> Seq<Seq<char>>
    decreases s.len(),
{
    match char_position(s, sep) {
        Some(i) => if 0 <= i < s.len() {
            seq![s.take(i)] + split(s.skip(i + 1), sep)
        } else {
            seq![s]
        },
        None => seq![s],
    }
}

/// The views of the strings of a vector.
pub open spec fn views(v: Seq<String>) -> Seq<Seq<char>> {
    v.map_values(|s: String| s@)
}

/// Whether `s` is one of the strings of `list`.
pub fn among(list: &Vec<String>, s: &str) -> (r: bool)
    ensures
        r == views(list@).contains(s@),
{
    let mut i: usize = 0;
    while i < list.len()
        invariant
            i <= list.len(),
            forall|k: int| 0 <= k < i ==> #[trigger] views(list@)[k] != s@,
        decreases list.len() - i,
    {
        assert(views(list@)[i as int] == list[i as int]@);
        if same(list[i].as_str(), s) {
            return true;
        }
        i += 1;
    }
    false
}

/// The view of an optional string.
pub open spec fn opt(s: Option<String>) -> Option<Seq<char>> {
    match s {
        Some(v) => Some(v@),
        None => None,
    }
}

/// The view of an optional string slice.
pub open spec fn opt_str(s: Option<&str>) -> Option<Seq<char>> {
    match s {
        Some(v) => Some(v@),
        None => None,
    }
}

/// A view of an optional string as an optional string slice.
pub fn as_str_option<'a>(s: &'a Option<String>) -> (r: Option<&'a str>)
    ensures
        opt_str(r) == opt(*s),
{
    match s {
        Some(text) => Some(text.as_str()),
        None => None,
    }
}

/// Whether two optional strings are the same.
pub fn opt_same(a: &Option<String>, b: &Option<String>) -> (r: bool)
    ensures
        r == (opt(*a) == opt(*b)),
{
    match (a, b) {
        (Some(x), Some(y)) => same(x.as_str(), y.as_str()),
        (None, None) => true,
        _ => false,
    }
}

/// The first of two optional values that is there.
pub open spec fn first_of(a: Option<Seq<char>>, b: Option<Seq<char>>) -> Option<Seq<char>> {
    match a {
        Some(_) => a,
        None => b,
    }
}

/// The first of two optional strings that is there.
pub fn either<'a>(a: &'a Option<String>, b: &'a Option<String>) -> (r: Option<&'a str>)
    ensures
        opt_str(r) == first_of(opt(*a), opt(*b)),
{
    match a {
        Some(s) => Some(s.as_str()),
        None => match b {
            Some(s) => Some(s.as_str()),
            None => None,
        },
    }
}

/// The pieces of `s` between the `sep` characters.
pub fn pieces(s: &str, sep: char) -> (r: Vec<String>)
    ensures
        views(r@) == split(s@, sep),
{
    let t = chars_of(s);
    let size: usize = t.len();
    let mut out: Vec<String> = Vec::new();
    let mut start: usize = 0;
    assert(t@.skip(0) =~= s@);
    assert(views(out@) + split(s@.skip(0), sep) =~= split(s@, sep));
    loop
        invariant
            t@ == s@,
            start <= t@.len() == size,
            views(out@) + split(s@.skip(start as int), sep) == split(s@, sep),
        decreases t@.len() - start,
    {
        let ghost rest = s@.skip(start as int);
        proof {
            lemma_char_position(rest, sep);
        }
        match find_char_from(&t, sep, start) {
            Some(i) => {
                let piece = s.substring_char(start, i).to_owned();
                let ghost before = views(out@);
                out.push(piece);
                proof {
                    assert(piece@ =~= rest.take(i - start));
                    assert(views(out@) =~= before.push(piece@));
                    assert(rest.skip(i - start + 1) =~= s@.skip(i + 1));
                    assert(views(out@) + split(s@.skip(i + 1), sep) =~= before + split(rest, sep));
                }
                start = i + 1;
            },
            None => {
                let piece = s.substring_char(start, size).to_owned();
                let ghost before = views(out@);
                out.push(piece);
                proof {
                    assert(piece@ =~= rest);
                    assert(views(out@) =~= before.push(piece@));
                    assert(views(out@) =~= before + split(rest, sep));
                }
                return out;
            },
        }
    }
}

// ---------------------------------------------------------------------------
// Trimming
// ---------------------------------------------------------------------------

/// `c` has the Unicode property White_Space.
pub open spec fn is_white(c: char) -> bool {
    ||| 0x9 <= c as u32 <= 0xd
    ||| c as u32 == 0x20
    ||| c as u32 == 0x85
    ||| c as u32 == 0xa0
    ||| c as u32 == 0x1680
    ||| 0x2000 <= c as u32 <= 0x200a
    ||| 0x2028 <= c as u32 <= 0x2029
    ||| c as u32 == 0x202f
    ||| c as u32 == 0x205f
    ||| c as u32 == 0x3000
}

/// Whether `c` has the Unicode property White_Space.
pub fn white(c: char) -> (r: bool)
    ensures
        r == is_white(c),
{
    let u: u32 = c as u32;
    (0x9 <= u && u <= 0xd) || u == 0x20 || u == 0x85 || u == 0xa0 || u == 0x1680 || (0x2000 <= u
        && u <= 0x200a) || (0x2028 <= u && u <= 0x2029) || u == 0x202f || u == 0x205f || u == 0x3000
}

/// `s` without the white space at its start.
pub open spec fn trim_start(s: Seq<char>) -> Seq<char>
    decreases s.len(),
{
    if s.len() > 0 && is_white(s[0]) {
        trim_start(s.skip(1))
    } else {
        s
    }
}

/// `s` without the white space at its end.
pub open spec fn trim_end(s: Seq<char>) -> Seq<char>
    decreases s.len(),
{
    if s.len() > 0 && is_white(s.last()) {
        trim_end(s.drop_last())
    } else {
        s
    }
}

/// `s` without the white space at its two ends.
pub open spec fn trim(s: Seq<char>) -> Seq<char> {
    trim_end(trim_start(s))
}

/// `s` without the white space at its two ends.
pub fn trimmed<'a>(s: &'a str) -> (r: &'a str)
    ensures
        r@ == trim(s@),
{
    let t = chars_of(s);
    let mut lo: usize = 0;
    assert(s@.skip(0) =~= s@);
    while lo < t.len() && white(t[lo])
        invariant
            t@ == s@,
            lo <= t@.len(),
            trim_start(s@) == trim_start(s@.skip(lo as int)),
        decreases t@.len() - lo,
    {
        assert(s@.skip(lo as int).skip(1) =~= s@.skip(lo + 1));
        lo += 1;
    }
    let ghost mid = s@.skip(lo as int);
    assert(trim_start(s@) == mid);
    let mut hi: usize = t.len();
    assert(mid.take(hi - lo) =~= mid);
    while lo < hi && white(t[hi - 1])
        invariant
            t@ == s@,
            lo <= hi <= t@.len(),
            mid == s@.skip(lo as int),
            trim_end(mid) == trim_end(mid.take(hi - lo)),
        decreases hi,
    {
        assert(mid.take(hi - lo).drop_last() =~= mid.take(hi - 1 - lo));
        hi -= 1;
    }
    let r = s.substring_char(lo, hi);
    assert(r@ =~= mid.take(hi - lo));
    r
}

// ---------------------------------------------------------------------------
// Decimal notation
// ---------------------------------------------------------------------------

/// `c` is one of the ten decimal digits.
pub open spec fn is_digit(c: char) -> bool {
    '0' <= c <= '9'
}

/// All characters of `s` are decimal digits.
pub open spec fn all_digits(s: Seq<char>) -> bool {
    forall|i: int| 0 <= i < s.len() ==> is_digit(#[trigger] s[i])
}

/// The number that a run of digits denotes.
pub open spec fn digits_value(s: Seq<char>) -> nat
    decreases s.len(),
{
    if s.len() == 0 {
        0
    } else {
        (digits_value(s.drop_last()) * 10 + (s.last() as u32 - '0' as u32)) as nat
    }
}

/// `s` without one leading plus sign.
pub open spec fn without_plus(s: Seq<char>) -> Seq<char> {
    if s.len() > 0 && s[0] == '+' {
        s.skip(1)
    } else {
        s
    }
}

/// The unsigned number, at most `max`, that `s` denotes: an optional plus sign
/// followed by one or more digits and nothing else.
pub open spec fn parse_unsigned(s: Seq<char>, max: nat) -> Option<nat> {
    let digits = without_plus(s);
    if digits.len() > 0 && all_digits(digits) && digits_value(digits) <= max {
        Some(digits_value(digits))
    } else {
        None
    }
}

/// More digits denote no smaller number.
proof fn lemma_value_grows(s: Seq<char>, n: int)
    requires
        all_digits(s),
        0 <= n <= s.len(),
    ensures
        digits_value(s.take(n)) <= digits_value(s),
    decreases s.len() - n,
{
    if n == s.len() {
        assert(s.take(n) =~= s);
    } else {
        lemma_value_grows(s, n + 1);
        assert(s.take(n + 1).drop_last() =~= s.take(n));
        assert(is_digit(s[n]));
    }
}

/// The unsigned number, at most `max`, that `s` denotes.
pub fn parse_number(s: &str, max: u64) -> (r: Option<u64>)
    ensures
        match r {
            Some(n) => parse_unsigned(s@, max as nat) == Some(n as nat),
            None => parse_unsigned(s@, max as nat) is None,
        },
{
    let t = chars_of(s);
    let start: usize = if t.len() > 0 && t[0] == '+' {
        1
    } else {
        0
    };
    let ghost digits = without_plus(s@);
    assert(digits =~= s@.skip(start as int));
    if start == t.len() {
        return None;
    }
    let mut value: u64 = 0;
    let mut i: usize = start;
    while i < t.len()
        invariant
            t@ == s@,
            start <= i <= t@.len(),
            start < t@.len(),
            digits == without_plus(s@),
            digits == s@.skip(start as int),
            all_digits(digits.take(i - start)),
            value == digits_value(digits.take(i - start)),
            value <= max,
        decreases t@.len() - i,
    {
        let c = t[i];
        assert(digits[i - start] == c);
        assert(digits.take(i - start + 1).drop_last() =~= digits.take(i - start));
        assert(digits.take(i - start + 1).last() == c);
        if c < '0' || '9' < c {
            return None;
        }
        let d: u64 = (c as u32 - '0' as u32) as u64;
        let wide: u128 = value as u128 * 10 + d as u128;
        assert(wide == digits_value(digits.take(i - start + 1)));
        if wide > max as u128 {
            proof {
                if all_digits(digits) {
                    lemma_value_grows(digits, i - start + 1);
                }
            }
            return None;
        }
        value = wide as u64;
        i += 1;
    }
    assert(digits.take(i - start) =~= digits);
    Some(value)
}

/// The 16-bit number that `s` denotes.
pub fn parse_u16(s: &str) -> (r: Option<u16>)
    ensures
        match r {
            Some(n) => parse_unsigned(s@, u16::MAX as nat) == Some(n as nat),
            None => parse_unsigned(s@, u16::MAX as nat) is None,
        },
{
    match parse_number(s, 65535) {
        Some(n) => Some(n as u16),
        None => None,
    }
}

/// The 32-bit number that `s` denotes.
pub fn parse_u32(s: &str) -> (r: Option<u32>)
    ensures
        match r {
            Some(n) => parse_unsigned(s@, u32::MAX as nat) == Some(n as nat),
            None => parse_unsigned(s@, u32::MAX as nat) is None,
        },
{
    match parse_number(s, 0xffff_ffff) {
        Some(n) => Some(n as u32),
        None => None,
    }
}

/// The digit for `d`.
pub open spec fn digit_char(d: nat) -> char {
    ('0' as u32 + d) as char
}

/// `n` in decimal notation, without leading zeros.
pub open spec fn decimal(n: nat) -> Seq<char>
    decreases n,
{
    if n < 10 {
        seq![digit_char(n)]
    } else {
        decimal(n / 10).push(digit_char(n % 10))
    }
}

/// The digit for `d`.
fn digit_str(d: u64) -> (s: &'static str)
    requires
        d < 10,
    ensures
        s@ == seq![digit_char(d as nat)],
{
    let s = match d {
        0 => "0",
        1 => "1",
        2 => "2",
        3 => "3",
        4 => "4",
        5 => "5",
        6 => "6",
        7 => "7",
        8 => "8",
        _ => "9",
    };
    proof {
        reveal_strlit("0");
        reveal_strlit("1");
        reveal_strlit("2");
        reveal_strlit("3");
        reveal_strlit("4");
        reveal_strlit("5");
        reveal_strlit("6");
        reveal_strlit("7");
        reveal_strlit("8");
        reveal_strlit("9");
        assert(s@ =~= seq![digit_char(d as nat)]);
    }
    s
}

/// `n` in decimal notation.
pub fn number(n: u64) -> (s: String)
    ensures
        s@ == decimal(n as nat),
    decreases n,
{
    if n < 10 {
        digit_str(n).to_owned()
    } else {
        let mut s = number(n / 10);
        s.append(digit_str(n % 10));
        assert(s@ =~= decimal(n as nat));
        s
    }
}

/// Decimal notation is a nonempty run of digits that denotes the number.
pub proof fn lemma_decimal(n: nat)
    ensures
        decimal(n).len() > 0,
        all_digits(decimal(n)),
        digits_value(decimal(n)) == n,
    decreases n,
{
    if n < 10 {
        assert(decimal(n).drop_last() =~= Seq::<char>::empty());
        assert(digits_value(Seq::<char>::empty()) == 0);
    } else {
        lemma_decimal(n / 10);
        assert(decimal(n).drop_last() =~= decimal(n / 10));
        let d = decimal(n);
        assert forall|i: int| 0 <= i < d.len() implies is_digit(#[trigger] d[i]) by {
            if i < d.len() - 1 {
                assert(d[i] == decimal(n / 10)[i]);
            }
        }
    }
}

/// A number written in decimal notation is read back.
pub proof fn law_decimal_reads_back(n: nat, max: nat)
    requires
        n <= max,
    ensures
        parse_unsigned(decimal(n), max) == Some(n),
{
    lemma_decimal(n);
    assert(is_digit(decimal(n)[0]));
}

/// Different numbers have different decimal notations.
pub proof fn law_decimal_injective(a: nat, b: nat)
    ensures
        decimal(a) == decimal(b) ==> a == b,
{
    lemma_decimal(a);
    lemma_decimal(b);
}

} // verus!
