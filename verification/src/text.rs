//! Character-level text operations used by the dependency parser and the
//! manifest writers, each with its mathematical meaning over `Seq<char>`.
use vstd::prelude::*;

verus! {

// ---------------------------------------------------------------------------
// Character classes
// ---------------------------------------------------------------------------

pub open spec fn is_ascii_digit(c: char) -> bool {
    '0' <= c <= '9'
}

pub open spec fn is_ascii_alphanumeric(c: char) -> bool {
    ||| '0' <= c <= '9'
    ||| 'a' <= c <= 'z'
    ||| 'A' <= c <= 'Z'
}

pub open spec fn is_ascii_hexdigit(c: char) -> bool {
    ||| '0' <= c <= '9'
    ||| 'a' <= c <= 'f'
    ||| 'A' <= c <= 'F'
}

pub fn ascii_digit(c: char) -> (r: bool)
    ensures
        r == is_ascii_digit(c),
{
    '0' <= c && c <= '9'
}

pub fn ascii_alphanumeric(c: char) -> (r: bool)
    ensures
        r == is_ascii_alphanumeric(c),
{
    ('0' <= c && c <= '9') || ('a' <= c && c <= 'z') || ('A' <= c && c <= 'Z')
}

pub fn ascii_hexdigit(c: char) -> (r: bool)
    ensures
        r == is_ascii_hexdigit(c),
{
    ('0' <= c && c <= '9') || ('a' <= c && c <= 'f') || ('A' <= c && c <= 'F')
}

// ---------------------------------------------------------------------------
// Mathematical meaning of the operations
// ---------------------------------------------------------------------------

/// `s` begins with `p`.
pub open spec fn has_prefix(s: Seq<char>, p: Seq<char>) -> bool {
    p.len() <= s.len() && s.subrange(0, p.len() as int) == p
}

/// `s` ends with `p`.
pub open spec fn has_suffix(s: Seq<char>, p: Seq<char>) -> bool {
    p.len() <= s.len() && s.subrange(s.len() - p.len(), s.len() as int) == p
}

/// `p` occurs in `s` as a contiguous block.
pub open spec fn occurs_in(s: Seq<char>, p: Seq<char>) -> bool {
    exists|i: int| 0 <= i && i + p.len() <= s.len() && #[trigger] s.subrange(i, i + p.len()) == p
}

/// What remains of `s` once the prefix `p` is removed, if `s` begins with `p`.
pub open spec fn without_prefix(s: Seq<char>, p: Seq<char>) -> Option<Seq<char>> {
    if has_prefix(s, p) {
        Some(s.skip(p.len() as int))
    } else {
        None
    }
}

/// Reading `s` from left to right, the pieces already closed by a separator
/// and the piece still open.
pub open spec fn split_progress(s: Seq<char>, sep: char) -> (Seq<Seq<char>>, Seq<char>)
    decreases s.len(),
{
    if s.len() == 0 {
        (Seq::empty(), Seq::empty())
    } else {
        let (done, open) = split_progress(s.drop_last(), sep);
        if s.last() == sep {
            (done.push(open), Seq::empty())
        } else {
            (done, open.push(s.last()))
        }
    }
}

/// The pieces of `s` between occurrences of `sep` (there is always one
/// piece more than there are separators).
pub open spec fn split_on(s: Seq<char>, sep: char) -> Seq<Seq<char>> {
    let (done, open) = split_progress(s, sep);
    done.push(open)
}

/// The part of `s` after the last character that belongs to `seps`
/// (all of `s` when there is none).
pub open spec fn after_last(s: Seq<char>, seps: Seq<char>) -> Seq<char>
    decreases s.len(),
{
    if s.len() == 0 {
        s
    } else if seps.contains(s.last()) {
        Seq::empty()
    } else {
        after_last(s.drop_last(), seps).push(s.last())
    }
}

/// `s` without all the characters of `seps` that end it.
pub open spec fn trim_end_chars(s: Seq<char>, seps: Seq<char>) -> Seq<char>
    decreases s.len(),
{
    if s.len() > 0 && seps.contains(s.last()) {
        trim_end_chars(s.drop_last(), seps)
    } else {
        s
    }
}

/// `s` without all the repetitions of `p` that end it.
pub open spec fn trim_end_text(s: Seq<char>, p: Seq<char>) -> Seq<char>
    decreases s.len(),
{
    if p.len() > 0 && has_suffix(s, p) {
        trim_end_text(s.subrange(0, s.len() - p.len()), p)
    } else {
        s
    }
}

/// The items of `list` with `sep` between each two of them.
pub open spec fn join(list: Seq<Seq<char>>, sep: Seq<char>) -> Seq<char>
    decreases list.len(),
{
    if list.len() == 0 {
        Seq::empty()
    } else if list.len() == 1 {
        list[0]
    } else {
        join(list.drop_last(), sep) + sep + list.last()
    }
}

// ---------------------------------------------------------------------------
// Lemmas
// ---------------------------------------------------------------------------

pub proof fn lemma_after_last(s: Seq<char>, seps: Seq<char>, i: int)
    requires
        0 <= i <= s.len(),
        i == 0 || seps.contains(s[i - 1]),
        forall|j: int| i <= j < s.len() ==> !seps.contains(#[trigger] s[j]),
    ensures
        after_last(s, seps) == s.subrange(i, s.len() as int),
    decreases s.len(),
{
    if s.len() == i {
        assert(s.subrange(i, i) =~= Seq::<char>::empty());
        if i > 0 {
            assert(s.last() == s[i - 1]);
        }
    } else {
        let t = s.drop_last();
        assert forall|j: int| i <= j < t.len() implies !seps.contains(#[trigger] t[j]) by {
            assert(t[j] == s[j]);
        }
        if i > 0 {
            assert(t[i - 1] == s[i - 1]);
        }
        lemma_after_last(t, seps, i);
        assert(s.subrange(i, s.len() as int) =~= t.subrange(i, t.len() as int).push(s.last()));
    }
}

pub proof fn lemma_trim_end_chars(s: Seq<char>, seps: Seq<char>, i: int)
    requires
        0 <= i <= s.len(),
        i == 0 || !seps.contains(s[i - 1]),
        forall|j: int| i <= j < s.len() ==> seps.contains(#[trigger] s[j]),
    ensures
        trim_end_chars(s, seps) == s.subrange(0, i),
    decreases s.len(),
{
    if s.len() == i {
        assert(s.subrange(0, i) =~= s);
        if i > 0 {
            assert(s.last() == s[i - 1]);
        }
    } else {
        let t = s.drop_last();
        assert forall|j: int| i <= j < t.len() implies seps.contains(#[trigger] t[j]) by {
            assert(t[j] == s[j]);
        }
        if i > 0 {
            assert(t[i - 1] == s[i - 1]);
        }
        lemma_trim_end_chars(t, seps, i);
        assert(t.subrange(0, i) =~= s.subrange(0, i));
    }
}

/// Text without any of `seps` can be appended after the last separator.
pub proof fn lemma_after_last_append(s: Seq<char>, t: Seq<char>, seps: Seq<char>)
    requires
        forall|i: int| 0 <= i < t.len() ==> !seps.contains(#[trigger] t[i]),
    ensures
        after_last(s + t, seps) == after_last(s, seps) + t,
    decreases t.len(),
{
    if t.len() == 0 {
        assert(s + t =~= s);
        assert(after_last(s, seps) + t =~= after_last(s, seps));
    } else {
        let u = t.drop_last();
        assert((s + t).drop_last() =~= s + u);
        assert((s + t).last() == t.last());
        assert(!seps.contains(t[t.len() - 1]));
        lemma_after_last_append(s, u, seps);
        assert(after_last(s, seps) + t =~= (after_last(s, seps) + u).push(t.last()));
    }
}

/// Text without the separator extends the open piece of a split.
pub proof fn lemma_split_progress_append(s: Seq<char>, t: Seq<char>, sep: char)
    requires
        !t.contains(sep),
    ensures
        split_progress(s + t, sep) == (split_progress(s, sep).0, split_progress(s, sep).1 + t),
    decreases t.len(),
{
    if t.len() == 0 {
        assert(s + t =~= s);
        assert(split_progress(s, sep).1 + t =~= split_progress(s, sep).1);
    } else {
        let u = t.drop_last();
        assert((s + t).drop_last() =~= s + u);
        assert((s + t).last() == t.last());
        assert(t.last() != sep) by {
            assert(t[t.len() - 1] == t.last());
        }
        assert(!u.contains(sep)) by {
            if u.contains(sep) {
                let k = choose|k: int| 0 <= k < u.len() && u[k] == sep;
                assert(t[k] == sep);
            }
        }
        lemma_split_progress_append(s, u, sep);
        assert(split_progress(s, sep).1 + t =~= (split_progress(s, sep).1 + u).push(t.last()));
    }
}

/// A joined list holds no character that neither the items nor the separator hold.
pub proof fn lemma_join_without(list: Seq<Seq<char>>, sep: Seq<char>, c: char)
    requires
        !sep.contains(c),
        forall|i: int| 0 <= i < list.len() ==> !(#[trigger] list[i]).contains(c),
    ensures
        !join(list, sep).contains(c),
    decreases list.len(),
{
    if list.len() > 1 {
        let rest = list.drop_last();
        assert forall|i: int| 0 <= i < rest.len() implies !(#[trigger] rest[i]).contains(c) by {
            assert(rest[i] == list[i]);
        }
        lemma_join_without(rest, sep, c);
        assert(!list.last().contains(c)) by {
            assert(list[list.len() - 1] == list.last());
        }
        lemma_concat_without(join(rest, sep), sep, c);
        lemma_concat_without(join(rest, sep) + sep, list.last(), c);
    } else if list.len() == 1 {
        assert(!list[0].contains(c));
    }
}

/// Two texts without `c` make a text without `c`.
pub proof fn lemma_concat_without(a: Seq<char>, b: Seq<char>, c: char)
    requires
        !a.contains(c),
        !b.contains(c),
    ensures
        !(a + b).contains(c),
{
    if (a + b).contains(c) {
        let k = choose|k: int| 0 <= k < (a + b).len() && (a + b)[k] == c;
        if k < a.len() {
            assert(a[k] == c);
        } else {
            assert(b[k - a.len()] == c);
        }
    }
}

// ---------------------------------------------------------------------------
// Executable operations
// ---------------------------------------------------------------------------

/// The characters of `s` from index `start` (inclusive) to `end` (exclusive), as an owned string.
pub fn substring(s: &str, start: usize, end: usize) -> (r: String)
    requires
        start <= end <= s@.len(),
    ensures
        r@ == s@.subrange(start as int, end as int),
{
    s.substring_char(start, end).to_owned()
}

/// An owned copy of `s`.
pub fn owned(s: &str) -> (r: String)
    ensures
        r@ == s@,
{
    s.to_owned()
}

/// Whether two strings hold the same characters.
pub fn same_text(a: &str, b: &str) -> (r: bool)
    ensures
        r == (a@ == b@),
{
    let n = a.unicode_len();
    let m = b.unicode_len();
    if n != m {
        return false;
    }
    let mut i: usize = 0;
    while i < n
        invariant
            n == a@.len(),
            m == b@.len(),
            n == m,
            i <= n,
            forall|j: int| 0 <= j < i ==> a@[j] == b@[j],
        decreases n - i,
    {
        if a.get_char(i) != b.get_char(i) {
            return false;
        }
        i = i + 1;
    }
    assert(a@ =~= b@);
    true
}

/// Whether `p` occurs in `s` starting at index `at`.
pub fn occurs_at(s: &str, p: &str, at: usize) -> (r: bool)
    requires
        at <= s@.len(),
    ensures
        r == (at + p@.len() <= s@.len() && s@.subrange(at as int, at + p@.len()) == p@),
{
    let n = s.unicode_len();
    let m = p.unicode_len();
    if m > n - at {
        return false;
    }
    let mut k: usize = 0;
    while k < m
        invariant
            n == s@.len(),
            m == p@.len(),
            at + m <= n,
            k <= m,
            forall|j: int| 0 <= j < k ==> s@[at + j] == p@[j],
        decreases m - k,
    {
        if s.get_char(at + k) != p.get_char(k) {
            assert(s@.subrange(at as int, at + m)[k as int] != p@[k as int]);
            return false;
        }
        k = k + 1;
    }
    assert(s@.subrange(at as int, at + m) =~= p@);
    true
}

/// Whether `s` begins with `p`.
pub fn starts_with(s: &str, p: &str) -> (r: bool)
    ensures
        r == has_prefix(s@, p@),
{
    occurs_at(s, p, 0)
}

/// Whether the first `end` characters of `s` end with `p`.
pub fn ends_with_at(s: &str, end: usize, p: &str) -> (r: bool)
    requires
        end <= s@.len(),
    ensures
        r == has_suffix(s@.subrange(0, end as int), p@),
{
    let m = p.unicode_len();
    if m > end {
        return false;
    }
    let r = occurs_at(s, p, end - m);
    assert(s@.subrange(0, end as int).subrange(end - m, end as int) =~= s@.subrange(
        end - m,
        end as int,
    ));
    r
}

/// Whether `p` occurs anywhere in `s`.
pub fn contains_text(s: &str, p: &str) -> (r: bool)
    ensures
        r == occurs_in(s@, p@),
{
    let n = s.unicode_len();
    let m = p.unicode_len();
    if m > n {
        return false;
    }
    if m == 0 {
        assert(s@.subrange(0int, 0int + p@.len()) =~= p@);
        return true;
    }
    let mut i: usize = 0;
    while i <= n - m
        invariant
            n == s@.len(),
            m == p@.len(),
            1 <= m <= n,
            i <= n - m + 1,
            forall|j: int| 0 <= j < i ==> #[trigger] s@.subrange(j, j + m) != p@,
        decreases n + 1 - i,
    {
        if occurs_at(s, p, i) {
            return true;
        }
        i = i + 1;
    }
    false
}

/// `s` without the prefix `p`, if it begins with it.
pub fn strip_prefix(s: &str, p: &str) -> (r: Option<String>)
    ensures
        r matches Some(t) ==> without_prefix(s@, p@) == Some(t@),
        r is None ==> without_prefix(s@, p@) is None,
{
    if starts_with(s, p) {
        let n = s.unicode_len();
        let m = p.unicode_len();
        Some(substring(s, m, n))
    } else {
        None
    }
}

/// Whether `c` is one of `set`.
pub fn one_of(c: char, set: &Vec<char>) -> (r: bool)
    ensures
        r == set@.contains(c),
{
    let mut i: usize = 0;
    while i < set.len()
        invariant
            i <= set@.len(),
            forall|j: int| 0 <= j < i ==> set@[j] != c,
        decreases set@.len() - i,
    {
        if set[i] == c {
            return true;
        }
        i = i + 1;
    }
    false
}

/// The part of `s` after its last character from `seps`.
pub fn after_last_of(s: &str, seps: &Vec<char>) -> (r: String)
    ensures
        r@ == after_last(s@, seps@),
{
    let n = s.unicode_len();
    let mut i: usize = n;
    while i > 0 && !one_of(s.get_char(i - 1), seps)
        invariant
            n == s@.len(),
            i <= n,
            forall|j: int| i <= j < n ==> !seps@.contains(#[trigger] s@[j]),
        decreases i,
    {
        i = i - 1;
    }
    proof {
        lemma_after_last(s@, seps@, i as int);
    }
    substring(s, i, n)
}

/// `s` without the characters from `seps` that end it.
pub fn trim_end_of(s: &str, seps: &Vec<char>) -> (r: String)
    ensures
        r@ == trim_end_chars(s@, seps@),
{
    let n = s.unicode_len();
    let mut i: usize = n;
    while i > 0 && one_of(s.get_char(i - 1), seps)
        invariant
            n == s@.len(),
            i <= n,
            forall|j: int| i <= j < n ==> seps@.contains(#[trigger] s@[j]),
        decreases i,
    {
        i = i - 1;
    }
    proof {
        lemma_trim_end_chars(s@, seps@, i as int);
    }
    substring(s, 0, i)
}

/// `s` without all the repetitions of `p` that end it.
pub fn trim_end_text_of(s: &str, p: &str) -> (r: String)
    ensures
        r@ == trim_end_text(s@, p@),
{
    let n = s.unicode_len();
    let m = p.unicode_len();
    if m == 0 {
        return owned(s);
    }
    let mut e: usize = n;
    assert(s@.subrange(0, n as int) =~= s@);
    while ends_with_at(s, e, p)
        invariant
            n == s@.len(),
            m == p@.len(),
            m > 0,
            e <= n,
            trim_end_text(s@.subrange(0, e as int), p@) == trim_end_text(s@, p@),
        decreases e,
    {
        let ghost t = s@.subrange(0, e as int);
        assert(t.subrange(0, t.len() - m) =~= s@.subrange(0, e - m));
        e = e - m;
    }
    substring(s, 0, e)
}

/// The pieces of `s` between occurrences of `sep`.
pub fn split_by(s: &str, sep: char) -> (r: Vec<String>)
    ensures
        r.deep_view() == split_on(s@, sep),
{
    let n = s.unicode_len();
    let mut pieces: Vec<String> = Vec::new();
    let mut start: usize = 0;
    let mut i: usize = 0;
    assert(s@.take(0) =~= Seq::<char>::empty());
    while i < n
        invariant
            n == s@.len(),
            start <= i <= n,
            split_progress(s@.take(i as int), sep) == (
                pieces.deep_view(),
                s@.subrange(start as int, i as int),
            ),
        decreases n - i,
    {
        let c = s.get_char(i);
        let ghost before = pieces.deep_view();
        assert(s@.take(i + 1).drop_last() =~= s@.take(i as int));
        assert(s@.take(i + 1).last() == c);
        if c == sep {
            let piece = substring(s, start, i);
            pieces.push(piece);
            assert(pieces.deep_view() =~= before.push(s@.subrange(start as int, i as int)));
            start = i + 1;
            assert(s@.subrange(start as int, (i + 1) as int) =~= Seq::<char>::empty());
        } else {
            assert(s@.subrange(start as int, i + 1) =~= s@.subrange(start as int, i as int).push(
                c,
            ));
        }
        i = i + 1;
    }
    assert(s@.take(n as int) =~= s@);
    let ghost before = pieces.deep_view();
    let last = substring(s, start, n);
    pieces.push(last);
    assert(pieces.deep_view() =~= before.push(s@.subrange(start as int, n as int)));
    pieces
}

/// Appends `s` to `dest`.
pub fn append(dest: &mut String, s: &str)
    ensures
        final(dest)@ == old(dest)@ + s@,
{
    dest.append(s);
}

/// The items of `list` with `sep` between each two of them.
pub fn join_with(list: &Vec<String>, sep: &str) -> (r: String)
    ensures
        r@ == join(list.deep_view(), sep@),
{
    let mut out = String::new();
    let n = list.len();
    let ghost items = list.deep_view();
    assert(items.take(0) =~= Seq::<Seq<char>>::empty());
    let mut i: usize = 0;
    while i < n
        invariant
            n == list@.len(),
            items == list.deep_view(),
            i <= n,
            out@ == join(items.take(i as int), sep@),
        decreases n - i,
    {
        assert(items.take(i + 1).drop_last() =~= items.take(i as int));
        assert(items.take(i + 1).last() == list@[i as int]@);
        if i > 0 {
            append(&mut out, sep);
        } else {
            assert(out@ =~= Seq::<char>::empty());
        }
        append(&mut out, list[i].as_str());
        i = i + 1;
    }
    assert(items.take(n as int) =~= items);
    out
}


// ---------------------------------------------------------------------------
// Whitespace
// ---------------------------------------------------------------------------

/// `c` has the Unicode `White_Space` property (what `char::is_whitespace` tests).
pub open spec fn is_white_space(c: char) -> bool {
    ||| '\u{9}' <= c <= '\u{d}'
    ||| c == ' '
    ||| c == '\u{85}'
    ||| c == '\u{a0}'
    ||| c == '\u{1680}'
    ||| '\u{2000}' <= c <= '\u{200a}'
    ||| c == '\u{2028}'
    ||| c == '\u{2029}'
    ||| c == '\u{202f}'
    ||| c == '\u{205f}'
    ||| c == '\u{3000}'
}

pub fn white_space(c: char) -> (r: bool)
    ensures
        r == is_white_space(c),
{
    ('\u{9}' <= c && c <= '\u{d}') || c == ' ' || c == '\u{85}' || c == '\u{a0}' || c == '\u{1680}'
        || ('\u{2000}' <= c && c <= '\u{200a}') || c == '\u{2028}' || c == '\u{2029}' || c
        == '\u{202f}' || c == '\u{205f}' || c == '\u{3000}'
}

/// `s` without the white space that ends it.
pub open spec fn trim_end_space(s: Seq<char>) -> Seq<char>
    decreases s.len(),
{
    if s.len() > 0 && is_white_space(s.last()) {
        trim_end_space(s.drop_last())
    } else {
        s
    }
}

/// `s` without the white space that starts it.
pub open spec fn trim_start_space(s: Seq<char>) -> Seq<char>
    decreases s.len(),
{
    if s.len() > 0 && is_white_space(s[0]) {
        trim_start_space(s.skip(1))
    } else {
        s
    }
}

/// `s` without white space at either end (what `str::trim` returns).
pub open spec fn trimmed(s: Seq<char>) -> Seq<char> {
    trim_start_space(trim_end_space(s))
}

pub proof fn lemma_trim_end_space(s: Seq<char>, i: int)
    requires
        0 <= i <= s.len(),
        i == 0 || !is_white_space(s[i - 1]),
        forall|j: int| i <= j < s.len() ==> is_white_space(#[trigger] s[j]),
    ensures
        trim_end_space(s) == s.subrange(0, i),
    decreases s.len(),
{
    if s.len() == i {
        assert(s.subrange(0, i) =~= s);
    } else {
        let t = s.drop_last();
        assert forall|j: int| i <= j < t.len() implies is_white_space(#[trigger] t[j]) by {
            assert(t[j] == s[j]);
        }
        if i > 0 {
            assert(t[i - 1] == s[i - 1]);
        }
        lemma_trim_end_space(t, i);
        assert(t.subrange(0, i) =~= s.subrange(0, i));
    }
}

pub proof fn lemma_trim_start_space(s: Seq<char>, i: int)
    requires
        0 <= i <= s.len(),
        i == s.len() || !is_white_space(s[i]),
        forall|j: int| 0 <= j < i ==> is_white_space(#[trigger] s[j]),
    ensures
        trim_start_space(s) == s.skip(i),
    decreases s.len(),
{
    if i == 0 {
        assert(s.skip(0) =~= s);
    } else {
        let t = s.skip(1);
        assert forall|j: int| 0 <= j < i - 1 implies is_white_space(#[trigger] t[j]) by {
            assert(t[j] == s[j + 1]);
        }
        if i < s.len() {
            assert(t[i - 1] == s[i]);
        }
        assert(is_white_space(s[0]));
        lemma_trim_start_space(t, i - 1);
        assert(t.skip(i - 1) =~= s.skip(i));
    }
}

/// `s` without white space at either end.
pub fn trim_space(s: &str) -> (r: String)
    ensures
        r@ == trimmed(s@),
{
    let n = s.unicode_len();
    let mut e: usize = n;
    while e > 0 && white_space(s.get_char(e - 1))
        invariant
            n == s@.len(),
            e <= n,
            forall|j: int| e <= j < n ==> is_white_space(#[trigger] s@[j]),
        decreases e,
    {
        e = e - 1;
    }
    proof {
        lemma_trim_end_space(s@, e as int);
    }
    let ghost t = s@.subrange(0, e as int);
    let mut b: usize = 0;
    while b < e && white_space(s.get_char(b))
        invariant
            n == s@.len(),
            e <= n,
            b <= e,
            t == s@.subrange(0, e as int),
            forall|j: int| 0 <= j < b ==> is_white_space(#[trigger] t[j]),
        decreases e - b,
    {
        assert(t[b as int] == s@[b as int]);
        b = b + 1;
    }
    proof {
        if b < e {
            assert(t[b as int] == s@[b as int]);
        }
        lemma_trim_start_space(t, b as int);
        assert(t.skip(b as int) =~= s@.subrange(b as int, e as int));
    }
    substring(s, b, e)
}

} // verus!
