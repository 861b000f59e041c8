//! Unix paths as `std::path` reads them: a path is a root `/` or a leading
//! `.`, then a body of pieces between `/`s. Empty pieces and `.` pieces of
//! the body are no components; `..` is the parent component; any other
//! piece is a name. Components are read from the back, as
//! `Components::next_back` reads them.
use crate::text::{after_last, append, lemma_after_last, owned, same_text, substring};
use vstd::prelude::*;

verus! {

/// The number of characters before the body of `p`: one for a leading `/`
/// (the root) or for a leading `.` component, none otherwise.
pub open spec fn body_start(p: Seq<char>) -> int {
    if p.len() > 0 && p[0] == '/' {
        1
    } else if p.len() > 0 && p[0] == '.' && (p.len() == 1 || p[1] == '/') {
        1
    } else {
        0
    }
}

/// The index of the last `/` of `p` at or after `base` and before `end`,
/// or `base - 1` when there is none.
pub open spec fn last_slash(p: Seq<char>, base: int, end: int) -> int
    decreases end - base,
{
    if end <= base {
        base - 1
    } else if p[end - 1] == '/' {
        end - 1
    } else {
        last_slash(p, base, end - 1)
    }
}

/// The last piece of the body of `p[..end]`.
pub open spec fn last_piece(p: Seq<char>, base: int, end: int) -> Seq<char> {
    p.subrange(last_slash(p, base, end) + 1, end)
}

/// Where `p[..end]` ends once its last piece is removed, with the `/` before it.
pub open spec fn cut_point(p: Seq<char>, base: int, end: int) -> int {
    let k = last_slash(p, base, end);
    if k < base {
        base
    } else {
        k
    }
}

/// A piece that is no component: empty, or `.`.
pub open spec fn no_component(piece: Seq<char>) -> bool {
    piece.len() == 0 || piece == seq!['.']
}

pub proof fn lemma_last_slash(p: Seq<char>, base: int, end: int)
    requires
        base <= end,
    ensures
        base - 1 <= last_slash(p, base, end) < end,
        last_slash(p, base, end) >= base ==> p[last_slash(p, base, end)] == '/',
        forall|j: int| last_slash(p, base, end) < j < end && base <= j ==> p[j] != '/',
    decreases end - base,
{
    if end > base && p[end - 1] != '/' {
        lemma_last_slash(p, base, end - 1);
    }
}

/// `end`, moved back over the trailing pieces of the body that are no components.
pub open spec fn trim_back(p: Seq<char>, base: int, end: int) -> int
    decreases end - base,
{
    if end > base && no_component(last_piece(p, base, end)) {
        proof {
            lemma_last_slash(p, base, end);
        }
        trim_back(p, base, cut_point(p, base, end))
    } else {
        end
    }
}

pub proof fn lemma_trim_back_bounds(p: Seq<char>, base: int, end: int)
    requires
        base <= end,
    ensures
        base <= trim_back(p, base, end) <= end,
        trim_back(p, base, end) > base ==> !no_component(
            last_piece(p, base, trim_back(p, base, end)),
        ),
    decreases end - base,
{
    if end > base && no_component(last_piece(p, base, end)) {
        lemma_last_slash(p, base, end);
        lemma_trim_back_bounds(p, base, cut_point(p, base, end));
    }
}

/// The components of the body of `p[..end]`, from the last to the first.
pub open spec fn body_components_back(p: Seq<char>, base: int, end: int) -> Seq<Seq<char>>
    decreases end - base,
{
    if end <= base {
        Seq::empty()
    } else {
        proof {
            lemma_last_slash(p, base, end);
        }
        let rest = body_components_back(p, base, cut_point(p, base, end));
        if no_component(last_piece(p, base, end)) {
            rest
        } else {
            seq![last_piece(p, base, end)] + rest
        }
    }
}

/// The components of `p` from the last to the first: the pieces of the
/// body that are components, then `/` for the root or `.` for a leading
/// current directory.
pub open spec fn components_back(p: Seq<char>) -> Seq<Seq<char>> {
    body_components_back(p, body_start(p), p.len() as int) + if p.len() > 0 && p[0] == '/' {
        seq![seq!['/']]
    } else if body_start(p) == 1 {
        seq![seq!['.']]
    } else {
        Seq::<Seq<char>>::empty()
    }
}

/// Two paths are the same `Path`: they have the same components.
pub open spec fn same_path(a: Seq<char>, b: Seq<char>) -> bool {
    components_back(a) == components_back(b)
}

/// The file name of `p` (`Path::file_name`): its last component when that
/// is a name, not the root, `.` or `..`.
pub open spec fn path_file_name(p: Seq<char>) -> Option<Seq<char>> {
    let base = body_start(p);
    let e = trim_back(p, base, p.len() as int);
    if e > base && last_piece(p, base, e) != seq!['.', '.'] {
        Some(last_piece(p, base, e))
    } else {
        None
    }
}

/// What `PathBuf::pop` leaves of a path with a file name: `p` up to the
/// end of the component before it.
pub open spec fn path_parent(p: Seq<char>) -> Seq<char> {
    let base = body_start(p);
    let e = trim_back(p, base, p.len() as int);
    p.subrange(0, trim_back(p, base, cut_point(p, base, e)))
}

/// `p` extended by `q` (`PathBuf::push`): an absolute `q` replaces `p`;
/// otherwise a `/` goes between them unless `p` is empty or ends with one.
pub open spec fn path_push(p: Seq<char>, q: Seq<char>) -> Seq<char> {
    if q.len() > 0 && q[0] == '/' {
        q
    } else if p.len() > 0 && p.last() != '/' {
        p + seq!['/'] + q
    } else {
        p + q
    }
}

/// `p` with its file name replaced by `name` (`Path::with_file_name`): the
/// file name, when there is one, is popped, then `name` is pushed.
pub open spec fn path_with_file_name(p: Seq<char>, name: Seq<char>) -> Seq<char> {
    path_push(
        if path_file_name(p) is Some {
            path_parent(p)
        } else {
            p
        },
        name,
    )
}

fn body_start_of(p: &str) -> (r: usize)
    ensures
        r == body_start(p@),
{
    let n = p.unicode_len();
    if n > 0 && p.get_char(0) == '/' {
        1
    } else if n > 0 && p.get_char(0) == '.' && (n == 1 || p.get_char(1) == '/') {
        1
    } else {
        0
    }
}

/// Where the last piece of the body of `p[..end]` starts.
fn piece_start(p: &str, base: usize, end: usize) -> (r: usize)
    requires
        base <= end <= p@.len(),
    ensures
        r == last_slash(p@, base as int, end as int) + 1,
        base <= r <= end,
{
    proof {
        lemma_last_slash(p@, base as int, end as int);
    }
    let mut i: usize = end;
    while i > base && p.get_char(i - 1) != '/'
        invariant
            base <= i <= end <= p@.len(),
            last_slash(p@, base as int, end as int) == last_slash(p@, base as int, i as int),
        decreases i,
    {
        i = i - 1;
    }
    i
}

fn is_no_component(p: &str, start: usize, end: usize) -> (r: bool)
    requires
        start <= end <= p@.len(),
    ensures
        r == no_component(p@.subrange(start as int, end as int)),
{
    let ghost piece = p@.subrange(start as int, end as int);
    if start == end {
        true
    } else if end == start + 1 && p.get_char(start) == '.' {
        assert(piece =~= seq!['.']);
        true
    } else {
        proof {
            if piece == seq!['.'] {
                assert(piece[0] == p@[start as int]);
            }
        }
        false
    }
}

fn cut_of(base: usize, start: usize) -> (r: usize)
    requires
        base <= start,
    ensures
        r == if start - 1 < base {
            base as int
        } else {
            start - 1
        },
{
    if start == base {
        base
    } else {
        start - 1
    }
}

fn trim_back_of(p: &str, base: usize, end: usize) -> (r: usize)
    requires
        base <= end <= p@.len(),
    ensures
        r == trim_back(p@, base as int, end as int),
        base <= r <= end,
{
    let mut e: usize = end;
    while e > base
        invariant
            base <= e <= end <= p@.len(),
            trim_back(p@, base as int, e as int) == trim_back(p@, base as int, end as int),
        ensures
            base <= e <= end,
            trim_back(p@, base as int, e as int) == trim_back(p@, base as int, end as int),
            trim_back(p@, base as int, e as int) == e,
        decreases e,
    {
        let s = piece_start(p, base, e);
        if !is_no_component(p, s, e) {
            break;
        }
        e = cut_of(base, s);
    }
    e
}

/// The components of `p` from the last to the first.
pub fn components_back_of(p: &str) -> (r: Vec<String>)
    ensures
        r.deep_view() == components_back(p@),
{
    let base = body_start_of(p);
    let n = p.unicode_len();
    let mut out: Vec<String> = Vec::new();
    let mut e: usize = n;
    while e > base
        invariant
            base == body_start(p@),
            base <= e <= n == p@.len(),
            out.deep_view() + body_components_back(p@, base as int, e as int)
                == body_components_back(p@, base as int, n as int),
        decreases e,
    {
        let s = piece_start(p, base, e);
        let ghost rest = body_components_back(p@, base as int, cut_point(p@, base as int, e as int));
        if !is_no_component(p, s, e) {
            let ghost before = out.deep_view();
            let piece = substring(p, s, e);
            out.push(piece);
            assert(out.deep_view() =~= before.push(p@.subrange(s as int, e as int)));
            assert(before.push(p@.subrange(s as int, e as int)) + rest =~= before + (seq![
                p@.subrange(s as int, e as int),
            ] + rest));
        }
        e = cut_of(base, s);
    }
    assert(out.deep_view() + Seq::<Seq<char>>::empty() =~= out.deep_view());
    let ghost body = out.deep_view();
    if n > 0 && p.get_char(0) == '/' {
        out.push(owned("/"));
        proof {
            reveal_strlit("/");
            assert("/"@ =~= seq!['/']);
            assert(out.deep_view() =~= body + seq![seq!['/']]);
        }
    } else if base == 1 {
        out.push(owned("."));
        proof {
            reveal_strlit(".");
            assert("."@ =~= seq!['.']);
            assert(out.deep_view() =~= body + seq![seq!['.']]);
        }
    } else {
        assert(out.deep_view() =~= body + Seq::<Seq<char>>::empty());
    }
    out
}

/// Whether two lists of strings are equal.
fn same_texts(a: &Vec<String>, b: &Vec<String>) -> (r: bool)
    ensures
        r == (a.deep_view() == b.deep_view()),
{
    if a.len() != b.len() {
        proof {
            if a.deep_view() == b.deep_view() {
                assert(a.deep_view().len() == b.deep_view().len());
            }
        }
        return false;
    }
    let mut i: usize = 0;
    while i < a.len()
        invariant
            a@.len() == b@.len(),
            i <= a@.len(),
            forall|j: int| 0 <= j < i ==> a@[j]@ == b@[j]@,
        decreases a@.len() - i,
    {
        if !same_text(a[i].as_str(), b[i].as_str()) {
            proof {
                if a.deep_view() == b.deep_view() {
                    assert(a.deep_view()[i as int] == b.deep_view()[i as int]);
                }
            }
            return false;
        }
        i = i + 1;
    }
    assert(a.deep_view() =~= b.deep_view());
    true
}

/// Whether `a` and `b` are the same `Path`.
pub fn same_path_of(a: &str, b: &str) -> (r: bool)
    ensures
        r == same_path(a@, b@),
{
    let ca = components_back_of(a);
    let cb = components_back_of(b);
    same_texts(&ca, &cb)
}

/// The file name of `p`.
pub fn file_name_of(p: &str) -> (r: Option<String>)
    ensures
        r.deep_view() == path_file_name(p@),
{
    let base = body_start_of(p);
    let e = trim_back_of(p, base, p.unicode_len());
    if e > base {
        let s = piece_start(p, base, e);
        if same_text(substring(p, s, e).as_str(), "..") {
            proof {
                reveal_strlit("..");
                assert(".."@ =~= seq!['.', '.']);
            }
            None
        } else {
            proof {
                reveal_strlit("..");
                assert(".."@ =~= seq!['.', '.']);
            }
            Some(substring(p, s, e))
        }
    } else {
        None
    }
}

/// What `PathBuf::pop` leaves of `p`, when `p` has a file name.
fn parent_of(p: &str) -> (r: String)
    ensures
        r@ == path_parent(p@),
{
    let base = body_start_of(p);
    let e = trim_back_of(p, base, p.unicode_len());
    let s = piece_start(p, base, e);
    let c = cut_of(base, s);
    let end = trim_back_of(p, base, c);
    substring(p, 0, end)
}

/// `p` extended by `q`, as `PathBuf::push` does.
pub fn push_path(p: &str, q: &str) -> (r: String)
    ensures
        r@ == path_push(p@, q@),
{
    let n = p.unicode_len();
    if q.unicode_len() > 0 && q.get_char(0) == '/' {
        owned(q)
    } else if n > 0 && p.get_char(n - 1) != '/' {
        let mut out = owned(p);
        append(&mut out, "/");
        append(&mut out, q);
        proof {
            reveal_strlit("/");
            assert("/"@ =~= seq!['/']);
        }
        out
    } else {
        let mut out = owned(p);
        append(&mut out, q);
        out
    }
}

/// `p` with its file name replaced by `name`, as `Path::with_file_name` does.
pub fn with_file_name_of(p: &str, name: &str) -> (r: String)
    ensures
        r@ == path_with_file_name(p@, name@),
{
    if file_name_of(p).is_some() {
        let parent = parent_of(p);
        push_path(parent.as_str(), name)
    } else {
        push_path(p, name)
    }
}

/// A file name without its extension: the part before the last `.`,
/// unless that part is empty (as in `.hidden`).
pub open spec fn name_stem(name: Seq<char>) -> Seq<char> {
    if name.contains('.') {
        let before = name.subrange(0, name.len() - after_last(name, seq!['.']).len() - 1);
        if before.len() == 0 {
            name
        } else {
            before
        }
    } else {
        name
    }
}

/// The file name of the Unix path `p` without its extension.
pub open spec fn unix_file_stem(p: Seq<char>) -> Option<Seq<char>> {
    match path_file_name(p) {
        Some(n) => Some(name_stem(n)),
        None => None,
    }
}

/// The stem of a file name.
pub fn stem_of(name: &str) -> (r: String)
    ensures
        r@ == name_stem(name@),
{
    let n = name.unicode_len();
    let mut i: usize = n;
    let ghost dot = seq!['.'];
    while i > 0 && name.get_char(i - 1) != '.'
        invariant
            n == name@.len(),
            i <= n,
            dot == seq!['.'],
            forall|j: int| i <= j < n ==> !dot.contains(#[trigger] name@[j]),
        decreases i,
    {
        proof {
            assert(!dot.contains(name@[i - 1])) by {
                if dot.contains(name@[i - 1]) {
                    assert(dot[0] == '.');
                }
            }
        }
        i = i - 1;
    }
    if i == 0 {
        proof {
            if name@.contains('.') {
                let k = choose|k: int| 0 <= k < name@.len() && name@[k] == '.';
                assert(dot.contains(name@[k])) by {
                    assert(dot[0] == name@[k]);
                }
            }
        }
        return owned(name);
    }
    proof {
        assert(dot.contains(name@[i - 1])) by {
            assert(dot[0] == name@[i - 1]);
        }
        lemma_after_last(name@, dot, i as int);
        assert(name@.contains('.')) by {
            assert(name@[i - 1] == '.');
        }
    }
    if i == 1 {
        owned(name)
    } else {
        substring(name, 0, i - 1)
    }
}

/// The file name of a Unix path without its extension, if it has a file name.
pub fn unix_stem_of(p: &str) -> (r: Option<String>)
    ensures
        r.deep_view() == unix_file_stem(p@),
{
    match file_name_of(p) {
        Some(name) => Some(stem_of(name.as_str())),
        None => None,
    }
}

} // verus!
