//! Path text. A path is a string whose components are separated by `/`.
//!
//! Repeated separators, trailing separators and `.` components count for
//! nothing, except a `.` that opens a relative path. The file name of a path is
//! its last component, unless that is `..`, the root, or the opening `.`.

use vstd::prelude::*;
use vstd::string::*;

verus! {

/// The component `.`.
pub open spec fn dot() -> Seq<char> {
    seq!['.']
}

/// The component `..`.
pub open spec fn dot_dot() -> Seq<char> {
    seq!['.', '.']
}

/// Where the last component of `p` ends: the length of `p` once trailing
/// separators, and trailing `.` components behind a separator, are dropped.
pub open spec fn name_end(p: Seq<char>) -> int
    decreases p.len(),
{
    if p.len() == 0 {
        0
    } else if p.last() == '/' {
        name_end(p.drop_last())
    } else if p.last() == '.' && p.len() >= 2 && p[p.len() - 2] == '/' {
        name_end(p.drop_last())
    } else {
        p.len() as int
    }
}

/// The index just behind the last separator of `p`, or 0 where it has none.
pub open spec fn after_last_separator(p: Seq<char>) -> int
    decreases p.len(),
{
    if p.len() == 0 || p.last() == '/' {
        p.len() as int
    } else {
        after_last_separator(p.drop_last())
    }
}

/// Where the last component of `p` starts.
pub open spec fn name_start(p: Seq<char>) -> int {
    after_last_separator(p.take(name_end(p)))
}

/// The last component of `p`; empty where `p` has none.
pub open spec fn last_component(p: Seq<char>) -> Seq<char> {
    p.subrange(name_start(p), name_end(p))
}

/// A component that names a file or a directory: not empty, without a
/// separator, and neither `.` nor `..`.
pub open spec fn is_name(c: Seq<char>) -> bool {
    &&& c.len() > 0
    &&& !c.contains('/')
    &&& c != dot()
    &&& c != dot_dot()
}

/// The file name of `p`: its last component, where that is a name.
pub open spec fn spec_file_name(p: Seq<char>) -> Option<Seq<char>> {
    let c = last_component(p);
    if c.len() == 0 || c == dot() || c == dot_dot() {
        None
    } else {
        Some(c)
    }
}

/// The index of the last `.` in `s`, or -1 where it has none.
pub open spec fn last_dot(s: Seq<char>) -> int
    decreases s.len(),
{
    if s.len() == 0 {
        -1
    } else if s.last() == '.' {
        s.len() - 1
    } else {
        last_dot(s.drop_last())
    }
}

/// The length of the stem of a file name: what stands before its last `.`,
/// or the whole name where it has no `.` but at its start.
pub open spec fn stem_len(name: Seq<char>) -> int {
    if last_dot(name) <= 0 {
        name.len() as int
    } else {
        last_dot(name)
    }
}

/// The extension of a file name: what stands behind its last `.`, where that
/// `.` is not its first character.
pub open spec fn name_extension(name: Seq<char>) -> Option<Seq<char>> {
    if last_dot(name) <= 0 {
        None
    } else {
        Some(name.skip(last_dot(name) + 1))
    }
}

/// The extension of the file name of `p`.
pub open spec fn spec_extension(p: Seq<char>) -> Option<Seq<char>> {
    match spec_file_name(p) {
        Some(name) => name_extension(name),
        None => None,
    }
}

/// What an extension adds behind a stem: nothing where it is empty, else a
/// `.` and the extension.
pub open spec fn extension_suffix(ext: Seq<char>) -> Seq<char> {
    if ext.len() == 0 {
        Seq::<char>::empty()
    } else {
        seq!['.'] + ext
    }
}

/// `p` with the extension of its file name replaced by `ext`; `p` itself
/// where it has no file name. What stood behind the file name is dropped.
pub open spec fn spec_with_extension(p: Seq<char>, ext: Seq<char>) -> Seq<char> {
    match spec_file_name(p) {
        Some(name) => p.take(name_start(p) + stem_len(name)) + extension_suffix(ext),
        None => p,
    }
}

/// `name` adjoined to `dir`: an absolute `name` replaces `dir`; otherwise
/// one separator is put between them unless `dir` is empty or ends in one.
pub open spec fn spec_join(dir: Seq<char>, name: Seq<char>) -> Seq<char> {
    if name.len() > 0 && name[0] == '/' {
        name
    } else if dir.len() > 0 && dir.last() != '/' {
        dir + seq!['/'] + name
    } else {
        dir + name
    }
}

/// Whether `p` opens with the component `.`.
pub open spec fn opens_with_dot(p: Seq<char>) -> bool {
    p.len() > 0 && p[0] == '.' && (p.len() == 1 || p[1] == '/')
}

/// How `p` opens: with the root (`/`), with the current directory (`.`), or
/// with neither (empty).
pub open spec fn head(p: Seq<char>) -> Seq<char> {
    if p.len() > 0 && p[0] == '/' {
        seq!['/']
    } else if opens_with_dot(p) {
        dot()
    } else {
        Seq::<char>::empty()
    }
}

/// The components of `p` behind its head, first to last: names and `..`.
pub open spec fn body(p: Seq<char>) -> Seq<Seq<char>>
    decreases p.len(),
{
    let e = name_end(p);
    let s = name_start(p);
    if e <= 0 || e > p.len() || s < 0 || s >= e || (e == 1 && p[0] == '.') {
        Seq::<Seq<char>>::empty()
    } else {
        body(p.take(s)).push(p.subrange(s, e))
    }
}

/// Two paths are the same where they open alike and have the same
/// components, whatever separators and `.` components they are written with.
pub open spec fn spec_same_path(a: Seq<char>, b: Seq<char>) -> bool {
    head(a) == head(b) && body(a) == body(b)
}

/// The last component of any path lies inside it and holds no separator; it
/// is empty only where the path has no component at all.
pub proof fn lemma_last_component_bounds(p: Seq<char>)
    ensures
        0 <= name_start(p) <= name_end(p) <= p.len(),
        !last_component(p).contains('/'),
        name_end(p) > 0 ==> name_start(p) < name_end(p),
{
    lemma_name_end_bounds(p);
    let stem = p.take(name_end(p));
    lemma_after_last_separator(stem);
    let c = last_component(p);
    assert(c =~= stem.skip(name_start(p)));
}

proof fn lemma_name_end_bounds(p: Seq<char>)
    ensures
        0 <= name_end(p) <= p.len(),
        name_end(p) > 0 ==> p[name_end(p) - 1] != '/',
    decreases p.len(),
{
    if p.len() > 0 && (p.last() == '/' || (p.last() == '.' && p.len() >= 2 && p[p.len() - 2]
        == '/')) {
        lemma_name_end_bounds(p.drop_last());
    }
}

proof fn lemma_after_last_separator(s: Seq<char>)
    ensures
        0 <= after_last_separator(s) <= s.len(),
        !s.skip(after_last_separator(s)).contains('/'),
        after_last_separator(s) > 0 ==> s[after_last_separator(s) - 1] == '/',
        s.len() > 0 && s.last() != '/' ==> after_last_separator(s) < s.len(),
    decreases s.len(),
{
    if s.len() == 0 || s.last() == '/' {
        assert(s.skip(s.len() as int) =~= Seq::<char>::empty());
    } else {
        let t = s.drop_last();
        lemma_after_last_separator(t);
        let k = after_last_separator(t);
        assert(s.skip(k) =~= t.skip(k).push(s.last()));
        assert forall|i: int| 0 <= i < s.skip(k).len() implies s.skip(k)[i] != '/' by {
            if i < t.skip(k).len() {
                assert(t.skip(k).contains(t.skip(k)[i]));
            }
        }
    }
}

proof fn lemma_separator_free_tail(a: Seq<char>, b: Seq<char>)
    requires
        !b.contains('/'),
    ensures
        after_last_separator(a + b) == after_last_separator(a),
    decreases b.len(),
{
    if b.len() == 0 {
        assert(a + b =~= a);
    } else {
        let s = a + b;
        assert(s.last() == b.last());
        assert(b.contains(b.last()));
        assert(s.drop_last() =~= a + b.drop_last());
        assert forall|i: int| 0 <= i < b.drop_last().len() implies b.drop_last()[i] != '/' by {
            assert(b.contains(b[i]));
        }
        lemma_separator_free_tail(a, b.drop_last());
    }
}

proof fn lemma_last_dot_of_suffix(a: Seq<char>, b: Seq<char>)
    requires
        !b.contains('.'),
    ensures
        last_dot(a + seq!['.'] + b) == a.len(),
    decreases b.len(),
{
    let s = a + seq!['.'] + b;
    if b.len() == 0 {
        assert(s.last() == '.');
    } else {
        assert(s.last() == b.last());
        assert(b.contains(b.last()));
        assert(s.drop_last() =~= a + seq!['.'] + b.drop_last());
        assert forall|i: int| 0 <= i < b.drop_last().len() implies b.drop_last()[i] != '.' by {
            assert(b.contains(b[i]));
        }
        lemma_last_dot_of_suffix(a, b.drop_last());
    }
}

/// A path that ends in a name has that name as its file name: `prefix` is
/// empty or ends in a separator, and `name` is a name.
proof fn lemma_file_name_of_tail(prefix: Seq<char>, name: Seq<char>)
    requires
        prefix.len() == 0 || prefix.last() == '/',
        is_name(name),
    ensures
        name_end(prefix + name) == prefix.len() + name.len(),
        name_start(prefix + name) == prefix.len(),
        spec_file_name(prefix + name) == Some(name),
{
    let p = prefix + name;
    assert(p.last() == name.last());
    assert(name.contains(name.last()));
    if p.last() == '.' && p.len() >= 2 && p[p.len() - 2] == '/' {
        if name.len() >= 2 {
            assert(name.contains(name[name.len() - 2]));
        } else {
            assert(name =~= dot());
        }
    }
    assert(name_end(p) == p.len());
    assert(p.take(p.len() as int) =~= p);
    lemma_separator_free_tail(prefix, name);
    assert(after_last_separator(prefix) == prefix.len());
    assert(p.subrange(prefix.len() as int, p.len() as int) =~= name);
}

/// The file name of a path is a name.
pub proof fn lemma_file_name_is_name(p: Seq<char>)
    requires
        spec_file_name(p) is Some,
    ensures
        is_name(spec_file_name(p)->0),
        spec_file_name(p)->0 == last_component(p),
{
    lemma_last_component_bounds(p);
}

/// A name adjoined to any directory is the file name of the result.
pub proof fn lemma_file_name_of_join(dir: Seq<char>, name: Seq<char>)
    requires
        is_name(name),
    ensures
        spec_file_name(spec_join(dir, name)) == Some(name),
{
    assert(name.contains(name[0]));
    if dir.len() > 0 && dir.last() != '/' {
        assert(dir + seq!['/'] + name =~= (dir + seq!['/']) + name);
        lemma_file_name_of_tail(dir + seq!['/'], name);
    } else {
        lemma_file_name_of_tail(dir, name);
    }
}

/// Replacing the extension of a path that has a file name gives a path
/// with that extension, where the extension is not empty and holds neither a
/// `.` nor a separator. What stands before the file name stays as it is.
pub proof fn lemma_with_extension_sets_extension(p: Seq<char>, ext: Seq<char>)
    requires
        spec_file_name(p) is Some,
        ext.len() > 0,
        !ext.contains('.'),
        !ext.contains('/'),
    ensures
        spec_extension(spec_with_extension(p, ext)) == Some(ext),
        spec_file_name(spec_with_extension(p, ext)) == Some(
            spec_file_name(p)->0.take(stem_len(spec_file_name(p)->0)) + seq!['.'] + ext,
        ),
        name_start(spec_with_extension(p, ext)) == name_start(p),
        spec_with_extension(p, ext).take(name_start(p)) == p.take(name_start(p)),
{
    lemma_last_component_bounds(p);
    let name = spec_file_name(p)->0;
    let start = name_start(p);
    let prefix = p.take(start);
    let stem = name.take(stem_len(name));
    lemma_last_dot_bounds(name);
    let fresh = stem + seq!['.'] + ext;
    let out = spec_with_extension(p, ext);
    assert(out =~= prefix + fresh);
    assert(p.take(start + stem_len(name)) =~= prefix + stem);
    assert(start > 0 ==> prefix.last() == '/') by {
        lemma_after_last_separator(p.take(name_end(p)));
    }
    assert(is_name(fresh)) by {
        assert(stem.len() >= 1);
        assert(fresh.last() == ext.last());
        assert(ext.contains(ext.last()));
        assert forall|i: int| 0 <= i < fresh.len() implies fresh[i] != '/' by {
            if i < stem.len() {
                assert(name.contains(name[i]));
            } else if i > stem.len() {
                assert(ext.contains(ext[i - stem.len() - 1]));
            }
        }
        assert(fresh.len() >= 3);
    }
    lemma_file_name_of_tail(prefix, fresh);
    lemma_last_dot_of_suffix(stem, ext);
    assert(fresh.skip(stem.len() as int + 1) =~= ext);
    assert(out.take(start) =~= prefix);
}

proof fn lemma_last_dot_bounds(s: Seq<char>)
    ensures
        -1 <= last_dot(s) < s.len(),
    decreases s.len(),
{
    if s.len() > 0 && s.last() != '.' {
        lemma_last_dot_bounds(s.drop_last());
    }
}

/// Every path is the same path as itself.
pub proof fn lemma_same_path_is_reflexive(p: Seq<char>)
    ensures
        spec_same_path(p, p),
{
}

/// Collects the characters of a string.
fn chars_of(s: &str) -> (v: Vec<char>)
    ensures
        v@ == s@,
{
    let mut v: Vec<char> = Vec::new();
    for c in it: s.chars()
        invariant
            it.seq() == s@,
            v@ == s@.take(it.index()),
    {
        v.push(c);
        assert(s@.take(it.index() + 1) =~= s@.take(it.index()).push(c));
    }
    assert(s@.take(s@.len() as int) =~= s@);
    v
}

/// Where the last component of the first `upto` characters ends.
fn scan_name_end(p: &Vec<char>, upto: usize) -> (e: usize)
    requires
        upto <= p.len(),
    ensures
        e == name_end(p@.take(upto as int)),
        e <= upto,
{
    let mut e: usize = upto;
    while e > 0 && (p[e - 1] == '/' || (p[e - 1] == '.' && e >= 2 && p[e - 2] == '/'))
        invariant
            e <= upto <= p.len(),
            name_end(p@.take(upto as int)) == name_end(p@.take(e as int)),
        decreases e,
    {
        assert(p@.take(e as int).drop_last() =~= p@.take(e - 1));
        e = e - 1;
    }
    e
}

/// Where the component that ends at `end` starts.
fn scan_name_start(p: &Vec<char>, end: usize) -> (s: usize)
    requires
        end <= p.len(),
    ensures
        s == after_last_separator(p@.take(end as int)),
        s <= end,
{
    let mut s: usize = end;
    while s > 0 && p[s - 1] != '/'
        invariant
            s <= end <= p.len(),
            after_last_separator(p@.take(end as int)) == after_last_separator(p@.take(s as int)),
        decreases s,
    {
        assert(p@.take(s as int).drop_last() =~= p@.take(s - 1));
        s = s - 1;
    }
    s
}

/// Where the last component of a path lies, and whether it is a file name.
struct NameSpan {
    start: usize,
    end: usize,
    named: bool,
}

/// Finds the last component of `p`.
fn locate_name(p: &Vec<char>) -> (span: NameSpan)
    ensures
        span.start == name_start(p@),
        span.end == name_end(p@),
        span.start <= span.end <= p.len(),
        span.named == (spec_file_name(p@) is Some),
        span.named ==> span.start < span.end,
{
    assert(p@.take(p.len() as int) =~= p@);
    let end = scan_name_end(p, p.len());
    let start = scan_name_start(p, end);
    let len = end - start;
    let ghost c = last_component(p@);
    let named = if len == 0 {
        false
    } else if len == 1 && p[start] == '.' {
        assert(c =~= dot());
        false
    } else if len == 2 && p[start] == '.' && p[start + 1] == '.' {
        assert(c =~= dot_dot());
        false
    } else {
        assert(c != dot()) by {
            if c == dot() {
                assert(c.len() == 1 && c[0] == '.');
            }
        }
        assert(c != dot_dot()) by {
            if c == dot_dot() {
                assert(c.len() == 2 && c[0] == '.' && c[1] == '.');
            }
        }
        true
    };
    NameSpan { start, end, named }
}

/// The index of the last `.` among the characters from `start` up to `end`.
fn scan_last_dot(p: &Vec<char>, start: usize, end: usize) -> (found: Option<usize>)
    requires
        start <= end <= p.len(),
    ensures
        match found {
            Some(i) => start <= i < end && last_dot(p@.subrange(start as int, end as int)) == i
                - start,
            None => last_dot(p@.subrange(start as int, end as int)) == -1,
        },
{
    let mut i: usize = end;
    while i > start && p[i - 1] != '.'
        invariant
            start <= i <= end <= p.len(),
            last_dot(p@.subrange(start as int, end as int)) == last_dot(
                p@.subrange(start as int, i as int),
            ),
        decreases i,
    {
        assert(p@.subrange(start as int, i as int).drop_last() =~= p@.subrange(
            start as int,
            i - 1,
        ));
        i = i - 1;
    }
    if i > start {
        Some(i - 1)
    } else {
        None
    }
}

/// The file name of `path`: its last component, unless the path ends in
/// `..` or has no component that names anything.
pub fn file_name(path: &str) -> (name: Option<String>)
    ensures
        match name {
            Some(n) => spec_file_name(path@) == Some(n@),
            None => spec_file_name(path@) is None,
        },
{
    let chars = chars_of(path);
    let span = locate_name(&chars);
    if span.named {
        Some(String::from_str(path.substring_char(span.start, span.end)))
    } else {
        None
    }
}

/// The extension of the file name of `path`: what stands behind the last
/// `.` of the file name, unless that `.` is its first character.
pub fn extension(path: &str) -> (ext: Option<String>)
    ensures
        match ext {
            Some(e) => spec_extension(path@) == Some(e@),
            None => spec_extension(path@) is None,
        },
{
    let chars = chars_of(path);
    let span = locate_name(&chars);
    if !span.named {
        return None;
    }
    let ghost name = last_component(path@);
    match scan_last_dot(&chars, span.start, span.end) {
        Some(i) => {
            if i > span.start {
                assert(name.skip(i - span.start + 1) =~= path@.subrange(i + 1, span.end as int));
                Some(String::from_str(path.substring_char(i + 1, span.end)))
            } else {
                None
            }
        },
        None => None,
    }
}

/// `path` with the extension of its file name replaced by `ext`. An empty
/// `ext` removes the extension. A path without a file name is returned as it
/// is. Separators and `.` components behind the file name are dropped.
pub fn with_extension(path: &str, ext: &str) -> (out: String)
    requires
        !ext@.contains('/'),
    ensures
        out@ == spec_with_extension(path@, ext@),
{
    let chars = chars_of(path);
    let span = locate_name(&chars);
    if !span.named {
        return String::from_str(path);
    }
    let keep = match scan_last_dot(&chars, span.start, span.end) {
        Some(i) => if i > span.start {
            i
        } else {
            span.end
        },
        None => span.end,
    };
    let mut out = String::from_str(path.substring_char(0, keep));
    if !ext.is_empty() {
        proof {
            reveal_strlit(".");
        }
        assert("."@ =~= seq!['.']);
        out.append(".");
        out.append(ext);
    }
    assert(out@ =~= spec_with_extension(path@, ext@));
    out
}

/// `name` adjoined to `dir`. An absolute `name` replaces `dir`.
pub fn join(dir: &str, name: &str) -> (out: String)
    ensures
        out@ == spec_join(dir@, name@),
{
    if !name.is_empty() && name.get_char(0) == '/' {
        return String::from_str(name);
    }
    let mut out = String::from_str(dir);
    let len = dir.unicode_len();
    if len > 0 && dir.get_char(len - 1) != '/' {
        proof {
            reveal_strlit("/");
        }
        assert("/"@ =~= seq!['/']);
        out.append("/");
    }
    out.append(name);
    out
}

/// How a path opens: 2 for the root, 1 for `.`, 0 for neither.
fn head_kind(p: &Vec<char>) -> (k: u8)
    ensures
        k <= 2,
        k == 2 ==> head(p@) == seq!['/'],
        k == 1 ==> head(p@) == dot(),
        k == 0 ==> head(p@) == Seq::<char>::empty(),
{
    if p.len() > 0 && p[0] == '/' {
        2
    } else if p.len() > 0 && p[0] == '.' && (p.len() == 1 || p[1] == '/') {
        1
    } else {
        0
    }
}

/// Whether two stretches of characters hold the same text.
fn same_text(x: &Vec<char>, sx: usize, ex: usize, y: &Vec<char>, sy: usize, ey: usize) -> (same:
    bool)
    requires
        sx <= ex <= x.len(),
        sy <= ey <= y.len(),
    ensures
        same == (x@.subrange(sx as int, ex as int) == y@.subrange(sy as int, ey as int)),
{
    let ghost u = x@.subrange(sx as int, ex as int);
    let ghost v = y@.subrange(sy as int, ey as int);
    if ex - sx != ey - sy {
        assert(u.len() != v.len());
        return false;
    }
    let n = ex - sx;
    let mut k: usize = 0;
    while k < n
        invariant
            sx <= ex <= x.len(),
            sy <= ey <= y.len(),
            n == ex - sx,
            n == ey - sy,
            k <= n,
            u == x@.subrange(sx as int, ex as int),
            v == y@.subrange(sy as int, ey as int),
            forall|i: int| 0 <= i < k ==> u[i] == v[i],
        decreases n - k,
    {
        if x[sx + k] != y[sy + k] {
            assert(u[k as int] != v[k as int]);
            return false;
        }
        k = k + 1;
    }
    assert(u =~= v);
    true
}

proof fn lemma_push_is_injective(a: Seq<Seq<char>>, x: Seq<char>, b: Seq<Seq<char>>, y: Seq<char>)
    ensures
        (a.push(x) == b.push(y)) == (a == b && x == y),
{
    if a.push(x) == b.push(y) {
        assert(a.push(x).last() == x);
        assert(b.push(y).last() == y);
        assert(a.push(x).drop_last() =~= a);
        assert(b.push(y).drop_last() =~= b);
    }
}

/// Whether two paths are the same: they open alike and have the same
/// components. `a/b`, `a//b/` and `a/./b` are the same path; `a/b` and `./a/b`
/// are not.
pub fn same_path(a: &str, b: &str) -> (same: bool)
    ensures
        same == spec_same_path(a@, b@),
{
    let x = chars_of(a);
    let y = chars_of(b);
    let hx = head_kind(&x);
    let hy = head_kind(&y);
    if hx != hy {
        assert(head(x@) != head(y@)) by {
            if head(x@) == head(y@) {
                assert(head(x@).len() == head(y@).len());
                assert(head(x@).len() > 0 ==> head(x@)[0] == head(y@)[0]);
            }
        }
        return false;
    }
    assert(x@.take(x.len() as int) =~= x@);
    assert(y@.take(y.len() as int) =~= y@);
    let mut i: usize = x.len();
    let mut j: usize = y.len();
    loop
        invariant
            i <= x.len(),
            j <= y.len(),
            x@ == a@,
            y@ == b@,
            head(a@) == head(b@),
            (body(a@) == body(b@)) == (body(x@.take(i as int)) == body(y@.take(j as int))),
        decreases i,
    {
        let ghost p = x@.take(i as int);
        let ghost q = y@.take(j as int);
        let ex = scan_name_end(&x, i);
        let ey = scan_name_end(&y, j);
        assert(p.take(ex as int) =~= x@.take(ex as int));
        assert(q.take(ey as int) =~= y@.take(ey as int));
        let sx = scan_name_start(&x, ex);
        let sy = scan_name_start(&y, ey);
        proof {
            lemma_last_component_bounds(p);
            lemma_last_component_bounds(q);
        }
        let done_x = ex == 0 || (ex == 1 && x[0] == '.');
        let done_y = ey == 0 || (ey == 1 && y[0] == '.');
        assert(done_x == (body(p).len() == 0));
        assert(done_y == (body(q).len() == 0));
        if done_x || done_y {
            assert((done_x && done_y) == (body(p) == body(q))) by {
                if done_x && done_y {
                    assert(body(p) =~= body(q));
                }
            }
            return done_x && done_y;
        }
        assert(p.take(sx as int) =~= x@.take(sx as int));
        assert(q.take(sy as int) =~= y@.take(sy as int));
        assert(p.subrange(sx as int, ex as int) =~= x@.subrange(sx as int, ex as int));
        assert(q.subrange(sy as int, ey as int) =~= y@.subrange(sy as int, ey as int));
        proof {
            lemma_push_is_injective(
                body(x@.take(sx as int)),
                x@.subrange(sx as int, ex as int),
                body(y@.take(sy as int)),
                y@.subrange(sy as int, ey as int),
            );
        }
        if !same_text(&x, sx, ex, &y, sy, ey) {
            return false;
        }
        i = sx;
        j = sy;
    }
}

} // verus!
