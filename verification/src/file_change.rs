//! File changes: the new content of a file, and how it is shown.

use vstd::prelude::*;
use vstd::string::*;

use crate::text::{
    chars_of, extend_chars, extend_str, join_strings, lemma_join_split, lemma_split_concat,
    lemma_split_from_len, split_char, split_from, split_on, string_of, views,
};

verus! {

/// A path that starts at the root directory.
pub open spec fn is_absolute(p: Seq<char>) -> bool {
    p.len() > 0 && p[0] == '/'
}

/// `Path::join` on `/`-separated paths: an absolute `p` replaces `base`,
/// else `p` is appended with one separator between them.
pub open spec fn join_path(base: Seq<char>, p: Seq<char>) -> Seq<char> {
    if is_absolute(p) || base.len() == 0 {
        p
    } else if base.last() == '/' {
        base + p
    } else {
        base + seq!['/'] + p
    }
}

/// Joins two `/`-separated paths (`Path::join`).
pub fn join(base: &str, p: &str) -> (r: String)
    ensures
        r@ == join_path(base@, p@),
{
    let b = chars_of(base);
    let pc = chars_of(p);
    if (pc.len() > 0 && pc[0] == '/') || b.len() == 0 {
        return string_of(pc.as_slice());
    }
    let mut r = b;
    if r[r.len() - 1] != '/' {
        r.push('/');
    }
    extend_chars(&mut r, pc.as_slice());
    string_of(r.as_slice())
}

/// `path` itself when it is absolute, else `path` under `base`.
pub fn make_absolute(base: &str, path: &str) -> (r: String)
    ensures
        r@ == if is_absolute(path@) {
            path@
        } else {
            join_path(base@, path@)
        },
{
    join(base, path)
}

/// The parts of a path, between `/` separators, that name something: the
/// empty parts that repeated, leading or trailing separators leave and the
/// `.` parts are dropped.
pub open spec fn named_parts(ps: Seq<Seq<char>>) -> Seq<Seq<char>>
    decreases ps.len(),
{
    if ps.len() == 0 {
        seq![]
    } else {
        let prev = named_parts(ps.drop_last());
        if ps.last().len() == 0 || ps.last() == seq!['.'] {
            prev
        } else {
            prev.push(ps.last())
        }
    }
}

/// The components of a `/`-separated path, as `Path::components` gives
/// them: `/` for the root of an absolute path, `.` for a relative path that
/// starts with `.`, then the parts that name something; repeated
/// separators and `.` parts elsewhere are no components.
pub open spec fn path_components(p: Seq<char>) -> Seq<Seq<char>> {
    let ps = split_char(p, '/');
    (if p.len() > 0 && p[0] == '/' {
        seq![seq!['/']]
    } else if ps[0] == seq!['.'] {
        seq![seq!['.']]
    } else {
        seq![]
    }) + named_parts(ps)
}

/// `Path::strip_prefix` on `/`-separated paths, component by component:
/// when the components of `root` begin those of `path`, the components of
/// `path` after them, joined by `/`; `path` itself for an empty `root`.
pub open spec fn strip_path_prefix(path: Seq<char>, root: Seq<char>) -> Option<Seq<char>> {
    let pc = path_components(path);
    let rc = path_components(root);
    if root.len() == 0 {
        Some(path)
    } else if rc.len() <= pc.len() && pc.take(rc.len() as int) == rc {
        Some(crate::text::join(pc.skip(rc.len() as int), seq!['/']))
    } else {
        None
    }
}

/// A relative path whose every part names something: no empty part and no
/// `.` part.
pub open spec fn plain_relative(p: Seq<char>) -> bool {
    forall|i: int|
        0 <= i < split_char(p, '/').len() ==> (#[trigger] split_char(p, '/')[i]).len() > 0
            && split_char(p, '/')[i] != seq!['.']
}

proof fn lemma_named_parts_concat(a: Seq<Seq<char>>, b: Seq<Seq<char>>)
    ensures
        named_parts(a + b) == named_parts(a) + named_parts(b),
    decreases b.len(),
{
    if b.len() == 0 {
        assert(a + b =~= a);
        assert(named_parts(a) + named_parts(b) =~= named_parts(a));
    } else {
        assert((a + b).drop_last() =~= a + b.drop_last());
        assert((a + b).last() == b.last());
        lemma_named_parts_concat(a, b.drop_last());
        assert((named_parts(a) + named_parts(b.drop_last())).push(b.last()) =~= named_parts(a)
            + named_parts(b.drop_last()).push(b.last()));
    }
}

proof fn lemma_named_parts_all(ps: Seq<Seq<char>>)
    requires
        forall|i: int| 0 <= i < ps.len() ==> (#[trigger] ps[i]).len() > 0 && ps[i] != seq!['.'],
    ensures
        named_parts(ps) == ps,
    decreases ps.len(),
{
    if ps.len() > 0 {
        lemma_named_parts_all(ps.drop_last());
        assert(ps.drop_last().push(ps.last()) =~= ps);
    }
}

/// A plain relative path joined under a root and then shown relative to
/// that root is the path itself: what a bump shows for a version file is
/// the path as it was matched.
pub proof fn law_relative_path_undoes_join(root: Seq<char>, p: Seq<char>)
    requires
        plain_relative(p),
    ensures
        strip_path_prefix(join_path(root, p), root) == Some(p),
{
    if root.len() > 0 {
        lemma_relative_path_under_root(root, p);
    }
}

proof fn lemma_relative_path_under_root(root: Seq<char>, p: Seq<char>)
    requires
        root.len() > 0,
        plain_relative(p),
    ensures
        strip_path_prefix(join_path(root, p), root) == Some(p),
{
    let sp = split_char(p, '/');
    lemma_split_from_len(p, '/', seq![]);
    assert(sp[0].len() > 0);
    if p.len() == 0 || p[0] == '/' {
        assert(sp[0] == Seq::<char>::empty());
    }
    let j = join_path(root, p);
    let sl: Seq<char> = seq!['/'];
    lemma_named_parts_all(sp);
    // The parts of the joined path: those of the root (without an empty
    // last one), then those of `p`.
    let (head_parts, root_parts) = if root.last() == '/' {
        let a = root.drop_last();
        assert(root =~= a + sl + Seq::<char>::empty());
        assert(j =~= a + sl + p);
        lemma_split_concat(a, '/', Seq::<char>::empty(), seq![]);
        lemma_split_concat(a, '/', p, seq![]);
        lemma_split_from_len(a, '/', seq![]);
        let empty_part: Seq<Seq<char>> = seq![Seq::<char>::empty()];
        assert(split_from(Seq::<char>::empty(), '/', seq![]) == empty_part);
        lemma_named_parts_concat(split_char(a, '/'), empty_part);
        assert(empty_part.drop_last() =~= Seq::<Seq<char>>::empty());
        assert(empty_part.last().len() == 0);
        assert(named_parts(empty_part) == named_parts(Seq::<Seq<char>>::empty()));
        (split_char(a, '/'), split_char(a, '/') + empty_part)
    } else {
        assert(j =~= root + sl + p);
        lemma_split_concat(root, '/', p, seq![]);
        lemma_split_from_len(root, '/', seq![]);
        (split_char(root, '/'), split_char(root, '/'))
    };
    assert(split_char(j, '/') == head_parts + sp);
    assert(named_parts(root_parts) == named_parts(head_parts));
    lemma_named_parts_concat(head_parts, sp);
    assert(j[0] == root[0]);
    assert(split_char(j, '/')[0] == split_char(root, '/')[0]);
    let marker = if root[0] == '/' {
        seq![seq!['/']]
    } else if split_char(root, '/')[0] == seq!['.'] {
        seq![seq!['.']]
    } else {
        Seq::<Seq<char>>::empty()
    };
    let rc = path_components(root);
    let pc = path_components(j);
    assert(rc == marker + named_parts(head_parts));
    assert(pc =~= rc + sp);
    assert(pc.take(rc.len() as int) =~= rc);
    assert(pc.skip(rc.len() as int) =~= sp);
    lemma_join_split(p, '/', seq![]);
    assert(Seq::<char>::empty() + p =~= p);
}

/// Shows paths relative to a root directory.
#[derive(Debug)]
pub struct FileResolver {
    root: String,
}

impl FileResolver {
    /// The root directory.
    pub closed spec fn root_view(&self) -> Seq<char> {
        self.root@
    }

    pub fn new(root: String) -> (r: FileResolver)
        ensures
            r.root_view() == root@,
    {
        FileResolver { root }
    }

    /// `path` relative to the root when it lies under it (component by
    /// component), else `path`.
    pub fn relative_path(&self, path: &str) -> (r: String)
        ensures
            r@ == match strip_path_prefix(path@, self.root_view()) {
                Some(rest) => rest,
                None => path@,
            },
    {
        let p = chars_of(path);
        let root = chars_of(self.root.as_str());
        if root.len() == 0 {
            return string_of(p.as_slice());
        }
        let pc = components_of(p.as_slice());
        let rc = components_of(root.as_slice());
        if !components_start_with(&pc, &rc) {
            return string_of(p.as_slice());
        }
        let k = rc.len();
        let mut rest: Vec<String> = Vec::new();
        let mut i = k;
        while i < pc.len()
            invariant
                k <= i <= pc@.len(),
                views(rest@) == views(pc@).subrange(k as int, i as int),
            decreases pc@.len() - i,
        {
            let part = pc[i].clone();
            let ghost before = rest@;
            rest.push(part);
            assert(views(rest@) == views(before).push(pc@[i as int]@));
            assert(views(pc@).subrange(k as int, i + 1) == views(pc@).subrange(k as int, i as int)
                .push(views(pc@)[i as int]));
            i = i + 1;
        }
        assert(views(pc@).subrange(k as int, pc@.len() as int) == views(pc@).skip(k as int));
        proof {
            reveal_strlit("/");
        }
        assert("/"@ =~= seq!['/']);
        assert(views(rest@) == path_components(p@).skip(rc@.len() as int));
        string_of(join_strings(&rest, "/").as_slice())
    }
}

/// The parts that name something, in order.
fn named_parts_of(ps: &Vec<String>) -> (r: Vec<String>)
    ensures
        views(r@) == named_parts(views(ps@)),
{
    let ghost pv = views(ps@);
    let mut r: Vec<String> = Vec::new();
    let n = ps.len();
    for i in 0..n
        invariant
            n == ps@.len(),
            pv == views(ps@),
            views(r@) == named_parts(pv.take(i as int)),
    {
        assert(pv.take(i + 1).drop_last() == pv.take(i as int));
        assert(pv.take(i + 1).last() == pv[i as int]);
        let c = chars_of(ps[i].as_str());
        if !(c.len() == 0 || (c.len() == 1 && c[0] == '.')) {
            assert(c@ != seq!['.']) by {
                if c@.len() == 1 {
                    assert(c@[0] != '.');
                }
            }
            let part = ps[i].clone();
            let ghost before = r@;
            r.push(part);
            assert(views(r@) == views(before).push(pv[i as int]));
        } else {
            assert(c@.len() == 0 || c@ =~= seq!['.']);
        }
    }
    assert(pv.take(n as int) == pv);
    r
}

/// The components of a path (see [`path_components`]).
fn components_of(p: &[char]) -> (r: Vec<String>)
    ensures
        views(r@) == path_components(p@),
{
    let ps = split_on(p, '/');
    proof {
        lemma_split_from_len(p@, '/', seq![]);
        reveal_strlit("/");
        reveal_strlit(".");
    }
    let mut named = named_parts_of(&ps);
    let mut r: Vec<String> = Vec::new();
    assert(views(ps@)[0] == ps@[0]@);
    if p.len() > 0 && p[0] == '/' {
        r.push(String::from_str("/"));
        assert("/"@ =~= seq!['/']);
        assert(views(r@) =~= seq![seq!['/']]);
    } else {
        let first = chars_of(ps[0].as_str());
        if first.len() == 1 && first[0] == '.' {
            assert(first@ =~= seq!['.']);
            r.push(String::from_str("."));
            assert("."@ =~= seq!['.']);
            assert(views(r@) =~= seq![seq!['.']]);
        } else {
            assert(views(r@) =~= Seq::<Seq<char>>::empty());
            assert(first@ != seq!['.']) by {
                if first@.len() == 1 {
                    assert(first@[0] != '.');
                }
            }
        }
    }
    let ghost marker = r@;
    let ghost nm = named@;
    r.append(&mut named);
    assert(r@ == marker + nm);
    assert(views(marker + nm) =~= views(marker) + views(nm));
    r
}

/// Whether the components `pc` begin with the components `rc`.
fn components_start_with(pc: &Vec<String>, rc: &Vec<String>) -> (r: bool)
    ensures
        r == (rc@.len() <= pc@.len() && views(pc@).take(rc@.len() as int) == views(rc@)),
{
    if rc.len() > pc.len() {
        return false;
    }
    let n = rc.len();
    for i in 0..n
        invariant
            n == rc@.len(),
            n <= pc@.len(),
            forall|j: int| 0 <= j < i ==> views(pc@)[j] == views(rc@)[j],
    {
        let a = chars_of(pc[i].as_str());
        let b = chars_of(rc[i].as_str());
        if !crate::text::chars_eq(a.as_slice(), b.as_slice()) {
            assert(views(pc@).take(n as int)[i as int] != views(rc@)[i as int]);
            return false;
        }
    }
    assert(views(pc@).take(n as int) =~= views(rc@));
    true
}

/// The new content of one file.
#[derive(Debug)]
pub struct FileChange {
    absolute_path: String,
    old_content: String,
    new_content: String,
}

impl FileChange {
    pub closed spec fn path_view(&self) -> Seq<char> {
        self.absolute_path@
    }

    pub closed spec fn old_view(&self) -> Seq<char> {
        self.old_content@
    }

    pub closed spec fn new_view(&self) -> Seq<char> {
        self.new_content@
    }

    pub fn new(path: String, old_content: String, new_content: String) -> (r: FileChange)
        ensures
            r.path_view() == path@,
            r.old_view() == old_content@,
            r.new_view() == new_content@,
    {
        FileChange { absolute_path: path, old_content, new_content }
    }

    /// The file's path.
    pub fn path(&self) -> (r: &String)
        ensures
            r@ == self.path_view(),
    {
        &self.absolute_path
    }

    /// The file's content before the change.
    pub fn old_content(&self) -> (r: &str)
        ensures
            r@ == self.old_view(),
    {
        self.old_content.as_str()
    }

    /// The file's content after the change.
    pub fn new_content(&self) -> (r: &str)
        ensures
            r@ == self.new_view(),
    {
        self.new_content.as_str()
    }

    /// The change as a unified diff under a header naming the file relative
    /// to the resolver's root, followed by a rule line as wide as the
    /// terminal.
    pub fn display_diff(&self, file_resolver: &FileResolver, width: usize) -> (r: String)
        ensures
            r@ == unified_diff(
                self.old_view(),
                self.new_view(),
                match strip_path_prefix(self.path_view(), file_resolver.root_view()) {
                    Some(rest) => rest,
                    None => self.path_view(),
                },
            ) + rule_line(12, width),
    {
        let path_string = file_resolver.relative_path(self.absolute_path.as_str());
        let diff = unified_diff_text(
            self.old_content.as_str(),
            self.new_content.as_str(),
            path_string.as_str(),
        );
        let mut out = chars_of(diff.as_str());
        let rule = rule_chars(12, width);
        extend_chars(&mut out, rule.as_slice());
        string_of(out.as_slice())
    }
}

/// `n` copies of `c`.
pub open spec fn repeat(c: char, n: nat) -> Seq<char> {
    Seq::new(n, |i: int| c)
}

/// A rule line: `lead` box-drawing dashes, then as many more as the width
/// exceeds 13, then a newline (`"{:─^1$}"` with `width.saturating_sub(13)`).
pub open spec fn rule_line(lead: nat, width: usize) -> Seq<char> {
    let extra: nat = if width > 13 {
        (width - 13) as nat
    } else {
        0
    };
    repeat('─', lead + extra).push('\n')
}

/// Builds `rule_line(lead, width)`.
pub fn rule_chars(lead: usize, width: usize) -> (r: Vec<char>)
    ensures
        r@ == rule_line(lead as nat, width),
{
    let extra = if width > 13 {
        width - 13
    } else {
        0
    };
    let mut r: Vec<char> = Vec::new();
    let mut i: usize = 0;
    while i < lead
        invariant
            i <= lead,
            r@ == repeat('─', i as nat),
        decreases lead - i,
    {
        r.push('─');
        i = i + 1;
        assert(r@ =~= repeat('─', i as nat));
    }
    let mut j: usize = 0;
    while j < extra
        invariant
            j <= extra,
            i == lead,
            r@ == repeat('─', (lead + j) as nat),
        decreases extra - j,
    {
        r.push('─');
        j = j + 1;
        assert(r@ =~= repeat('─', (lead + j) as nat));
    }
    r.push('\n');
    r
}

/// What `similar::TextDiff::from_lines(old, new).unified_diff()` with the
/// header `header` on both sides and a context radius of 2 writes.
pub uninterp spec fn unified_diff(old: Seq<char>, new: Seq<char>, header: Seq<char>) -> Seq<char>;

/// `similar`'s line diff of two texts, written as a unified diff (the
/// `TextDiff::from_lines(..).unified_diff().header(..).context_radius(2)`
/// chain, which only configures how one diff is written). The contract
/// names the result.
#[verifier::external_body]
fn unified_diff_text(old: &str, new: &str, header: &str) -> (r: String)
    ensures
        r@ == unified_diff(old@, new@, header@),
{
    similar::TextDiff::from_lines(old, new).unified_diff().header(header, header).context_radius(
        2,
    ).to_string()
}

/// A set of file changes, applied together.
#[derive(Debug)]
pub struct FileChanges(Vec<FileChange>);

impl FileChanges {
    pub closed spec fn changes(&self) -> Seq<FileChange> {
        self.0@
    }

    pub fn new(changes: Vec<FileChange>) -> (r: FileChanges)
        ensures
            r.changes() == changes@,
    {
        FileChanges(changes)
    }

    /// Appends the changes of `other`.
    pub fn extend(&mut self, other: FileChanges)
        ensures
            final(self).changes() == old(self).changes() + other.changes(),
    {
        let mut o = other.0;
        self.0.append(&mut o);
    }

    /// The changes, in order.
    pub fn iter(&self) -> (r: &[FileChange])
        ensures
            r@ == self.changes(),
    {
        self.0.as_slice()
    }
}

} // verus!
