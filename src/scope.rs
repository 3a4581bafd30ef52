use vstd::prelude::*;
use vstd::string::{StrSliceExecFns, StringExecFns};

verus! {

/// How far below its base directory a pattern reaches.
#[derive(Debug, Clone, Copy, PartialEq, Eq, Structural)]
pub enum Reach {
    /// The base path itself.
    Exact,
    /// The entries directly inside the base directory.
    Children,
    /// Every entry at any depth below the base directory.
    Descendants,
}

/// One entry of the allow-list: a base path and how far below it access reaches.
#[derive(Debug)]
pub struct ScopePattern {
    pub base: String,
    pub reach: Reach,
}

impl View for ScopePattern {
    type V = (Seq<char>, Reach);

    open spec fn view(&self) -> (Seq<char>, Reach) {
        (self.base@, self.reach)
    }
}

/// The separator between the components of a path.
pub open spec fn is_separator(c: char) -> bool {
    c == '/'
}

/// What every entry inside directory `d` starts with: `d` followed by one separator.
pub open spec fn dir_prefix(d: Seq<char>) -> Seq<char> {
    if d.len() > 0 && is_separator(d.last()) {
        d
    } else {
        d.push('/')
    }
}

/// `p` lies somewhere below directory `d`.
pub open spec fn is_descendant(d: Seq<char>, p: Seq<char>) -> bool {
    let pre = dir_prefix(d);
    p.len() > pre.len() && p.take(pre.len() as int) == pre
}

/// `p` lies directly inside directory `d`.
pub open spec fn is_child(d: Seq<char>, p: Seq<char>) -> bool {
    is_descendant(d, p) && forall|i: int|
        dir_prefix(d).len() <= i < p.len() ==> !is_separator(#[trigger] p[i])
}

/// The pattern `pat` admits path `p`.
pub open spec fn permits(pat: (Seq<char>, Reach), p: Seq<char>) -> bool {
    match pat.1 {
        Reach::Exact => p == pat.0,
        Reach::Children => is_child(pat.0, p),
        Reach::Descendants => is_descendant(pat.0, p),
    }
}

/// Some pattern of `list` admits path `p`.
pub open spec fn allows(list: Seq<(Seq<char>, Reach)>, p: Seq<char>) -> bool {
    exists|i: int| 0 <= i < list.len() && permits(#[trigger] list[i], p)
}

/// The patterns that granting directory `d` adds: the directory itself, and
/// its entries, at any depth when `recursive` holds and one level down otherwise.
pub open spec fn granted(d: Seq<char>, recursive: bool) -> Seq<(Seq<char>, Reach)> {
    seq![
        (d, Reach::Exact),
        (d, if recursive { Reach::Descendants } else { Reach::Children }),
    ]
}

/// After directory `d` is granted recursively, the list admits `d` itself
/// and every path below it, whatever the list held before.
pub proof fn lemma_recursive_grant_covers_subtree(
    list: Seq<(Seq<char>, Reach)>,
    d: Seq<char>,
    p: Seq<char>,
)
    requires
        p == d || is_descendant(d, p),
    ensures
        allows(list + granted(d, true), p),
{
    let after = list + granted(d, true);
    if p == d {
        assert(permits(after[list.len() as int], p));
    } else {
        assert(permits(after[list.len() as int + 1], p));
    }
}

/// A grant only widens the list: every path admitted before is admitted after.
pub proof fn lemma_grant_keeps_access(
    list: Seq<(Seq<char>, Reach)>,
    d: Seq<char>,
    recursive: bool,
    p: Seq<char>,
)
    requires
        allows(list, p),
    ensures
        allows(list + granted(d, recursive), p),
{
    let i = choose|i: int| 0 <= i < list.len() && permits(#[trigger] list[i], p);
    assert((list + granted(d, recursive))[i] == list[i]);
}

/// The list of patterns that decides which paths the application may access.
/// It starts empty, so that everything is denied until a grant is made.
pub struct AllowList {
    patterns: Vec<ScopePattern>,
}

impl View for AllowList {
    type V = Seq<(Seq<char>, Reach)>;

    closed spec fn view(&self) -> Seq<(Seq<char>, Reach)> {
        self.patterns@.map_values(|p: ScopePattern| p@)
    }
}

/// The characters of `s`, one by one.
fn chars_of(s: &str) -> (r: Vec<char>)
    ensures
        r@ == s@,
{
    let n = s.unicode_len();
    let mut r: Vec<char> = Vec::new();
    let mut i: usize = 0;
    while i < n
        invariant
            n == s@.len(),
            i <= n,
            r@ == s@.take(i as int),
        decreases n - i,
    {
        r.push(s.get_char(i));
        i = i + 1;
        assert(r@ =~= s@.take(i as int));
    }
    assert(r@ =~= s@);
    r
}

/// Whether `pat` admits the path whose characters are `p`.
fn pattern_permits(pat: &ScopePattern, p: &Vec<char>) -> (r: bool)
    ensures
        r == permits(pat@, p@),
{
    let b = chars_of(pat.base.as_str());
    if let Reach::Exact = pat.reach {
        if b.len() != p.len() {
            return false;
        }
        let mut i: usize = 0;
        while i < b.len()
            invariant
                b@ == pat.base@,
                b@.len() == p@.len(),
                i <= b@.len(),
                b@.take(i as int) == p@.take(i as int),
            decreases b@.len() - i,
        {
            if b[i] != p[i] {
                assert(b@.take(i as int + 1)[i as int] != p@.take(i as int + 1)[i as int]);
                return false;
            }
            i = i + 1;
            assert(b@.take(i as int) =~= p@.take(i as int));
        }
        assert(b@ =~= b@.take(i as int));
        assert(p@ =~= p@.take(i as int));
        return true;
    }
    // The prefix that every entry inside the base directory starts with.
    let mut pre = b;
    if pre.len() == 0 || pre[pre.len() - 1] != '/' {
        pre.push('/');
    }
    assert(pre@ == dir_prefix(pat.base@));
    if p.len() <= pre.len() {
        return false;
    }
    let mut i: usize = 0;
    while i < pre.len()
        invariant
            pre@ == dir_prefix(pat.base@),
            pat.reach != Reach::Exact,
            pre@.len() < p@.len(),
            i <= pre@.len(),
            pre@.take(i as int) == p@.take(i as int),
        decreases pre@.len() - i,
    {
        if pre[i] != p[i] {
            assert(pre@.take(i as int + 1)[i as int] != p@.take(i as int + 1)[i as int]);
            assert(p@.take(pre@.len() as int)[i as int] != pre@[i as int]);
            return false;
        }
        i = i + 1;
        assert(pre@.take(i as int) =~= p@.take(i as int));
    }
    assert(pre@ =~= p@.take(pre@.len() as int));
    if let Reach::Descendants = pat.reach {
        return true;
    }
    let mut j: usize = pre.len();
    while j < p.len()
        invariant
            pre@ == dir_prefix(pat.base@),
            pat.reach == Reach::Children,
            pre@.len() <= j <= p@.len(),
            forall|k: int| pre@.len() <= k < j ==> !is_separator(#[trigger] p@[k]),
        decreases p@.len() - j,
    {
        if p[j] == '/' {
            assert(is_separator(p@[j as int]));
            return false;
        }
        j = j + 1;
    }
    true
}

impl AllowList {
    /// An allow-list that admits no path.
    pub fn new() -> (r: AllowList)
        ensures
            r@ == Seq::<(Seq<char>, Reach)>::empty(),
    {
        let r = AllowList { patterns: Vec::new() };
        assert(r@ =~= Seq::<(Seq<char>, Reach)>::empty());
        r
    }

    /// The number of patterns in the list.
    pub fn len(&self) -> (r: usize)
        ensures
            r == self@.len(),
    {
        self.patterns.len()
    }

    /// Grants access to directory `path`: to the directory itself, and to its
    /// entries, at any depth when `recursive` holds and one level down otherwise.
    pub fn allow_directory(&mut self, path: &str, recursive: bool)
        ensures
            final(self)@ == old(self)@ + granted(path@, recursive),
    {
        let reach = if recursive {
            Reach::Descendants
        } else {
            Reach::Children
        };
        self.patterns.push(ScopePattern { base: String::from_str(path), reach: Reach::Exact });
        self.patterns.push(ScopePattern { base: String::from_str(path), reach });
        assert(final(self)@ =~= old(self)@ + granted(path@, recursive));
    }

    /// Whether some pattern of the list admits `path`.
    pub fn is_allowed(&self, path: &str) -> (r: bool)
        ensures
            r == allows(self@, path@),
    {
        let p = chars_of(path);
        let mut i: usize = 0;
        while i < self.patterns.len()
            invariant
                p@ == path@,
                i <= self@.len(),
                self@.len() == self.patterns@.len(),
                forall|k: int| 0 <= k < i ==> !permits(#[trigger] self@[k], path@),
            decreases self@.len() - i,
        {
            if pattern_permits(&self.patterns[i], &p) {
                assert(self@[i as int] == self.patterns@[i as int]@);
                return true;
            }
            assert(self@[i as int] == self.patterns@[i as int]@);
            i = i + 1;
        }
        false
    }
}

} // verus!
