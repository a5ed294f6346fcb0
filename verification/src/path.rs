//! Paths compared the way `std::path::Path` compares them: by components.
//!
//! On Unix a path is a root (when it starts with `/`), then, for a relative
//! path that starts with `.` followed by `/` or the end, a current-directory
//! component, then its `/`-separated segments with empty and `.` segments
//! left out. So `/tmp/s/`, `/tmp//s` and `/tmp/./s` are all the path `/tmp/s`,
//! while `./s` and `s` differ.
use vstd::prelude::*;

verus! {

/// The components of a path: whether it has a root, whether it opens with a
/// current-directory component, and its remaining segments.
pub struct PathComponents {
    pub has_root: bool,
    pub cur_dir: bool,
    pub segments: Seq<Seq<char>>,
}

/// Whether a path starts at the root.
pub open spec fn path_has_root(s: Seq<char>) -> bool {
    s.len() > 0 && s[0] == '/'
}

/// Whether a relative path opens with a current-directory component.
pub open spec fn path_starts_cur_dir(s: Seq<char>) -> bool {
    !path_has_root(s) && s.len() > 0 && s[0] == '.' && (s.len() == 1 || s[1] == '/')
}

/// A finished segment kept, unless it is empty or `.`.
pub open spec fn keep_segment(done: Seq<Seq<char>>, cur: Seq<char>) -> Seq<Seq<char>> {
    if cur.len() == 0 || cur == seq!['.'] {
        done
    } else {
        done.push(cur)
    }
}

/// The segments finished and the segment under way after the first `n`
/// characters of a path.
pub open spec fn split_prefix(s: Seq<char>, n: nat) -> (Seq<Seq<char>>, Seq<char>)
    decreases n,
{
    if n == 0 {
        (Seq::empty(), Seq::empty())
    } else {
        let (done, cur) = split_prefix(s, (n - 1) as nat);
        if s[n - 1] == '/' {
            (keep_segment(done, cur), Seq::empty())
        } else {
            (done, cur.push(s[n - 1]))
        }
    }
}

/// The segments of a path, without empty and `.` segments.
pub open spec fn path_segments(s: Seq<char>) -> Seq<Seq<char>> {
    let (done, cur) = split_prefix(s, s.len());
    keep_segment(done, cur)
}

/// The components of a path.
pub open spec fn path_components(s: Seq<char>) -> PathComponents {
    PathComponents {
        has_root: path_has_root(s),
        cur_dir: path_starts_cur_dir(s),
        segments: path_segments(s),
    }
}

/// Whether two paths have the same components.
pub open spec fn same_path(a: Seq<char>, b: Seq<char>) -> bool {
    path_components(a) == path_components(b)
}

/// The character sequences of a list of character vectors.
pub open spec fn char_vecs_view(v: Seq<Vec<char>>) -> Seq<Seq<char>> {
    v.map_values(|c: Vec<char>| c@)
}

fn keep(done: &mut Vec<Vec<char>>, cur: Vec<char>)
    ensures
        char_vecs_view(final(done)@) == keep_segment(char_vecs_view(old(done)@), cur@),
{
    let ghost before = done@;
    if cur.len() == 0 || (cur.len() == 1 && cur[0] == '.') {
        proof {
            if cur.len() == 1 {
                assert(cur@ =~= seq!['.']);
            }
        }
        return;
    }
    proof {
        assert(cur@ != seq!['.']) by {
            if cur@ == seq!['.'] {
                assert(cur@.len() == 1 && cur@[0] == '.');
            }
        }
    }
    let ghost cv = cur@;
    done.push(cur);
    proof {
        assert(char_vecs_view(done@) =~= char_vecs_view(before).push(cv));
    }
}

/// The segments of a path, as character vectors.
fn segments_of(s: &str) -> (r: Vec<Vec<char>>)
    ensures
        char_vecs_view(r@) == path_segments(s@),
{
    let n = s.unicode_len();
    let mut done: Vec<Vec<char>> = Vec::new();
    let mut cur: Vec<char> = Vec::new();
    let mut i: usize = 0;
    while i < n
        invariant
            n == s@.len(),
            i <= n,
            (char_vecs_view(done@), cur@) == split_prefix(s@, i as nat),
        decreases n - i,
    {
        let c = s.get_char(i);
        if c == '/' {
            let mut next: Vec<char> = Vec::new();
            std::mem::swap(&mut next, &mut cur);
            keep(&mut done, next);
        } else {
            cur.push(c);
        }
        i = i + 1;
    }
    keep(&mut done, cur);
    done
}

fn chars_equal(a: &Vec<char>, b: &Vec<char>) -> (r: bool)
    ensures
        r == (a@ == b@),
{
    if a.len() != b.len() {
        return false;
    }
    let mut i: usize = 0;
    while i < a.len()
        invariant
            a.len() == b.len(),
            i <= a.len(),
            forall|j: int| 0 <= j < i ==> a@[j] == b@[j],
        decreases a.len() - i,
    {
        if a[i] != b[i] {
            return false;
        }
        i = i + 1;
    }
    proof {
        assert(a@ =~= b@);
    }
    true
}

fn segments_equal(a: &Vec<Vec<char>>, b: &Vec<Vec<char>>) -> (r: bool)
    ensures
        r == (char_vecs_view(a@) == char_vecs_view(b@)),
{
    if a.len() != b.len() {
        proof {
            assert(char_vecs_view(a@).len() != char_vecs_view(b@).len());
        }
        return false;
    }
    let mut i: usize = 0;
    while i < a.len()
        invariant
            a.len() == b.len(),
            i <= a.len(),
            forall|j: int| 0 <= j < i ==> a@[j]@ == b@[j]@,
        decreases a.len() - i,
    {
        if !chars_equal(&a[i], &b[i]) {
            proof {
                assert(char_vecs_view(a@)[i as int] != char_vecs_view(b@)[i as int]);
            }
            return false;
        }
        i = i + 1;
    }
    proof {
        assert(char_vecs_view(a@) =~= char_vecs_view(b@));
    }
    true
}

/// Whether two paths are the same path, compared by components as
/// `std::path::Path` compares them.
pub fn paths_equal(a: &String, b: &String) -> (r: bool)
    ensures
        r == same_path(a@, b@),
{
    let a = a.as_str();
    let b = b.as_str();
    let la = a.unicode_len();
    let lb = b.unicode_len();
    let root_a = la > 0 && a.get_char(0) == '/';
    let root_b = lb > 0 && b.get_char(0) == '/';
    let cur_a = !root_a && la > 0 && a.get_char(0) == '.' && (la == 1 || a.get_char(1) == '/');
    let cur_b = !root_b && lb > 0 && b.get_char(0) == '.' && (lb == 1 || b.get_char(1) == '/');
    if root_a != root_b || cur_a != cur_b {
        return false;
    }
    let sa = segments_of(a);
    let sb = segments_of(b);
    segments_equal(&sa, &sb)
}

// ---- Laws ----

/// Two paths are the same path exactly when both or neither start at the
/// root, both or neither open with `.` followed by a separator or the end,
/// and they have the same number of segments with every segment equal.
pub proof fn lemma_same_path_compares_every_component(a: Seq<char>, b: Seq<char>)
    ensures
        same_path(a, b) <==> {
            &&& (a.len() > 0 && a[0] == '/') == (b.len() > 0 && b[0] == '/')
            &&& (a.len() > 0 && a[0] == '.' && (a.len() == 1 || a[1] == '/')) == (b.len() > 0
                && b[0] == '.' && (b.len() == 1 || b[1] == '/'))
            &&& path_segments(a).len() == path_segments(b).len()
            &&& forall|i: int|
                0 <= i < path_segments(a).len() ==> #[trigger] path_segments(a)[i]
                    == path_segments(b)[i]
        },
{
    if path_segments(a).len() == path_segments(b).len() && (forall|i: int|
        0 <= i < path_segments(a).len() ==> #[trigger] path_segments(a)[i]
            == path_segments(b)[i]) {
        assert(path_segments(a) =~= path_segments(b));
    }
}

proof fn lemma_split_prefix_depends_on_prefix(z: Seq<char>, w: Seq<char>, n: nat)
    requires
        n <= z.len(),
        n <= w.len(),
        forall|i: int| 0 <= i < n ==> z[i] == w[i],
    ensures
        split_prefix(z, n) == split_prefix(w, n),
    decreases n,
{
    if n > 0 {
        lemma_split_prefix_depends_on_prefix(z, w, (n - 1) as nat);
    }
}

proof fn lemma_split_prefix_after_separator(
    p: Seq<char>,
    y: Seq<char>,
    done: Seq<Seq<char>>,
    k: nat,
)
    requires
        k <= y.len(),
        split_prefix(p, p.len()) == (done, Seq::<char>::empty()),
    ensures
        split_prefix(p + y, p.len() + k) == (
            done + split_prefix(y, k).0,
            split_prefix(y, k).1,
        ),
    decreases k,
{
    let z = p + y;
    if k == 0 {
        lemma_split_prefix_depends_on_prefix(z, p, p.len());
        assert(done + Seq::<Seq<char>>::empty() =~= done);
    } else {
        let k1 = (k - 1) as nat;
        lemma_split_prefix_after_separator(p, y, done, k1);
        let (d, c) = split_prefix(y, k1);
        assert(z[p.len() + k - 1] == y[k - 1]);
        assert(((p.len() + k) - 1) as nat == p.len() + k1);
        if y[k - 1] == '/' {
            if !(c.len() == 0 || c == seq!['.']) {
                assert((done + d).push(c) =~= done + d.push(c));
            }
        }
    }
}

/// A single segment: a non-empty name without a separator, other than `.`,
/// is a path with exactly that one segment.
pub proof fn lemma_segments_of_a_name(s: Seq<char>)
    requires
        s.len() > 0,
        s != seq!['.'],
        forall|i: int| 0 <= i < s.len() ==> s[i] != '/',
    ensures
        path_segments(s) == seq![s],
{
    lemma_split_prefix_of_a_name(s, s.len());
    assert(s.take(s.len() as int) =~= s);
    assert(Seq::<Seq<char>>::empty().push(s) =~= seq![s]);
}

proof fn lemma_split_prefix_of_a_name(s: Seq<char>, k: nat)
    requires
        k <= s.len(),
        forall|i: int| 0 <= i < s.len() ==> s[i] != '/',
    ensures
        split_prefix(s, k) == (Seq::<Seq<char>>::empty(), s.take(k as int)),
    decreases k,
{
    if k == 0 {
        assert(s.take(0) =~= Seq::<char>::empty());
    } else {
        lemma_split_prefix_of_a_name(s, (k - 1) as nat);
        assert(s.take(k - 1).push(s[k - 1]) =~= s.take(k as int));
    }
}

/// Joining two paths with a separator joins their segments: the segments of
/// `x/y` are those of `x` followed by those of `y`.
pub proof fn lemma_segments_of_a_join(x: Seq<char>, y: Seq<char>)
    ensures
        path_segments(x + seq!['/'] + y) == path_segments(x) + path_segments(y),
{
    let p = x + seq!['/'];
    lemma_split_prefix_depends_on_prefix(p, x, x.len());
    assert(p[x.len() as int] == '/');
    assert(((x.len() + 1) - 1) as nat == x.len());
    assert(split_prefix(p, p.len()) == (path_segments(x), Seq::<char>::empty()));
    lemma_split_prefix_after_separator(p, y, path_segments(x), y.len());
    assert(p.len() + y.len() == (p + y).len());
    let (d, c) = split_prefix(y, y.len());
    if !(c.len() == 0 || c == seq!['.']) {
        assert((path_segments(x) + d).push(c) =~= path_segments(x) + d.push(c));
    }
}

/// The empty path and `.` have no segments.
pub proof fn lemma_segments_of_nothing()
    ensures
        path_segments(Seq::empty()) == Seq::<Seq<char>>::empty(),
        path_segments(seq!['.']) == Seq::<Seq<char>>::empty(),
{
    let dot = seq!['.'];
    assert(split_prefix(dot, 0) == (Seq::<Seq<char>>::empty(), Seq::<char>::empty()));
    assert(Seq::<char>::empty().push('.') =~= dot);
}

} // verus!
