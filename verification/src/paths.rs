//! Unix path components, and whether an artifact path stays inside a set of
//! roots.
use crate::text::{
    is_blank, lemma_split_concat, owned, push_str, seq_chars_eq, split_chars, split_on, starts_with_seq,
    str_is_blank, to_chars,
};
use vstd::prelude::*;

verus! {

/// The path starts at the file-system root.
pub open spec fn has_root(s: Seq<char>) -> bool {
    s.len() > 0 && s[0] == '/'
}

/// A relative path that begins with a `.` segment.
pub open spec fn leading_cur_dir(s: Seq<char>) -> bool {
    !has_root(s) && s.len() > 0 && s[0] == '.' && (s.len() == 1 || s[1] == '/')
}

/// The segments that name something: neither empty nor `.`.
pub open spec fn normal_parts(parts: Seq<Seq<char>>) -> Seq<Seq<char>>
    decreases parts.len(),
{
    if parts.len() == 0 {
        Seq::empty()
    } else {
        let rest = normal_parts(parts.drop_last());
        let p = parts.last();
        if p.len() > 0 && p != "."@ {
            rest.push(p)
        } else {
            rest
        }
    }
}

/// The components of a path, as `Path::components` yields them on Unix, each
/// written as text: the root as `/`, a leading current-directory mark as `.`,
/// then every segment between separators that is neither empty nor `.`.
pub open spec fn path_components(s: Seq<char>) -> Seq<Seq<char>> {
    let head: Seq<Seq<char>> = if has_root(s) {
        seq!["/"@]
    } else if leading_cur_dir(s) {
        seq!["."@]
    } else {
        Seq::empty()
    };
    head + normal_parts(split_on(s, '/'))
}

/// `Path::starts_with`: the components of `base` begin the components of `p`.
pub open spec fn path_starts_with(p: Seq<char>, base: Seq<char>) -> bool {
    starts_with_seq(path_components(p), path_components(base))
}

/// `PathBuf::push` of a relative path onto `root`.
pub open spec fn joined(root: Seq<char>, p: Seq<char>) -> Seq<char> {
    if root.len() == 0 || root.last() == '/' {
        root + p
    } else {
        root + "/"@ + p
    }
}

/// An artifact path is allowed when it is not blank and lies under one of the
/// roots: an absolute path by its components, a relative one when it has no
/// `..` component and some root is given.
pub open spec fn artifact_ref_allowed(r: Seq<char>, roots: Seq<Seq<char>>) -> bool {
    &&& !is_blank(r)
    &&& if has_root(r) {
        exists|i: int| 0 <= i < roots.len() && path_starts_with(r, #[trigger] roots[i])
    } else {
        !path_components(r).contains(".."@) && exists|i: int|
            0 <= i < roots.len() && path_starts_with(joined(#[trigger] roots[i], r), roots[i])
    }
}

/// Every artifact path is allowed.
pub open spec fn artifacts_within_roots(refs: Seq<Seq<char>>, roots: Seq<Seq<char>>) -> bool {
    forall|i: int| 0 <= i < refs.len() ==> artifact_ref_allowed(#[trigger] refs[i], roots)
}

proof fn lemma_normal_parts_step(parts: Seq<Seq<char>>, i: int)
    requires
        0 <= i < parts.len(),
    ensures
        normal_parts(parts.take(i + 1)) == if parts[i].len() > 0 && parts[i] != "."@ {
            normal_parts(parts.take(i)).push(parts[i])
        } else {
            normal_parts(parts.take(i))
        },
{
    assert(parts.take(i + 1).drop_last() =~= parts.take(i));
}

/// The components of a path, each as characters.
pub fn components_of(v: &Vec<char>) -> (r: Vec<Vec<char>>)
    ensures
        r.deep_view() == path_components(v@),
{
    let n = v.len();
    let mut r: Vec<Vec<char>> = Vec::new();
    let root = n > 0 && v[0] == '/';
    let cur = !root && n > 0 && v[0] == '.' && (n == 1 || v[1] == '/');
    proof {
        reveal_strlit("/");
        reveal_strlit(".");
    }
    if root {
        let mut h: Vec<char> = Vec::new();
        h.push('/');
        assert(h.deep_view() =~= "/"@);
        r.push(h);
        assert(r.deep_view() =~= seq!["/"@]);
    } else if cur {
        let mut h: Vec<char> = Vec::new();
        h.push('.');
        assert(h.deep_view() =~= "."@);
        r.push(h);
        assert(r.deep_view() =~= seq!["."@]);
    } else {
        assert(r.deep_view() =~= Seq::<Seq<char>>::empty());
    }
    let ghost head = r.deep_view();
    let parts = split_chars(v, '/');
    let ghost pv = parts.deep_view();
    let mut i: usize = 0;
    proof {
        assert(pv.take(0) =~= Seq::<Seq<char>>::empty());
    }
    while i < parts.len()
        invariant
            pv == parts.deep_view(),
            i <= pv.len(),
            r.deep_view() == head + normal_parts(pv.take(i as int)),
        decreases parts.len() - i,
    {
        proof {
            lemma_normal_parts_step(pv, i as int);
            reveal_strlit(".");
        }
        let p = &parts[i];
        assert(pv[i as int] == p@);
        let is_dot = p.len() == 1 && p[0] == '.';
        proof {
            if p@.len() == 1 && p@[0] == '.' {
                assert(p@ =~= "."@);
            }
            if p@ == "."@ {
                assert(p@.len() == 1 && p@[0] == '.');
            }
        }
        if p.len() > 0 && !is_dot {
            let ghost prev = r.deep_view();
            let c = p.clone();
            assert(c@ =~= p@);
            assert(c.deep_view() =~= c@);
            r.push(c);
            assert(r.deep_view() =~= prev.push(p@));
        }
        i += 1;
    }
    assert(pv.take(pv.len() as int) =~= pv);
    r
}

/// `hay` begins with the components of `needle`.
fn components_start_with(hay: &Vec<Vec<char>>, needle: &Vec<Vec<char>>) -> (r: bool)
    ensures
        r == starts_with_seq(hay.deep_view(), needle.deep_view()),
{
    let ghost h = hay.deep_view();
    let ghost nd = needle.deep_view();
    if needle.len() > hay.len() {
        return false;
    }
    let mut i: usize = 0;
    while i < needle.len()
        invariant
            h == hay.deep_view(),
            nd == needle.deep_view(),
            nd.len() <= h.len(),
            i <= nd.len(),
            forall|k: int| 0 <= k < i ==> h[k] == nd[k],
        decreases needle.len() - i,
    {
        assert(h[i as int] == hay[i as int]@ && nd[i as int] == needle[i as int]@) by {
            assert(hay[i as int].deep_view() =~= hay[i as int]@);
            assert(needle[i as int].deep_view() =~= needle[i as int]@);
        }
        if !seq_chars_eq(&hay[i], &needle[i]) {
            assert(h.subrange(0, nd.len() as int)[i as int] != nd[i as int]);
            return false;
        }
        i += 1;
    }
    assert(h.subrange(0, nd.len() as int) =~= nd);
    true
}

/// `Path::starts_with`.
pub fn path_begins_with(p: &str, base: &str) -> (r: bool)
    ensures
        r == path_starts_with(p@, base@),
{
    let pc = components_of(&to_chars(p));
    let bc = components_of(&to_chars(base));
    components_start_with(&pc, &bc)
}

/// `PathBuf::push` of a relative path onto `root`.
pub fn join_path(root: &str, p: &str) -> (r: String)
    ensures
        r@ == joined(root@, p@),
{
    let rv = to_chars(root);
    let mut r = owned(root);
    if rv.len() > 0 && rv[rv.len() - 1] != '/' {
        push_str(&mut r, "/");
    }
    push_str(&mut r, p);
    r
}

fn has_parent_component(v: &Vec<char>) -> (r: bool)
    ensures
        r == path_components(v@).contains(".."@),
{
    let comps = components_of(v);
    let ghost cv = comps.deep_view();
    let mut i: usize = 0;
    while i < comps.len()
        invariant
            cv == comps.deep_view(),
            cv == path_components(v@),
            i <= cv.len(),
            forall|k: int| 0 <= k < i ==> cv[k] != ".."@,
        decreases comps.len() - i,
    {
        let c = &comps[i];
        assert(cv[i as int] == c@) by {
            assert(c.deep_view() =~= c@);
        }
        proof {
            reveal_strlit("..");
        }
        if c.len() == 2 && c[0] == '.' && c[1] == '.' {
            assert(c@ =~= ".."@);
            assert(cv[i as int] == ".."@);
            return true;
        }
        assert(c@ != ".."@);
        i += 1;
    }
    false
}

/// Whether one artifact path lies under the roots.
pub fn artifact_allowed(r: &str, roots: &Vec<String>) -> (ok: bool)
    ensures
        ok == artifact_ref_allowed(r@, roots.deep_view()),
{
    let ghost rv = roots.deep_view();
    if str_is_blank(r) {
        return false;
    }
    let chars = to_chars(r);
    let absolute = chars.len() > 0 && chars[0] == '/';
    if !absolute && has_parent_component(&chars) {
        return false;
    }
    let mut i: usize = 0;
    while i < roots.len()
        invariant
            rv == roots.deep_view(),
            i <= rv.len(),
            chars@ == r@,
            absolute == has_root(r@),
            !is_blank(r@),
            !absolute ==> !path_components(r@).contains(".."@),
            forall|k: int|
                0 <= k < i ==> !(if absolute {
                    path_starts_with(r@, #[trigger] rv[k])
                } else {
                    path_starts_with(joined(rv[k], r@), rv[k])
                }),
        decreases roots.len() - i,
    {
        let root = roots[i].as_str();
        assert(rv[i as int] == root@);
        let hit = if absolute {
            path_begins_with(r, root)
        } else {
            let j = join_path(root, r);
            path_begins_with(j.as_str(), root)
        };
        if hit {
            proof {
                if absolute {
                    assert(0 <= i < rv.len() && path_starts_with(r@, rv[i as int]));
                } else {
                    assert(0 <= i < rv.len() && path_starts_with(joined(rv[i as int], r@), rv[i as int]));
                }
            }
            return true;
        }
        i += 1;
    }
    false
}

/// Whether every artifact path lies under the roots.
pub fn artifacts_allowed(refs: &Vec<String>, roots: &Vec<String>) -> (ok: bool)
    ensures
        ok == artifacts_within_roots(refs.deep_view(), roots.deep_view()),
{
    let ghost fv = refs.deep_view();
    let mut i: usize = 0;
    while i < refs.len()
        invariant
            fv == refs.deep_view(),
            i <= fv.len(),
            forall|k: int| 0 <= k < i ==> artifact_ref_allowed(#[trigger] fv[k], roots.deep_view()),
        decreases refs.len() - i,
    {
        assert(fv[i as int] == refs[i as int]@);
        if !artifact_allowed(refs[i].as_str(), roots) {
            return false;
        }
        i += 1;
    }
    true
}

/// The named segments of two runs of segments are those of the first, then
/// those of the second.
proof fn lemma_normal_parts_concat(x: Seq<Seq<char>>, y: Seq<Seq<char>>)
    ensures
        normal_parts(x + y) == normal_parts(x) + normal_parts(y),
    decreases y.len(),
{
    if y.len() > 0 {
        assert((x + y).drop_last() =~= x + y.drop_last());
        assert((x + y).last() == y.last());
        lemma_normal_parts_concat(x, y.drop_last());
    } else {
        assert(x + y =~= x);
        assert(normal_parts(x) + normal_parts(y) =~= normal_parts(x));
    }
}

/// An empty segment names nothing.
proof fn lemma_empty_segment_names_nothing()
    ensures
        normal_parts(seq![Seq::<char>::empty()]) =~= Seq::<Seq<char>>::empty(),
{
    let e = seq![Seq::<char>::empty()];
    assert(e.drop_last() =~= Seq::<Seq<char>>::empty());
    assert(normal_parts(Seq::<Seq<char>>::empty()) =~= Seq::<Seq<char>>::empty());
    assert(e.last().len() == 0);
}

/// Joining a path onto a root keeps the root's components in front.
proof fn lemma_joined_starts_with_root(root: Seq<char>, p: Seq<char>)
    ensures
        path_starts_with(joined(root, p), root),
{
    let j = joined(root, p);
    if root.len() == 0 {
        assert(split_on(root, '/') =~= seq![Seq::<char>::empty()]);
        lemma_empty_segment_names_nothing();
        assert(path_components(root) =~= Seq::<Seq<char>>::empty());
        assert(path_components(j).subrange(0, 0) =~= Seq::<Seq<char>>::empty());
    } else {
        let a = if root.last() == '/' { root.drop_last() } else { root };
        if root.last() == '/' {
            assert(root =~= a + seq!['/'] + Seq::<char>::empty());
            assert(j =~= a + seq!['/'] + p);
            lemma_split_concat(a, Seq::<char>::empty(), '/');
            assert(split_on(Seq::<char>::empty(), '/') =~= seq![Seq::<char>::empty()]);
            lemma_normal_parts_concat(split_on(a, '/'), seq![Seq::<char>::empty()]);
            lemma_empty_segment_names_nothing();
            assert(normal_parts(split_on(a, '/')) + Seq::<Seq<char>>::empty() =~= normal_parts(split_on(a, '/')));
        } else {
            reveal_strlit("/");
            assert(j =~= a + seq!['/'] + p);
        }
        lemma_split_concat(a, p, '/');
        lemma_normal_parts_concat(split_on(a, '/'), split_on(p, '/'));
        assert(j[0] == root[0]);
        assert(root.len() >= 2 ==> j[1] == root[1]);
        assert(root.len() == 1 && !has_root(root) ==> j[1] == '/');
        assert(path_components(root).len() <= path_components(j).len());
        assert(path_components(j).subrange(0, path_components(root).len() as int) =~= path_components(root));
    }
}

/// A relative artifact path is allowed as soon as some root is given, as long
/// as it is not blank and has no `..` component: joining it onto a root never
/// leaves that root.
pub proof fn law_relative_artifacts_stay_under_a_root(r: Seq<char>, roots: Seq<Seq<char>>)
    requires
        !is_blank(r),
        !has_root(r),
        !path_components(r).contains(".."@),
        roots.len() > 0,
    ensures
        artifact_ref_allowed(r, roots),
{
    lemma_joined_starts_with_root(roots[0], r);
}

} // verus!
