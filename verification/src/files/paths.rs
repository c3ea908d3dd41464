//! Unix path components and the containment checks that keep file
//! operations inside a job's working directory.
//!
//! Paths are compared component by component, as `std::path::Path` does: a
//! leading `/` is the root, empty segments and `.` segments are dropped
//! (except a leading `.` of a relative path), and `..` is a parent-directory
//! component.

use vstd::prelude::*;
use crate::text::chars_of;

verus! {

/// Abstract view of a path component.
pub enum ComponentView {
    Root,
    CurDir,
    ParentDir,
    Normal(Seq<char>),
}

/// One component of a path.
#[derive(Clone, Debug, PartialEq, Eq)]
pub enum Component {
    RootDir,
    CurDir,
    ParentDir,
    Normal(String),
}

impl View for Component {
    type V = ComponentView;

    open spec fn view(&self) -> ComponentView {
        match self {
            Component::RootDir => ComponentView::Root,
            Component::CurDir => ComponentView::CurDir,
            Component::ParentDir => ComponentView::ParentDir,
            Component::Normal(s) => ComponentView::Normal(s@),
        }
    }
}

/// Views of a sequence of components.
pub open spec fn component_views(cs: Seq<Component>) -> Seq<ComponentView> {
    cs.map_values(|c: Component| c@)
}

/// The `/`-separated segments of a path, empty ones included.
pub open spec fn split_segments(s: Seq<char>) -> Seq<Seq<char>>
    decreases s.len(),
{
    if s.len() == 0 {
        seq![Seq::empty()]
    } else {
        let init = split_segments(s.drop_last());
        if s.last() == '/' {
            init.push(Seq::empty())
        } else {
            init.update(init.len() - 1, init.last().push(s.last()))
        }
    }
}

/// The components named by a list of segments: empty and `.` segments are
/// dropped and `..` is a parent-directory component.
pub open spec fn normal_components(segs: Seq<Seq<char>>) -> Seq<ComponentView>
    decreases segs.len(),
{
    if segs.len() == 0 {
        Seq::empty()
    } else {
        let init = normal_components(segs.drop_last());
        let seg = segs.last();
        if seg.len() == 0 || seg == seq!['.'] {
            init
        } else if seg == seq!['.', '.'] {
            init.push(ComponentView::ParentDir)
        } else {
            init.push(ComponentView::Normal(seg))
        }
    }
}

/// The components of a path string.
pub open spec fn path_components_spec(s: Seq<char>) -> Seq<ComponentView> {
    let segs = split_segments(s);
    if s.len() > 0 && s[0] == '/' {
        seq![ComponentView::Root] + normal_components(segs)
    } else if segs[0] == seq!['.'] {
        seq![ComponentView::CurDir] + normal_components(segs.drop_first())
    } else {
        normal_components(segs)
    }
}

proof fn lemma_split_segments_nonempty(s: Seq<char>)
    ensures
        split_segments(s).len() >= 1,
    decreases s.len(),
{
    if s.len() > 0 {
        lemma_split_segments_nonempty(s.drop_last());
    }
}

proof fn lemma_split_first_segment(s: Seq<char>)
    requires
        s.len() > 0,
        s[0] == '/',
    ensures
        split_segments(s)[0].len() == 0,
    decreases s.len(),
{
    lemma_split_segments_nonempty(s.drop_last());
    if s.len() > 1 {
        assert(s.drop_last()[0] == '/');
        lemma_split_first_segment(s.drop_last());
        lemma_split_segments_nonempty(s.drop_last().drop_last());
    } else {
        assert(s.drop_last() =~= Seq::<char>::empty());
    }
}

fn split_path(s: &str) -> (segs: Vec<Vec<char>>)
    ensures
        segs@.map_values(|v: Vec<char>| v@) == split_segments(s@),
{
    let cs = chars_of(s);
    let n = cs.len();
    let mut segs: Vec<Vec<char>> = Vec::new();
    let mut cur: Vec<char> = Vec::new();
    let mut i: usize = 0;
    assert(cs@.take(0) =~= Seq::<char>::empty());
    assert(segs@.map_values(|v: Vec<char>| v@).push(cur@) =~= split_segments(cs@.take(0)));
    while i < n
        invariant
            n == cs@.len(),
            cs@ == s@,
            i <= n,
            segs@.map_values(|v: Vec<char>| v@).push(cur@) == split_segments(cs@.take(i as int)),
        decreases n - i,
    {
        let c = cs[i];
        let ghost before = segs@.map_values(|v: Vec<char>| v@).push(cur@);
        assert(cs@.take(i as int + 1).drop_last() =~= cs@.take(i as int));
        assert(cs@.take(i as int + 1).last() == c);
        if c == '/' {
            let done = cur;
            segs.push(done);
            cur = Vec::new();
            assert(segs@.map_values(|v: Vec<char>| v@).push(cur@) =~= before.push(Seq::empty()));
        } else {
            cur.push(c);
            assert(segs@.map_values(|v: Vec<char>| v@).push(cur@) =~= before.update(
                before.len() - 1,
                before.last().push(c),
            ));
        }
        i = i + 1;
    }
    assert(cs@.take(n as int) =~= cs@);
    segs.push(cur);
    segs
}

fn segment_component(seg: &Vec<char>) -> (c: Option<Component>)
    ensures
        seg@.len() == 0 || seg@ == seq!['.'] ==> c is None,
        !(seg@.len() == 0 || seg@ == seq!['.']) && seg@ == seq!['.', '.'] ==> c == Some(
            Component::ParentDir,
        ),
        !(seg@.len() == 0 || seg@ == seq!['.']) && seg@ != seq!['.', '.'] ==> (c matches Some(
            comp,
        ) && comp@ == ComponentView::Normal(seg@)),
{
    let n = seg.len();
    if n == 0 {
        None
    } else if n == 1 && seg[0] == '.' {
        assert(seg@ =~= seq!['.']);
        None
    } else if n == 2 && seg[0] == '.' && seg[1] == '.' {
        assert(seg@ =~= seq!['.', '.']);
        Some(Component::ParentDir)
    } else {
        assert(seg@ != seq!['.']) by {
            if seg@ == seq!['.'] {
                assert(seg@.len() == 1);
            }
        }
        assert(seg@ != seq!['.', '.']) by {
            if seg@ == seq!['.', '.'] {
                assert(seg@.len() == 2 && seg@[0] == '.' && seg@[1] == '.');
            }
        }
        Some(Component::Normal(crate::text::string_from_chars(seg.as_slice())))
    }
}

fn push_normal_components(out: &mut Vec<Component>, segs: &Vec<Vec<char>>, start: usize)
    requires
        start <= segs@.len(),
    ensures
        component_views(final(out)@) == component_views(old(out)@) + normal_components(
            segs@.map_values(|v: Vec<char>| v@).subrange(start as int, segs@.len() as int),
        ),
{
    let ghost sv = segs@.map_values(|v: Vec<char>| v@);
    let ghost base = component_views(out@);
    let mut i: usize = start;
    assert(sv.subrange(start as int, start as int) =~= Seq::<Seq<char>>::empty());
    while i < segs.len()
        invariant
            start <= i <= segs@.len(),
            sv == segs@.map_values(|v: Vec<char>| v@),
            component_views(out@) == base + normal_components(sv.subrange(start as int, i as int)),
        decreases segs@.len() - i,
    {
        let ghost prev = component_views(out@);
        assert(sv.subrange(start as int, i as int + 1).drop_last() =~= sv.subrange(start as int, i as int));
        assert(sv.subrange(start as int, i as int + 1).last() == segs@[i as int]@);
        match segment_component(&segs[i]) {
            Some(c) => {
                out.push(c);
                assert(component_views(out@) =~= prev.push(c@));
            },
            None => {},
        }
        i = i + 1;
    }
    assert(sv.subrange(start as int, sv.len() as int) == sv.subrange(start as int, segs@.len() as int));
}

/// The components of a path.
pub fn path_components(s: &str) -> (cs: Vec<Component>)
    ensures
        component_views(cs@) == path_components_spec(s@),
{
    let segs = split_path(s);
    let ghost sv = segs@.map_values(|v: Vec<char>| v@);
    proof {
        lemma_split_segments_nonempty(s@);
    }
    let mut out: Vec<Component> = Vec::new();
    let first_is_dot = segs[0].len() == 1 && segs[0][0] == '.';
    if s.unicode_len() > 0 && s.get_char(0) == '/' {
        out.push(Component::RootDir);
        assert(component_views(out@) =~= seq![ComponentView::Root]);
        push_normal_components(&mut out, &segs, 0);
        assert(sv.subrange(0, sv.len() as int) =~= sv);
    } else if first_is_dot {
        assert(sv[0] =~= seq!['.']);
        out.push(Component::CurDir);
        assert(component_views(out@) =~= seq![ComponentView::CurDir]);
        push_normal_components(&mut out, &segs, 1);
        assert(sv.subrange(1, sv.len() as int) =~= sv.drop_first());
    } else {
        assert(sv[0] != seq!['.']) by {
            if sv[0] == seq!['.'] {
                assert(sv[0].len() == 1);
            }
        }
        assert(component_views(out@) =~= Seq::<ComponentView>::empty());
        push_normal_components(&mut out, &segs, 0);
        assert(sv.subrange(0, sv.len() as int) =~= sv);
    }
    out
}

fn component_eq(a: &Component, b: &Component) -> (eq: bool)
    ensures
        eq == (a@ == b@),
{
    match (a, b) {
        (Component::RootDir, Component::RootDir) => true,
        (Component::CurDir, Component::CurDir) => true,
        (Component::ParentDir, Component::ParentDir) => true,
        (Component::Normal(x), Component::Normal(y)) => x.eq(y),
        _ => false,
    }
}

/// Whether `base`'s components are a prefix of `path`'s (`Path::starts_with`).
pub open spec fn starts_with_spec(path: Seq<ComponentView>, base: Seq<ComponentView>) -> bool {
    base.len() <= path.len() && path.subrange(0, base.len() as int) == base
}

/// Whether `path` begins with all of `base`'s components.
pub fn components_start_with(path: &[Component], base: &[Component]) -> (b: bool)
    ensures
        b == starts_with_spec(component_views(path@), component_views(base@)),
{
    if base.len() > path.len() {
        return false;
    }
    let mut i: usize = 0;
    while i < base.len()
        invariant
            base@.len() <= path@.len(),
            i <= base@.len(),
            forall|j: int| 0 <= j < i ==> path@[j]@ == base@[j]@,
        decreases base@.len() - i,
    {
        if !component_eq(&path[i], &base[i]) {
            assert(component_views(path@).subrange(0, base@.len() as int)[i as int] != component_views(base@)[i as int]);
            return false;
        }
        i = i + 1;
    }
    assert(component_views(path@).subrange(0, base@.len() as int) =~= component_views(base@));
    true
}

/// A directory lies within itself: every path's components start with
/// its own components.
pub proof fn law_directory_within_itself(s: Seq<char>)
    ensures
        starts_with_spec(path_components_spec(s), path_components_spec(s)),
{
    let cs = path_components_spec(s);
    assert(cs.subrange(0, cs.len() as int) =~= cs);
}

/// Containment is transitive: a path within a directory that lies within
/// another directory lies within that one too.
pub proof fn law_within_is_transitive(a: Seq<ComponentView>, b: Seq<ComponentView>, c: Seq<ComponentView>)
    requires
        starts_with_spec(a, b),
        starts_with_spec(b, c),
    ensures
        starts_with_spec(a, c),
{
    assert forall|i: int| 0 <= i < c.len() implies #[trigger] a.subrange(0, c.len() as int)[i] == c[i] by {
        assert(a.subrange(0, b.len() as int)[i] == b[i]);
        assert(b.subrange(0, c.len() as int)[i] == c[i]);
    }
    assert(a.subrange(0, c.len() as int) =~= c);
}

/// Whether a component list holds a `..` component.
pub open spec fn has_parent_dir_spec(cs: Seq<ComponentView>) -> bool {
    exists|i: int| 0 <= i < cs.len() && cs[i] is ParentDir
}

/// Whether any component from position `start` on is `..`.
pub fn has_parent_dir_from(cs: &[Component], start: usize) -> (b: bool)
    requires
        start <= cs@.len(),
    ensures
        b == has_parent_dir_spec(component_views(cs@).subrange(start as int, cs@.len() as int)),
{
    let ghost tail = component_views(cs@).subrange(start as int, cs@.len() as int);
    let mut i: usize = start;
    while i < cs.len()
        invariant
            start <= i <= cs@.len(),
            tail == component_views(cs@).subrange(start as int, cs@.len() as int),
            forall|j: int| start <= j < i ==> !(cs@[j]@ is ParentDir),
        decreases cs@.len() - i,
    {
        match &cs[i] {
            Component::ParentDir => {
                assert(tail[i - start] is ParentDir);
                return true;
            },
            _ => {},
        }
        i = i + 1;
    }
    assert forall|j: int| 0 <= j < tail.len() implies !(#[trigger] tail[j] is ParentDir) by {
        assert(tail[j] == cs@[j + start]@);
    }
    false
}

/// Whether any component is `..`.
pub fn has_parent_dir(cs: &[Component]) -> (b: bool)
    ensures
        b == has_parent_dir_spec(component_views(cs@)),
{
    assert(component_views(cs@).subrange(0, cs@.len() as int) =~= component_views(cs@));
    has_parent_dir_from(cs, 0)
}

/// Whether a path that exists lies inside the working directory: its
/// canonical form starts with the working directory's canonical form.
pub fn existing_path_is_within(canonical_target: &str, canonical_working: &str) -> (b: bool)
    ensures
        b == starts_with_spec(
            path_components_spec(canonical_target@),
            path_components_spec(canonical_working@),
        ),
{
    let t = path_components(canonical_target);
    let w = path_components(canonical_working);
    components_start_with(t.as_slice(), w.as_slice())
}

/// The components of `path` that follow `prefix` (`Path::strip_prefix`), or
/// all of `path`'s components when `prefix` is not a prefix of it.
pub open spec fn remaining_after_spec(path: Seq<ComponentView>, prefix: Seq<ComponentView>) -> Seq<ComponentView> {
    if starts_with_spec(path, prefix) {
        path.subrange(prefix.len() as int, path.len() as int)
    } else {
        path
    }
}

/// Whether a path that does not exist yet would lie inside the working
/// directory. `ancestor` is the longest existing ancestor of `target` and
/// `canonical_ancestor` its canonical form: that must lie inside the working
/// directory, and the part of `target` below the ancestor must hold no `..`.
pub fn new_path_is_within(
    target: &str,
    ancestor: &str,
    canonical_ancestor: &str,
    canonical_working: &str,
) -> (b: bool)
    ensures
        b == (starts_with_spec(
            path_components_spec(canonical_ancestor@),
            path_components_spec(canonical_working@),
        ) && !has_parent_dir_spec(
            remaining_after_spec(path_components_spec(target@), path_components_spec(ancestor@)),
        )),
{
    if !existing_path_is_within(canonical_ancestor, canonical_working) {
        return false;
    }
    let t = path_components(target);
    let a = path_components(ancestor);
    if components_start_with(t.as_slice(), a.as_slice()) {
        !has_parent_dir_from(t.as_slice(), a.len())
    } else {
        !has_parent_dir(t.as_slice())
    }
}

} // verus!
