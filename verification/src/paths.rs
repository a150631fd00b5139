//! Unix path components, as `std::path::Path::components` reads them.
//!
//! A path is split at `/`; empty pieces (repeated or trailing separators) are
//! dropped, `.` pieces are dropped except at the very beginning of a relative
//! path, a leading `/` is the root, and `..` is the parent directory.
use crate::text::{chars_of, split, split_str, str_eq, views};
use vstd::prelude::*;

verus! {

/// One component of a path.
#[derive(Debug, Clone, PartialEq, Eq)]
pub enum PathComponent {
    RootDir,
    CurDir,
    ParentDir,
    Normal(String),
}

/// The contents of a [`PathComponent`].
pub enum ComponentView {
    RootDir,
    CurDir,
    ParentDir,
    Normal(Seq<char>),
}

pub open spec fn component_view(c: PathComponent) -> ComponentView {
    match c {
        PathComponent::RootDir => ComponentView::RootDir,
        PathComponent::CurDir => ComponentView::CurDir,
        PathComponent::ParentDir => ComponentView::ParentDir,
        PathComponent::Normal(s) => ComponentView::Normal(s@),
    }
}

pub open spec fn component_views(cs: Seq<PathComponent>) -> Seq<ComponentView> {
    cs.map_values(|c: PathComponent| component_view(c))
}

/// The component that a non-empty piece other than `.` stands for.
pub open spec fn piece_component(p: Seq<char>) -> ComponentView {
    if p == ".."@ {
        ComponentView::ParentDir
    } else {
        ComponentView::Normal(p)
    }
}

/// Whether a piece between separators makes a component (it is neither empty nor `.`).
pub open spec fn piece_counts(p: Seq<char>) -> bool {
    p.len() > 0 && p != "."@
}

/// The components of the pieces, in order, skipping those that make none.
pub open spec fn pieces_components(ps: Seq<Seq<char>>) -> Seq<ComponentView>
    decreases ps.len(),
{
    if ps.len() == 0 {
        Seq::empty()
    } else if piece_counts(ps.last()) {
        pieces_components(ps.drop_last()).push(piece_component(ps.last()))
    } else {
        pieces_components(ps.drop_last())
    }
}

/// The components of a path.
pub open spec fn path_components(s: Seq<char>) -> Seq<ComponentView> {
    let ps = split(s, '/');
    if s.len() > 0 && s[0] == '/' {
        seq![ComponentView::RootDir] + pieces_components(ps)
    } else if ps[0] == "."@ {
        seq![ComponentView::CurDir] + pieces_components(ps.drop_first())
    } else {
        pieces_components(ps)
    }
}

/// The final component of a path, if it is a normal one (`Path::file_name`).
pub open spec fn file_name(s: Seq<char>) -> Option<Seq<char>> {
    let cs = path_components(s);
    if cs.len() > 0 && cs.last() is Normal {
        Some(cs.last()->Normal_0)
    } else {
        None
    }
}

/// How `Path::iter` prints a component.
pub open spec fn component_text(c: ComponentView) -> Seq<char> {
    match c {
        ComponentView::RootDir => "/"@,
        ComponentView::CurDir => "."@,
        ComponentView::ParentDir => ".."@,
        ComponentView::Normal(s) => s,
    }
}

fn component_of_piece(p: &String) -> (r: PathComponent)
    requires
        piece_counts(p@),
    ensures
        component_view(r) == piece_component(p@),
{
    if str_eq(p.as_str(), "..") {
        PathComponent::ParentDir
    } else {
        PathComponent::Normal(p.clone())
    }
}

fn piece_makes_component(p: &String) -> (r: bool)
    ensures
        r == piece_counts(p@),
{
    p.as_str().unicode_len() > 0 && !str_eq(p.as_str(), ".")
}

fn components_of_pieces(out: &mut Vec<PathComponent>, ps: &Vec<String>, start: usize)
    requires
        start <= ps@.len(),
    ensures
        component_views(final(out)@) == component_views(old(out)@) + pieces_components(
            views(ps@).subrange(start as int, ps@.len() as int),
        ),
{
    let n = ps.len();
    let mut i: usize = start;
    let ghost vs = views(ps@);
    while i < n
        invariant
            n == ps@.len(),
            vs == views(ps@),
            start <= i <= n,
            component_views(out@) == component_views(old(out)@) + pieces_components(
                vs.subrange(start as int, i as int),
            ),
        decreases n - i,
    {
        let ghost pre = vs.subrange(start as int, i as int);
        let ghost post = vs.subrange(start as int, i as int + 1);
        assert(post.drop_last() =~= pre);
        assert(post.last() == ps@[i as int]@);
        if piece_makes_component(&ps[i]) {
            let c = component_of_piece(&ps[i]);
            let ghost before = out@;
            out.push(c);
            assert(component_views(out@) =~= component_views(before).push(component_view(c)));
        }
        i = i + 1;
    }
}

/// The components of a path.
pub fn components(path: &str) -> (r: Vec<PathComponent>)
    ensures
        component_views(r@) == path_components(path@),
{
    let cs = chars_of(path);
    let ps = split_str(path, '/');
    let ghost vs = views(ps@);
    proof {
        crate::text::lemma_split_nonempty(path@, '/');
    }
    let mut out: Vec<PathComponent> = Vec::new();
    if cs.len() > 0 && cs[0] == '/' {
        out.push(PathComponent::RootDir);
        components_of_pieces(&mut out, &ps, 0);
        assert(vs.subrange(0, vs.len() as int) =~= vs);
        assert(component_views(out@) =~= path_components(path@));
    } else if str_eq(ps[0].as_str(), ".") {
        out.push(PathComponent::CurDir);
        components_of_pieces(&mut out, &ps, 1);
        assert(vs.subrange(1, vs.len() as int) =~= vs.drop_first());
        assert(component_views(out@) =~= path_components(path@));
    } else {
        components_of_pieces(&mut out, &ps, 0);
        assert(vs.subrange(0, vs.len() as int) =~= vs);
        assert(component_views(out@) =~= path_components(path@));
    }
    out
}

/// The final component of a path, if it is a normal one.
pub fn path_file_name(path: &str) -> (r: Option<String>)
    ensures
        match r {
            Some(s) => file_name(path@) == Some(s@),
            None => file_name(path@) is None,
        },
{
    let cs = components(path);
    let n = cs.len();
    if n == 0 {
        return None;
    }
    match &cs[n - 1] {
        PathComponent::Normal(s) => Some(s.clone()),
        _ => None,
    }
}

} // verus!
