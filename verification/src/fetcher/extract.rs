//! The path-safety decisions of zip extraction.
//!
//! An archive's paths are not trusted: an entry must have an enclosed name
//! under the expected top-level directory, every extracted path must stay
//! under the staging directory, and a symlink is created only when its target,
//! resolved from the directory that really contains the link and following
//! every already-existing link it passes through, never leaves the archive's
//! top-level directory at any step.
//!
//! Paths are sequences of component names from the filesystem root. The
//! filesystem questions (where a directory canonically is, whether a path is
//! a link and where it leads) are asked around the library; the walk over a
//! link target is [`link_walk_step`], from the walk and the last answer to the
//! walk and the next question.

use crate::fetcher::error::{result_view, FetcherError, FetcherErrorView};
use crate::text::{debug_quoted, debug_str, extend_str, str_eq, string_of};
use vstd::prelude::*;

verus! {

/// Component names taken by value.
pub open spec fn names(v: Seq<String>) -> Seq<Seq<char>> {
    v.map_values(|s: String| s@)
}

/// Does the path `p` lie under (or at) `root`?
pub open spec fn under(root: Seq<Seq<char>>, p: Seq<Seq<char>>) -> bool {
    root.len() <= p.len() && p.subrange(0, root.len() as int) == root
}

/// Does the path `path` lie under (or at) `root`?
pub fn is_under(root: &[String], path: &[String]) -> (r: bool)
    ensures
        r == under(names(root@), names(path@)),
{
    if root.len() > path.len() {
        return false;
    }
    let mut i: usize = 0;
    while i < root.len()
        invariant
            i <= root@.len() <= path@.len(),
            forall|j: int| 0 <= j < i ==> root@[j]@ == path@[j]@,
        decreases root@.len() - i,
    {
        if !str_eq(root[i].as_str(), path[i].as_str()) {
            proof {
                assert(names(path@).subrange(0, root@.len() as int)[i as int] != names(root@)[i as int]);
            }
            return false;
        }
        i = i + 1;
    }
    proof {
        assert(names(path@).subrange(0, root@.len() as int) =~= names(root@));
    }
    true
}

/// The refusal of an entry whose name is absolute or climbs out of the
/// archive.
pub open spec fn unsafe_path_error(name: Seq<char>) -> FetcherErrorView {
    FetcherErrorView::Extraction("zip entry has unsafe path: "@ + name)
}

/// The refusal of an entry outside the expected top-level directory.
pub open spec fn prefix_error(rel: Seq<char>, top: Seq<char>) -> FetcherErrorView {
    FetcherErrorView::Extraction(
        "zip entry "@ + debug_str(rel) + " not under expected top-level "@ + debug_str(top),
    )
}

/// Whether an archive entry may be extracted: `enclosed` is its enclosed
/// path, when it has one, as text and with its first component when that
/// is an ordinary name; `top` the top-level directory every entry must live
/// under, if any.
pub open spec fn entry_check_spec(
    name: Seq<char>,
    enclosed: Option<(Seq<char>, Option<Seq<char>>)>,
    top: Option<Seq<char>>,
) -> Result<(), FetcherErrorView> {
    match enclosed {
        None => Err(unsafe_path_error(name)),
        Some((rel, first)) => match top {
            None => Ok(()),
            Some(t) => if first == Some(t) {
                Ok(())
            } else {
                Err(prefix_error(rel, t))
            },
        },
    }
}

/// Refuse an entry with no enclosed name (absolute, or climbing out of the
/// archive), or one whose first component is not the expected top-level
/// directory.
pub fn check_entry(name: &str, enclosed: Option<(String, Option<String>)>, top: Option<&str>) -> (r:
    Result<(), FetcherError>)
    ensures
        result_view(r) == entry_check_spec(
            name@,
            match enclosed {
                Some((rel, first)) => Some(
                    (
                        rel@,
                        match first {
                            Some(f) => Some(f@),
                            None => None,
                        },
                    ),
                ),
                None => None,
            },
            match top {
                Some(t) => Some(t@),
                None => None,
            },
        ),
{
    match enclosed {
        None => {
            let mut v: Vec<char> = Vec::new();
            extend_str(&mut v, "zip entry has unsafe path: ");
            extend_str(&mut v, name);
            Err(FetcherError::Extraction(string_of(v.as_slice())))
        },
        Some((rel, first)) => match top {
            None => Ok(()),
            Some(t) => {
                let same = match &first {
                    Some(f) => str_eq(f.as_str(), t),
                    None => false,
                };
                if same {
                    Ok(())
                } else {
                    let mut v: Vec<char> = Vec::new();
                    extend_str(&mut v, "zip entry ");
                    let q = debug_quoted(rel.as_str());
                    extend_str(&mut v, q.as_str());
                    extend_str(&mut v, " not under expected top-level ");
                    let qt = debug_quoted(t);
                    extend_str(&mut v, qt.as_str());
                    Err(FetcherError::Extraction(string_of(v.as_slice())))
                }
            },
        },
    }
}

/// One component of a symlink's target.
#[derive(Debug, Clone, PartialEq, Eq)]
pub enum TargetPart {
    /// An ordinary name.
    Normal(String),
    /// `.`
    CurDir,
    /// `..`
    ParentDir,
    /// A root or drive prefix.
    Root,
}

/// A [`TargetPart`] taken by value.
pub enum TargetPartView {
    Normal(Seq<char>),
    CurDir,
    ParentDir,
    Root,
}

impl View for TargetPart {
    type V = TargetPartView;

    open spec fn view(&self) -> TargetPartView {
        match self {
            TargetPart::Normal(n) => TargetPartView::Normal(n@),
            TargetPart::CurDir => TargetPartView::CurDir,
            TargetPart::ParentDir => TargetPartView::ParentDir,
            TargetPart::Root => TargetPartView::Root,
        }
    }
}

/// Target components taken by value.
pub open spec fn parts(v: Seq<TargetPart>) -> Seq<TargetPartView> {
    v.map_values(|p: TargetPart| p@)
}

/// Where a walk over a link target stands.
#[derive(Debug)]
pub struct LinkWalk {
    /// The containment root, canonical: the walk may never leave it.
    pub root: Vec<String>,
    /// The components of the link's target.
    pub target: Vec<TargetPart>,
    /// The path the walk has reached.
    pub resolved: Vec<String>,
    /// The next target component to take.
    pub next: usize,
}

/// A [`LinkWalk`] taken by value.
pub struct LinkWalkView {
    pub root: Seq<Seq<char>>,
    pub target: Seq<TargetPartView>,
    pub resolved: Seq<Seq<char>>,
    pub next: int,
}

impl View for LinkWalk {
    type V = LinkWalkView;

    open spec fn view(&self) -> LinkWalkView {
        LinkWalkView {
            root: names(self.root@),
            target: parts(self.target@),
            resolved: names(self.resolved@),
            next: self.next as int,
        }
    }
}

/// What the filesystem says of the path the walk last reached.
#[derive(Debug)]
pub enum LinkStatus {
    /// It is not a symbolic link (or does not exist yet).
    NotLink,
    /// It is a symbolic link, leading (canonically) there, or nowhere the
    /// filesystem could resolve.
    Link(Option<Vec<String>>),
}

/// What happened since the last step.
#[derive(Debug)]
pub enum WalkEvent {
    /// The walk starts from the canonical directory that contains the link,
    /// or that directory could not be canonicalized.
    Began(Option<Vec<String>>),
    /// The answer about the path the walk last reached.
    Looked(LinkStatus),
}

/// The next question, or the verdict.
#[derive(Debug, PartialEq, Eq)]
pub enum WalkAction {
    /// Ask whether this path is a symbolic link, and where it leads.
    Look(Vec<String>),
    /// The target lands here, inside the containment root.
    Accept(Vec<String>),
    /// The target leaves the containment root, or cannot be resolved.
    Refuse,
}

/// A [`WalkAction`] taken by value.
pub enum WalkActionView {
    Look(Seq<Seq<char>>),
    Accept(Seq<Seq<char>>),
    Refuse,
}

impl View for WalkAction {
    type V = WalkActionView;

    open spec fn view(&self) -> WalkActionView {
        match self {
            WalkAction::Look(p) => WalkActionView::Look(names(p@)),
            WalkAction::Accept(p) => WalkActionView::Accept(names(p@)),
            WalkAction::Refuse => WalkActionView::Refuse,
        }
    }
}

/// Take target components from `next` on, from `resolved`, up to the next
/// ordinary name (which is pushed and then asked about) or the end: `.` is
/// skipped, `..` climbs one level and must stay under `root`, a root
/// component is refused. The result is where the walk stands, the next
/// component and the action.
pub open spec fn advance(
    root: Seq<Seq<char>>,
    target: Seq<TargetPartView>,
    resolved: Seq<Seq<char>>,
    next: int,
) -> (Seq<Seq<char>>, int, WalkActionView)
    decreases target.len() - next,
{
    if next < 0 || next >= target.len() {
        (resolved, next, WalkActionView::Accept(resolved))
    } else {
        match target[next] {
            TargetPartView::Normal(n) => (
                resolved.push(n),
                next + 1,
                WalkActionView::Look(resolved.push(n)),
            ),
            TargetPartView::CurDir => advance(root, target, resolved, next + 1),
            TargetPartView::ParentDir => if resolved.len() == 0 || !under(
                root,
                resolved.drop_last(),
            ) {
                (resolved, next, WalkActionView::Refuse)
            } else {
                advance(root, target, resolved.drop_last(), next + 1)
            },
            TargetPartView::Root => (resolved, next, WalkActionView::Refuse),
        }
    }
}

/// The walk `w` with its position replaced.
pub open spec fn moved(w: LinkWalkView, a: (Seq<Seq<char>>, int, WalkActionView)) -> (
    LinkWalkView,
    WalkActionView,
) {
    (LinkWalkView { resolved: a.0, next: a.1, ..w }, a.2)
}

/// One step of the walk over a link target. An empty or absolute target is
/// refused, as is a start outside the root; a link met on the way is
/// followed to its canonical destination, which must lie inside the root; a
/// path the filesystem cannot resolve is refused.
pub open spec fn link_walk_spec(w: LinkWalkView, ev: WalkEvent) -> (LinkWalkView, WalkActionView) {
    match ev {
        WalkEvent::Began(None) => (w, WalkActionView::Refuse),
        WalkEvent::Began(Some(parent)) => if w.target.len() == 0 || w.target[0] is Root || !under(
            w.root,
            names(parent@),
        ) {
            (w, WalkActionView::Refuse)
        } else {
            moved(w, advance(w.root, w.target, names(parent@), 0))
        },
        WalkEvent::Looked(LinkStatus::NotLink) => moved(
            w,
            advance(w.root, w.target, w.resolved, w.next),
        ),
        WalkEvent::Looked(LinkStatus::Link(None)) => (w, WalkActionView::Refuse),
        WalkEvent::Looked(LinkStatus::Link(Some(dest))) => if !under(w.root, names(dest@)) {
            (w, WalkActionView::Refuse)
        } else {
            moved(w, advance(w.root, w.target, names(dest@), w.next))
        },
    }
}

/// Take components from `w.next` on, as [`advance`] says.
fn advance_exec(walk: LinkWalk) -> (r: (LinkWalk, WalkAction))
    ensures
        (r.0@, r.1@) == moved(walk@, advance(walk@.root, walk@.target, walk@.resolved, walk@.next)),
{
    let ghost start = walk@;
    let mut w = walk;
    loop
        invariant
            start == walk@,
            w@.root == start.root,
            w@.target == start.target,
            0 <= w@.next,
            advance(start.root, start.target, start.resolved, start.next) == advance(
                w@.root,
                w@.target,
                w@.resolved,
                w@.next,
            ),
        decreases w@.target.len() - w@.next,
    {
        if w.next >= w.target.len() {
            let p = w.resolved.clone();
            proof {
                assert(names(p@) == w@.resolved);
                let a = advance(w@.root, w@.target, w@.resolved, w@.next);
                assert(a == (w@.resolved, w@.next, WalkActionView::Accept(w@.resolved)));
                assert(moved(start, a).0 == w@);
                assert(advance(start.root, start.target, start.resolved, start.next) == a);
            }
            return (w, WalkAction::Accept(p));
        }
        let i = w.next;
        match &w.target[i] {
            TargetPart::Normal(n) => {
                let n = n.clone();
                let ghost before = w@;
                w.resolved.push(n);
                w.next = i + 1;
                proof {
                    assert(names(w.resolved@) =~= before.resolved.push(n@));
                }
                let p = w.resolved.clone();
                return (w, WalkAction::Look(p));
            },
            TargetPart::CurDir => {
                w.next = i + 1;
            },
            TargetPart::ParentDir => {
                if w.resolved.len() == 0 {
                    return (w, WalkAction::Refuse);
                }
                let ghost before = w@;
                let last = w.resolved.pop();
                proof {
                    assert(names(w.resolved@) =~= before.resolved.drop_last());
                }
                if !is_under(w.root.as_slice(), w.resolved.as_slice()) {
                    match last {
                        Some(l) => w.resolved.push(l),
                        None => {},
                    }
                    proof {
                        assert(names(w.resolved@) =~= before.resolved);
                    }
                    return (w, WalkAction::Refuse);
                }
                w.next = i + 1;
            },
            TargetPart::Root => {
                return (w, WalkAction::Refuse);
            },
        }
    }
}

/// The next step of the walk over a link target: from where it stands and
/// what the filesystem just answered, to where it stands next and the next
/// question or the verdict.
pub fn link_walk_step(w: LinkWalk, ev: WalkEvent) -> (r: (LinkWalk, WalkAction))
    ensures
        (r.0@, r.1@) == link_walk_spec(w@, ev),
{
    match ev {
        WalkEvent::Began(None) => (w, WalkAction::Refuse),
        WalkEvent::Began(Some(parent)) => {
            let bad_target = w.target.len() == 0 || match &w.target[0] {
                TargetPart::Root => true,
                _ => false,
            };
            if bad_target || !is_under(w.root.as_slice(), parent.as_slice()) {
                return (w, WalkAction::Refuse);
            }
            advance_exec(LinkWalk { root: w.root, target: w.target, resolved: parent, next: 0 })
        },
        WalkEvent::Looked(LinkStatus::NotLink) => advance_exec(w),
        WalkEvent::Looked(LinkStatus::Link(None)) => (w, WalkAction::Refuse),
        WalkEvent::Looked(LinkStatus::Link(Some(dest))) => {
            if !is_under(w.root.as_slice(), dest.as_slice()) {
                return (w, WalkAction::Refuse);
            }
            advance_exec(LinkWalk { root: w.root, target: w.target, resolved: dest, next: w.next })
        },
    }
}

/// Taking components from a position under the root stays under it, and
/// an accepted landing point lies under it.
proof fn lemma_advance_stays_under(
    root: Seq<Seq<char>>,
    target: Seq<TargetPartView>,
    resolved: Seq<Seq<char>>,
    next: int,
)
    requires
        under(root, resolved),
    ensures
        under(root, advance(root, target, resolved, next).0),
        advance(root, target, resolved, next).2 matches WalkActionView::Accept(p) ==> under(
            root,
            p,
        ),
        advance(root, target, resolved, next).2 matches WalkActionView::Look(p) ==> under(root, p),
    decreases target.len() - next,
{
    if next < 0 || next >= target.len() {
    } else {
        match target[next] {
            TargetPartView::Normal(n) => {
                assert(resolved.push(n).subrange(0, root.len() as int) =~= resolved.subrange(
                    0,
                    root.len() as int,
                ));
            },
            TargetPartView::CurDir => lemma_advance_stays_under(root, target, resolved, next + 1),
            TargetPartView::ParentDir => {
                if !(resolved.len() == 0 || !under(root, resolved.drop_last())) {
                    lemma_advance_stays_under(root, target, resolved.drop_last(), next + 1);
                }
            },
            TargetPartView::Root => {},
        }
    }
}

/// Every target the walk accepts lands inside the containment root, every
/// path it asks about lies inside it, and the walk never stands outside it:
/// from the start, and from any position inside the root.
pub proof fn accepted_links_stay_inside(w: LinkWalkView, ev: WalkEvent)
    requires
        ev is Began || under(w.root, w.resolved),
    ensures
        link_walk_spec(w, ev).1 matches WalkActionView::Accept(p) ==> under(w.root, p),
        link_walk_spec(w, ev).1 matches WalkActionView::Look(p) ==> under(w.root, p),
        !(ev is Began) ==> under(w.root, link_walk_spec(w, ev).0.resolved),
        (ev is Began && !(link_walk_spec(w, ev).1 is Refuse)) ==> under(
            w.root,
            link_walk_spec(w, ev).0.resolved,
        ),
{
    match ev {
        WalkEvent::Began(Some(parent)) => {
            if !(w.target.len() == 0 || w.target[0] is Root || !under(w.root, names(parent@))) {
                lemma_advance_stays_under(w.root, w.target, names(parent@), 0);
            }
        },
        WalkEvent::Looked(LinkStatus::NotLink) => {
            lemma_advance_stays_under(w.root, w.target, w.resolved, w.next);
        },
        WalkEvent::Looked(LinkStatus::Link(Some(dest))) => {
            if under(w.root, names(dest@)) {
                lemma_advance_stays_under(w.root, w.target, names(dest@), w.next);
            }
        },
        _ => {},
    }
}

/// Taking components that are all ordinary names or `.` is never refused.
proof fn lemma_advance_plain(
    root: Seq<Seq<char>>,
    target: Seq<TargetPartView>,
    resolved: Seq<Seq<char>>,
    next: int,
)
    requires
        0 <= next,
        forall|i: int|
            next <= i < target.len() ==> (#[trigger] target[i] is Normal || target[i] is CurDir),
    ensures
        !(advance(root, target, resolved, next).2 is Refuse),
    decreases target.len() - next,
{
    if next < target.len() {
        if target[next] is CurDir {
            lemma_advance_plain(root, target, resolved, next + 1);
        }
    }
}

/// Meeting an already-extracted link inside the root is the same as having
/// reached its canonical destination: the walk goes on from there exactly
/// as from a plain directory at that place, so the next ordinary name is
/// asked about under the destination. A link leading outside the root, or
/// nowhere, is refused.
pub proof fn links_inside_root_are_followed(w: LinkWalkView, dest: Vec<String>)
    ensures
        under(w.root, names(dest@)) ==> link_walk_spec(
            w,
            WalkEvent::Looked(LinkStatus::Link(Some(dest))),
        ) == link_walk_spec(
            LinkWalkView { resolved: names(dest@), ..w },
            WalkEvent::Looked(LinkStatus::NotLink),
        ),
        (under(w.root, names(dest@)) && 0 <= w.next < w.target.len() && w.target[w.next] is Normal)
            ==> link_walk_spec(w, WalkEvent::Looked(LinkStatus::Link(Some(dest)))) == (
            LinkWalkView {
                resolved: names(dest@).push(w.target[w.next]->Normal_0),
                next: w.next + 1,
                ..w
            },
            WalkActionView::Look(names(dest@).push(w.target[w.next]->Normal_0)),
        ),
        (under(w.root, names(dest@)) && w.next >= w.target.len()) ==> link_walk_spec(
            w,
            WalkEvent::Looked(LinkStatus::Link(Some(dest))),
        ).1 == WalkActionView::Accept(names(dest@)),
        !under(w.root, names(dest@)) ==> link_walk_spec(
            w,
            WalkEvent::Looked(LinkStatus::Link(Some(dest))),
        ).1 is Refuse,
        link_walk_spec(w, WalkEvent::Looked(LinkStatus::Link(None))).1 is Refuse,
{
}

/// A target made only of ordinary names and `.` cannot climb out of the
/// directory it starts from, so the walk never refuses it while it stands
/// inside the root: not at the start, not after a plain directory, not after
/// a link whose destination lies inside the root.
pub proof fn plain_targets_are_never_refused(w: LinkWalkView, ev: WalkEvent)
    requires
        0 <= w.next,
        forall|i: int|
            0 <= i < w.target.len() ==> (#[trigger] w.target[i] is Normal || w.target[i] is CurDir),
        match ev {
            WalkEvent::Began(Some(p)) => w.target.len() > 0 && under(w.root, names(p@)),
            WalkEvent::Began(None) => false,
            WalkEvent::Looked(LinkStatus::NotLink) => true,
            WalkEvent::Looked(LinkStatus::Link(Some(d))) => under(w.root, names(d@)),
            WalkEvent::Looked(LinkStatus::Link(None)) => false,
        },
    ensures
        !(link_walk_spec(w, ev).1 is Refuse),
{
    match ev {
        WalkEvent::Began(Some(p)) => {
            assert(!(w.target[0] is Root));
            lemma_advance_plain(w.root, w.target, names(p@), 0);
        },
        WalkEvent::Looked(LinkStatus::NotLink) => {
            lemma_advance_plain(w.root, w.target, w.resolved, w.next);
        },
        WalkEvent::Looked(LinkStatus::Link(Some(d))) => {
            lemma_advance_plain(w.root, w.target, names(d@), w.next);
        },
        _ => {},
    }
}

/// `.` is skipped: a walk whose next component is `.` goes on exactly as
/// from the component after it. A `..` that stays inside the root climbs
/// one level: the walk then accepts the parent when the `..` ends the
/// target, and asks about the parent's child when an ordinary name follows;
/// a `..` that would leave the root, or climb above the filesystem root, is
/// refused.
pub proof fn dots_are_resolved_lexically(w: LinkWalkView)
    requires
        0 <= w.next < w.target.len(),
    ensures
        w.target[w.next] is CurDir ==> link_walk_spec(w, WalkEvent::Looked(LinkStatus::NotLink))
            == link_walk_spec(
            LinkWalkView { next: w.next + 1, ..w },
            WalkEvent::Looked(LinkStatus::NotLink),
        ),
        (w.target[w.next] is ParentDir && w.resolved.len() > 0 && under(
            w.root,
            w.resolved.drop_last(),
        ) && w.next + 1 == w.target.len()) ==> link_walk_spec(
            w,
            WalkEvent::Looked(LinkStatus::NotLink),
        ).1 == WalkActionView::Accept(w.resolved.drop_last()),
        (w.target[w.next] is ParentDir && w.resolved.len() > 0 && under(
            w.root,
            w.resolved.drop_last(),
        ) && w.next + 1 < w.target.len() && w.target[w.next + 1] is Normal) ==> link_walk_spec(
            w,
            WalkEvent::Looked(LinkStatus::NotLink),
        ).1 == WalkActionView::Look(
            w.resolved.drop_last().push(w.target[w.next + 1]->Normal_0),
        ),
        (w.target[w.next] is ParentDir && (w.resolved.len() == 0 || !under(
            w.root,
            w.resolved.drop_last(),
        ))) ==> link_walk_spec(w, WalkEvent::Looked(LinkStatus::NotLink)).1 is Refuse,
        w.target[w.next] is Root ==> link_walk_spec(
            w,
            WalkEvent::Looked(LinkStatus::NotLink),
        ).1 is Refuse,
{
    if w.target[w.next] is ParentDir && w.resolved.len() > 0 && under(
        w.root,
        w.resolved.drop_last(),
    ) {
        let up = w.resolved.drop_last();
        assert(advance(w.root, w.target, w.resolved, w.next) == advance(
            w.root,
            w.target,
            up,
            w.next + 1,
        ));
        if w.next + 1 == w.target.len() {
            assert(advance(w.root, w.target, up, w.next + 1).2 == WalkActionView::Accept(up));
        }
    }
}

/// A target is resolved from the directory that contains the link: its
/// first ordinary name is asked about right under that directory. An empty
/// or absolute target, a containing directory outside the root, or one that
/// could not be canonicalized, is refused at once.
pub proof fn walk_starts_beside_the_link(w: LinkWalkView, parent: Vec<String>)
    ensures
        (w.target.len() > 0 && w.target[0] is Normal && under(w.root, names(parent@)))
            ==> link_walk_spec(w, WalkEvent::Began(Some(parent))) == (
            LinkWalkView { resolved: names(parent@).push(w.target[0]->Normal_0), next: 1, ..w },
            WalkActionView::Look(names(parent@).push(w.target[0]->Normal_0)),
        ),
        (w.target.len() == 0 || w.target[0] is Root || !under(w.root, names(parent@)))
            ==> link_walk_spec(w, WalkEvent::Began(Some(parent))).1 is Refuse,
        link_walk_spec(w, WalkEvent::Began(None)).1 is Refuse,
{
}

} // verus!
