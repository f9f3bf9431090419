use crate::style::{paint, painted, Look};
use vstd::prelude::*;

verus! {

/// How a segment of a rendered path is emphasised.
#[derive(PartialEq, Eq, Structural, Clone, Copy, Debug)]
pub enum Emphasis {
    Root,
    Dimmed,
    Bold,
}

/// One component of a path below the filesystem root.
#[derive(Clone, Debug, PartialEq, Eq)]
pub enum PathComponent {
    CurDir,
    ParentDir,
    Normal(String),
}

/// What a component is, as a mathematical value.
pub enum ComponentView {
    Cur,
    Parent,
    Name(Seq<char>),
}

impl View for PathComponent {
    type V = ComponentView;

    open spec fn view(&self) -> ComponentView {
        match self {
            PathComponent::CurDir => ComponentView::Cur,
            PathComponent::ParentDir => ComponentView::Parent,
            PathComponent::Normal(n) => ComponentView::Name(n@),
        }
    }
}

/// A piece of text of the rendered path with its emphasis.
#[derive(Clone, Debug, PartialEq, Eq)]
pub struct PathSegment {
    pub text: String,
    pub emphasis: Emphasis,
}

pub struct SegmentView {
    pub text: Seq<char>,
    pub emphasis: Emphasis,
}

impl View for PathSegment {
    type V = SegmentView;

    open spec fn view(&self) -> SegmentView {
        SegmentView { text: self.text@, emphasis: self.emphasis }
    }
}

/// Where the rendered path starts from.
#[derive(PartialEq, Eq, Structural, Clone, Copy, Debug)]
pub enum Anchor {
    Home,
    RootSlash,
}

pub open spec fn components_view(v: Seq<PathComponent>) -> Seq<ComponentView> {
    v.map_values(|c: PathComponent| c@)
}

pub open spec fn segments_view(v: Seq<PathSegment>) -> Seq<SegmentView> {
    v.map_values(|s: PathSegment| s@)
}

pub open spec fn home_view(home: Option<&Vec<PathComponent>>) -> Option<Seq<ComponentView>> {
    match home {
        Some(h) => Some(components_view(h@)),
        None => None,
    }
}

/// `pre` names `path` itself or one of its ancestors.
pub open spec fn is_ancestor_or_self(pre: Seq<ComponentView>, path: Seq<ComponentView>) -> bool {
    pre.len() <= path.len() && path.subrange(0, pre.len() as int) == pre
}

/// The path lies at or below `home`.
pub open spec fn under_home(path: Seq<ComponentView>, home: Option<Seq<ComponentView>>) -> bool {
    match home {
        Some(h) => is_ancestor_or_self(h, path),
        None => false,
    }
}

pub open spec fn anchor_of(path: Seq<ComponentView>, home: Option<Seq<ComponentView>>) -> Anchor {
    if under_home(path, home) {
        Anchor::Home
    } else {
        Anchor::RootSlash
    }
}

/// The components that follow the anchor.
pub open spec fn remainder_of(path: Seq<ComponentView>, home: Option<Seq<ComponentView>>) -> Seq<
    ComponentView,
> {
    if under_home(path, home) {
        path.subrange(home->0.len() as int, path.len() as int)
    } else {
        path
    }
}

pub open spec fn anchor_segment(anchor: Anchor, remainder_len: nat) -> SegmentView {
    let text = match anchor {
        Anchor::Home => seq!['~'],
        Anchor::RootSlash => if remainder_len == 0 {
            seq!['/']
        } else {
            Seq::empty()
        },
    };
    SegmentView {
        text,
        emphasis: if remainder_len == 0 {
            Emphasis::Bold
        } else {
            Emphasis::Dimmed
        },
    }
}

/// The first character of a name, or the name itself when it is empty.
pub open spec fn initial(name: Seq<char>) -> Seq<char> {
    if name.len() == 0 {
        name
    } else {
        name.subrange(0, 1)
    }
}

/// The text of a component: names other than the last are cut to their first character.
pub open spec fn component_text(c: ComponentView, is_last: bool) -> Seq<char> {
    match c {
        ComponentView::Cur => seq!['.'],
        ComponentView::Parent => seq!['.', '.'],
        ComponentView::Name(n) => if is_last {
            n
        } else {
            initial(n)
        },
    }
}

pub open spec fn separator_segment() -> SegmentView {
    SegmentView { text: seq!['/'], emphasis: Emphasis::Dimmed }
}

/// Segment `i` after the anchor: a separator, then the component, for each component.
pub open spec fn remainder_segment(rem: Seq<ComponentView>, i: int) -> SegmentView {
    if i % 2 == 0 {
        separator_segment()
    } else {
        SegmentView {
            text: component_text(rem[i / 2], i / 2 == rem.len() - 1),
            emphasis: Emphasis::Bold,
        }
    }
}

/// The segments that render `path` relative to `home`, root to leaf.
pub open spec fn formatted(path: Seq<ComponentView>, home: Option<Seq<ComponentView>>) -> Seq<
    SegmentView,
> {
    let rem = remainder_of(path, home);
    seq![anchor_segment(anchor_of(path, home), rem.len())] + Seq::new(
        2 * rem.len(),
        |i: int| remainder_segment(rem, i),
    )
}

/// Whether two components are the same.
pub fn same_component(a: &PathComponent, b: &PathComponent) -> (r: bool)
    ensures
        r == (a@ == b@),
{
    match (a, b) {
        (PathComponent::CurDir, PathComponent::CurDir) => true,
        (PathComponent::ParentDir, PathComponent::ParentDir) => true,
        (PathComponent::Normal(x), PathComponent::Normal(y)) => {
            let r = *x == *y;
            r
        },
        _ => false,
    }
}

/// Whether `prefix` names `path` itself or one of its ancestors.
pub fn starts_with(path: &Vec<PathComponent>, prefix: &Vec<PathComponent>) -> (r: bool)
    ensures
        r == is_ancestor_or_self(components_view(prefix@), components_view(path@)),
{
    let ghost pv = components_view(path@);
    let ghost hv = components_view(prefix@);
    if prefix.len() > path.len() {
        return false;
    }
    let mut i: usize = 0;
    while i < prefix.len()
        invariant
            prefix.len() <= path.len(),
            i <= prefix.len(),
            pv == components_view(path@),
            hv == components_view(prefix@),
            forall|k: int| 0 <= k < i ==> pv[k] == hv[k],
        decreases prefix.len() - i,
    {
        if !same_component(&path[i], &prefix[i]) {
            assert(pv.subrange(0, hv.len() as int)[i as int] != hv[i as int]);
            return false;
        }
        i = i + 1;
    }
    assert(pv.subrange(0, hv.len() as int) =~= hv);
    true
}

/// Relies on std's `char::to_string`: the string that holds that one character.
#[verifier::external_body]
fn char_string(c: char) -> (r: String)
    ensures
        r@ == seq![c],
{
    c.to_string()
}

broadcast use vstd::string::axiom_spec_iter, vstd::string::next_postcondition;

/// The first character of `name` as a string; an empty name stays empty.
pub fn initial_of(name: &String) -> (r: String)
    ensures
        r@ == initial(name@),
{
    let s = name.as_str();
    let mut chars = s.chars();
    match chars.next() {
        Some(c) => {
            let r = char_string(c);
            assert(r@ =~= initial(name@));
            r
        },
        None => String::new(),
    }
}

fn separator() -> (r: PathSegment)
    ensures
        r@ == separator_segment(),
{
    let text = "/".to_owned();
    proof {
        reveal_strlit("/");
    }
    assert(text@ =~= seq!['/']);
    PathSegment { text, emphasis: Emphasis::Dimmed }
}

/// The text that renders one component; `is_last` keeps a name whole.
pub fn render_component(c: &PathComponent, is_last: bool) -> (r: String)
    ensures
        r@ == component_text(c@, is_last),
{
    match c {
        PathComponent::CurDir => {
            proof {
                reveal_strlit(".");
            }
            ".".to_owned()
        },
        PathComponent::ParentDir => {
            proof {
                reveal_strlit("..");
            }
            "..".to_owned()
        },
        PathComponent::Normal(n) => if is_last {
            n.clone()
        } else {
            initial_of(n)
        },
    }
}

/// Renders `current` (the components below the filesystem root) as segments,
/// relative to `home` where `current` lies at or below it.
pub fn format_path(current: &Vec<PathComponent>, home: Option<&Vec<PathComponent>>) -> (r: Vec<
    PathSegment,
>)
    ensures
        segments_view(r@) == formatted(components_view(current@), home_view(home)),
{
    let ghost pv = components_view(current@);
    let ghost hv = home_view(home);
    let (anchor, start) = match home {
        Some(h) => if starts_with(current, h) {
            (Anchor::Home, h.len())
        } else {
            (Anchor::RootSlash, 0)
        },
        None => (Anchor::RootSlash, 0),
    };
    let ghost rem = remainder_of(pv, hv);
    let ghost full = formatted(pv, hv);
    assert(rem =~= pv.subrange(start as int, pv.len() as int));
    assert(anchor == anchor_of(pv, hv));
    let empty = start == current.len();
    let text = match anchor {
        Anchor::Home => {
            proof {
                reveal_strlit("~");
            }
            "~".to_owned()
        },
        Anchor::RootSlash => if empty {
            proof {
                reveal_strlit("/");
            }
            "/".to_owned()
        } else {
            String::new()
        },
    };
    let emphasis = if empty {
        Emphasis::Bold
    } else {
        Emphasis::Dimmed
    };
    assert(text@ =~= anchor_segment(anchor, rem.len()).text);
    let mut r: Vec<PathSegment> = Vec::new();
    r.push(PathSegment { text, emphasis });
    assert(segments_view(r@) =~= full.subrange(0, 1));
    let mut i: usize = start;
    while i < current.len()
        invariant
            start <= i <= current.len(),
            pv == components_view(current@),
            rem == pv.subrange(start as int, pv.len() as int),
            full == formatted(pv, hv),
            full.len() == 1 + 2 * rem.len(),
            rem == remainder_of(pv, hv),
            segments_view(r@) == full.subrange(0, 1 + 2 * (i - start)),
        decreases current.len() - i,
    {
        let ghost k: int = i - start;
        let sep = separator();
        let text = render_component(&current[i], i + 1 == current.len());
        let ghost r0 = r@;
        r.push(sep);
        r.push(PathSegment { text, emphasis: Emphasis::Bold });
        assert(segments_view(r0).len() == 1 + 2 * k);
        assert(r@.len() == 3 + 2 * k);
        assert(r@[1 + 2 * k]@ == separator_segment());
        assert(r@[2 + 2 * k]@ == remainder_segment(rem, 2 * k + 1));
        assert(rem[k] == pv[i as int]);
        assert(full[1 + 2 * k] == separator_segment());
        assert(full[2 + 2 * k] == remainder_segment(rem, 2 * k + 1));
        assert(segments_view(r@) =~= full.subrange(0, 1 + 2 * (k + 1)));
        i = i + 1;
    }
    assert(full.subrange(0, full.len() as int) =~= full);
    r
}

/// The terminal look of an emphasis.
pub open spec fn look_of(e: Emphasis) -> Look {
    match e {
        Emphasis::Root => Look::Plain,
        Emphasis::Dimmed => Look::DimGrey,
        Emphasis::Bold => Look::Bold,
    }
}

pub fn emphasis_look(e: Emphasis) -> (r: Look)
    ensures
        r == look_of(e),
{
    match e {
        Emphasis::Root => Look::Plain,
        Emphasis::Dimmed => Look::DimGrey,
        Emphasis::Bold => Look::Bold,
    }
}

/// The texts of the segments, one after another.
pub open spec fn plain_text_of(segs: Seq<SegmentView>) -> Seq<char>
    decreases segs.len(),
{
    if segs.len() == 0 {
        Seq::empty()
    } else {
        plain_text_of(segs.drop_last()) + segs.last().text
    }
}

/// The segments, each painted in the look of its emphasis, one after another.
pub open spec fn styled_text_of(segs: Seq<SegmentView>) -> Seq<char>
    decreases segs.len(),
{
    if segs.len() == 0 {
        Seq::empty()
    } else {
        styled_text_of(segs.drop_last()) + painted(look_of(segs.last().emphasis), segs.last().text)
    }
}

/// The rendered path without styling.
pub fn render_plain(segs: &Vec<PathSegment>) -> (r: String)
    ensures
        r@ == plain_text_of(segments_view(segs@)),
{
    let ghost sv = segments_view(segs@);
    let mut r = String::new();
    let mut i: usize = 0;
    while i < segs.len()
        invariant
            i <= segs.len(),
            sv == segments_view(segs@),
            r@ == plain_text_of(sv.subrange(0, i as int)),
        decreases segs.len() - i,
    {
        r.append(segs[i].text.as_str());
        assert(sv.subrange(0, i + 1).drop_last() =~= sv.subrange(0, i as int));
        i = i + 1;
    }
    assert(sv.subrange(0, i as int) =~= sv);
    r
}

/// The rendered path with each segment styled by its emphasis.
pub fn render_styled(segs: &Vec<PathSegment>) -> (r: String)
    ensures
        r@ == styled_text_of(segments_view(segs@)),
{
    let ghost sv = segments_view(segs@);
    let mut r = String::new();
    let mut i: usize = 0;
    while i < segs.len()
        invariant
            i <= segs.len(),
            sv == segments_view(segs@),
            r@ == styled_text_of(sv.subrange(0, i as int)),
        decreases segs.len() - i,
    {
        let piece = paint(emphasis_look(segs[i].emphasis), segs[i].text.as_str());
        r.append(piece.as_str());
        assert(sv.subrange(0, i + 1).drop_last() =~= sv.subrange(0, i as int));
        i = i + 1;
    }
    assert(sv.subrange(0, i as int) =~= sv);
    r
}

/// At the home directory itself the path renders as one bold `~`.
pub proof fn lemma_at_home(home: Seq<ComponentView>)
    ensures
        formatted(home, Some(home)) == seq![SegmentView { text: seq!['~'], emphasis: Emphasis::Bold }],
{
    let f = formatted(home, Some(home));
    assert(home.subrange(0, home.len() as int) =~= home);
    assert(remainder_of(home, Some(home)) =~= Seq::<ComponentView>::empty());
    assert(f =~= seq![SegmentView { text: seq!['~'], emphasis: Emphasis::Bold }]);
}

/// The filesystem root, when it is not at or below home, renders as one bold `/`.
pub proof fn lemma_at_root(home: Option<Seq<ComponentView>>)
    requires
        !under_home(Seq::empty(), home),
    ensures
        formatted(Seq::empty(), home) == seq![SegmentView { text: seq!['/'], emphasis: Emphasis::Bold }],
{
    let f = formatted(Seq::empty(), home);
    assert(f =~= seq![SegmentView { text: seq!['/'], emphasis: Emphasis::Bold }]);
}

/// After the anchor, each component of the remainder gives a dimmed separator
/// followed by the bold component: two segments per component. Every name but
/// the last is cut to its first character; the last is kept whole.
pub proof fn lemma_segment_layout(path: Seq<ComponentView>, home: Option<Seq<ComponentView>>)
    ensures
        ({
            let f = formatted(path, home);
            let rem = remainder_of(path, home);
            &&& f.len() == 1 + 2 * rem.len()
            &&& forall|k: int| 0 <= k < rem.len() ==> #[trigger] f[1 + 2 * k] == separator_segment()
            &&& forall|k: int| 0 <= k < rem.len() ==> (#[trigger] f[2 + 2 * k]).emphasis == Emphasis::Bold
            &&& forall|k: int|
                0 <= k < rem.len() - 1 && rem[k] is Name ==> (#[trigger] f[2 + 2 * k]).text
                    == initial(rem[k]->Name_0)
            &&& rem.len() > 0 && rem.last() is Name ==> f.last().text == rem.last()->Name_0
        }),
{
    let f = formatted(path, home);
    let rem = remainder_of(path, home);
    assert forall|k: int| 0 <= k < rem.len() implies #[trigger] f[1 + 2 * k] == separator_segment() by {
        assert((2 * k) % 2 == 0);
    }
    assert forall|k: int| 0 <= k < rem.len() implies (#[trigger] f[2 + 2 * k]).emphasis
        == Emphasis::Bold by {
        assert((2 * k + 1) % 2 == 1);
        assert((2 * k + 1) / 2 == k);
    }
    assert forall|k: int| 0 <= k < rem.len() - 1 && rem[k] is Name implies (#[trigger] f[2 + 2
        * k]).text == initial(rem[k]->Name_0) by {
        assert((2 * k + 1) % 2 == 1);
        assert((2 * k + 1) / 2 == k);
    }
    if rem.len() > 0 {
        let k = rem.len() - 1;
        assert((2 * k + 1) % 2 == 1);
        assert((2 * k + 1) / 2 == k);
        assert(f.last() == f[2 + 2 * k]);
    }
}

/// `.` and `..` keep their full text wherever they stand.
pub proof fn lemma_dots_kept(path: Seq<ComponentView>, home: Option<Seq<ComponentView>>)
    ensures
        ({
            let f = formatted(path, home);
            let rem = remainder_of(path, home);
            &&& forall|k: int|
                0 <= k < rem.len() && rem[k] is Cur ==> (#[trigger] f[2 + 2 * k]).text == seq!['.']
            &&& forall|k: int|
                0 <= k < rem.len() && rem[k] is Parent ==> (#[trigger] f[2 + 2 * k]).text == seq![
                    '.',
                    '.',
                ]
        }),
{
    let f = formatted(path, home);
    let rem = remainder_of(path, home);
    assert forall|k: int| 0 <= k < rem.len() && rem[k] is Cur implies (#[trigger] f[2 + 2
        * k]).text == seq!['.'] by {
        assert((2 * k + 1) % 2 == 1);
        assert((2 * k + 1) / 2 == k);
    }
    assert forall|k: int| 0 <= k < rem.len() && rem[k] is Parent implies (#[trigger] f[2 + 2
        * k]).text == seq!['.', '.'] by {
        assert((2 * k + 1) % 2 == 1);
        assert((2 * k + 1) / 2 == k);
    }
}

/// The same path and home always give the same segments, and so the same
/// plain and styled text.
pub proof fn lemma_deterministic(
    path1: Seq<ComponentView>,
    home1: Option<Seq<ComponentView>>,
    path2: Seq<ComponentView>,
    home2: Option<Seq<ComponentView>>,
)
    requires
        path1 == path2,
        home1 == home2,
    ensures
        formatted(path1, home1) == formatted(path2, home2),
        plain_text_of(formatted(path1, home1)) == plain_text_of(formatted(path2, home2)),
        styled_text_of(formatted(path1, home1)) == styled_text_of(formatted(path2, home2)),
{
}

} // verus!
