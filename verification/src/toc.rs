use vstd::prelude::*;
use vstd::string::*;

use crate::escape::{escape_text, replace_escaped_characters};
use crate::heading::{generate_header_ids, heading_views, level_int, with_assigned_id, Heading,
    HeadingView};

verus! {

/// One entry of the table of contents: the escaped heading text, the
/// archive-relative target of the heading's anchor, the heading level it
/// came from, and the entries nested under it.
pub struct TocNode {
    pub level: u8,
    pub url: String,
    pub title: String,
    pub children: Vec<TocNode>,
}

/// The mathematical image of a table-of-contents entry.
pub ghost struct TocView {
    pub level: int,
    pub url: Seq<char>,
    pub title: Seq<char>,
    pub children: Seq<TocView>,
}

pub open spec fn toc_view(n: TocNode) -> TocView
    decreases n,
{
    TocView {
        level: n.level as int,
        url: n.url@,
        title: n.title@,
        children: Seq::new(
            n.children@.len(),
            |i: int|
                if 0 <= i < n.children@.len() {
                    toc_view(n.children@[i])
                } else {
                    arbitrary()
                },
        ),
    }
}

impl View for TocNode {
    type V = TocView;

    open spec fn view(&self) -> TocView {
        toc_view(*self)
    }
}

pub open spec fn forest_views(s: Seq<TocNode>) -> Seq<TocView> {
    Seq::new(
        s.len(),
        |i: int|
            if 0 <= i < s.len() {
                toc_view(s[i])
            } else {
                arbitrary()
            },
    )
}

/// Attaches a new entry under a node: while the node's last child sits at a
/// level below the new entry's, the new entry descends into that child;
/// otherwise it becomes the node's next child.
pub open spec fn spec_attach(node: TocView, new: TocView) -> TocView
    decreases node,
{
    if node.children.len() > 0 && node.children[node.children.len() - 1].level < new.level {
        TocView {
            level: node.level,
            url: node.url,
            title: node.title,
            children: node.children.update(
                node.children.len() - 1,
                spec_attach(node.children[node.children.len() - 1], new),
            ),
        }
    } else {
        TocView {
            level: node.level,
            url: node.url,
            title: node.title,
            children: node.children.push(new),
        }
    }
}

/// The entry built for one heading: its escaped text, and a target of the
/// form content-url '#' anchor-id.
pub open spec fn spec_toc_node(h: HeadingView, content_url: Seq<char>) -> TocView {
    TocView {
        level: level_int(h.level),
        url: content_url + seq!['#'] + h.id->0,
        title: escape_text(h.text),
        children: Seq::empty(),
    }
}

/// The builder's running state: the forest built so far and the level of the
/// most recently appended root, unset before the first heading.
pub ghost struct TocState {
    pub forest: Seq<TocView>,
    pub last_level: Option<int>,
}

/// One step of the builder. A heading at a level no deeper than the last
/// root level starts a new root and resets that memory; a deeper one is
/// attached inside the most recent root, and the remembered level is left
/// as it was.
pub open spec fn spec_toc_step(st: TocState, node: TocView) -> TocState {
    if st.last_level is Some && node.level > st.last_level->0 && st.forest.len() > 0 {
        TocState {
            forest: st.forest.update(
                st.forest.len() - 1,
                spec_attach(st.forest[st.forest.len() - 1], node),
            ),
            last_level: st.last_level,
        }
    } else {
        TocState { forest: st.forest.push(node), last_level: Some(node.level) }
    }
}

pub open spec fn spec_build_toc_from(
    headings: Seq<HeadingView>,
    content_url: Seq<char>,
    st: TocState,
) -> Seq<TocView>
    decreases headings.len(),
{
    if headings.len() == 0 {
        st.forest
    } else {
        spec_build_toc_from(
            headings.drop_first(),
            content_url,
            spec_toc_step(st, spec_toc_node(headings[0], content_url)),
        )
    }
}

/// The forest of table-of-contents entries built from a document's headings
/// in document order.
pub open spec fn spec_build_toc(headings: Seq<HeadingView>, content_url: Seq<char>) -> Seq<
    TocView,
> {
    spec_build_toc_from(
        headings,
        content_url,
        TocState { forest: Seq::empty(), last_level: None },
    )
}

/// A well-nested entry: every child sits at a level strictly deeper than
/// its parent's, all the way down.
pub open spec fn toc_wf(n: TocView) -> bool
    decreases n,
{
    forall|i: int|
        0 <= i < n.children.len() ==> (#[trigger] n.children[i]).level > n.level && toc_wf(
            n.children[i],
        )
}

proof fn lemma_attach_wf(node: TocView, new: TocView)
    requires
        toc_wf(node),
        toc_wf(new),
        new.level > node.level,
    ensures
        toc_wf(spec_attach(node, new)),
        spec_attach(node, new).level == node.level,
    decreases node,
{
    let r = spec_attach(node, new);
    if node.children.len() > 0 && node.children[node.children.len() - 1].level < new.level {
        let last = node.children[node.children.len() - 1];
        lemma_attach_wf(last, new);
        assert forall|i: int| 0 <= i < r.children.len() implies (#[trigger] r.children[i]).level
            > r.level && toc_wf(r.children[i]) by {
            if i < node.children.len() - 1 {
                assert(r.children[i] == node.children[i]);
            } else {
                assert(r.children[i] == spec_attach(last, new));
            }
        }
    } else {
        assert forall|i: int| 0 <= i < r.children.len() implies (#[trigger] r.children[i]).level
            > r.level && toc_wf(r.children[i]) by {
            if i < node.children.len() {
                assert(r.children[i] == node.children[i]);
            } else {
                assert(r.children[i] == new);
            }
        }
    }
}

proof fn lemma_build_toc_from_wf(headings: Seq<HeadingView>, content_url: Seq<char>, st: TocState)
    requires
        forall|i: int| 0 <= i < st.forest.len() ==> toc_wf(#[trigger] st.forest[i]),
        st.last_level is Some ==> st.forest.len() > 0 && st.forest[st.forest.len() - 1].level
            == st.last_level->0,
    ensures
        forall|i: int|
            0 <= i < spec_build_toc_from(headings, content_url, st).len() ==> toc_wf(
                #[trigger] spec_build_toc_from(headings, content_url, st)[i],
            ),
    decreases headings.len(),
{
    if headings.len() > 0 {
        let node = spec_toc_node(headings[0], content_url);
        assert(toc_wf(node));
        let st2 = spec_toc_step(st, node);
        if st.last_level is Some && node.level > st.last_level->0 && st.forest.len() > 0 {
            let last = st.forest[st.forest.len() - 1];
            lemma_attach_wf(last, node);
            assert forall|i: int| 0 <= i < st2.forest.len() implies toc_wf(
                #[trigger] st2.forest[i],
            ) by {
                if i < st.forest.len() - 1 {
                    assert(st2.forest[i] == st.forest[i]);
                } else {
                    assert(st2.forest[i] == spec_attach(last, node));
                }
            }
            assert(st2.forest[st2.forest.len() - 1].level == last.level);
        } else {
            assert forall|i: int| 0 <= i < st2.forest.len() implies toc_wf(
                #[trigger] st2.forest[i],
            ) by {
                if i < st.forest.len() {
                    assert(st2.forest[i] == st.forest[i]);
                } else {
                    assert(st2.forest[i] == node);
                }
            }
        }
        lemma_build_toc_from_wf(headings.drop_first(), content_url, st2);
        assert(spec_build_toc_from(headings, content_url, st) == spec_build_toc_from(
            headings.drop_first(),
            content_url,
            st2,
        ));
    }
}

/// Every root of the built forest is well nested: entries only ever attach
/// under entries of a strictly shallower level, so a node's children all
/// carry levels greater than its own.
pub proof fn lemma_build_toc_wf(headings: Seq<HeadingView>, content_url: Seq<char>)
    ensures
        forall|i: int|
            0 <= i < spec_build_toc(headings, content_url).len() ==> toc_wf(
                #[trigger] spec_build_toc(headings, content_url)[i],
            ),
{
    lemma_build_toc_from_wf(
        headings,
        content_url,
        TocState { forest: Seq::empty(), last_level: None },
    );
}

proof fn lemma_toc_view_children(n: TocNode)
    ensures
        toc_view(n).children == forest_views(n.children@),
{
    assert(toc_view(n).children =~= forest_views(n.children@));
}

proof fn lemma_forest_views_push(s: Seq<TocNode>, x: TocNode)
    ensures
        forest_views(s.push(x)) == forest_views(s).push(x@),
{
    assert forall|i: int| 0 <= i < s.len() + 1 implies forest_views(s.push(x))[i] == forest_views(
        s,
    ).push(x@)[i] by {
        if i < s.len() {
            assert(s.push(x)[i] == s[i]);
        } else {
            assert(s.push(x)[i] == x);
        }
    }
    assert(forest_views(s.push(x)) =~= forest_views(s).push(x@));
}

proof fn lemma_forest_views_replace_last(s: Seq<TocNode>, x: TocNode)
    requires
        s.len() > 0,
    ensures
        forest_views(s.drop_last().push(x)) == forest_views(s).update(s.len() - 1, x@),
{
    let t = s.drop_last().push(x);
    assert forall|i: int| 0 <= i < s.len() implies forest_views(t)[i] == forest_views(s).update(
        s.len() - 1,
        x@,
    )[i] by {
        if i < s.len() - 1 {
            assert(t[i] == s[i]);
        } else {
            assert(t[i] == x);
        }
    }
    assert(forest_views(t) =~= forest_views(s).update(s.len() - 1, x@));
}

fn attach_node(node: TocNode, new: TocNode) -> (r: TocNode)
    ensures
        r@ == spec_attach(node@, new@),
    decreases node,
{
    let mut res = node;
    let n = res.children.len();
    if n > 0 && res.children[n - 1].level < new.level {
        let last = res.children.pop().unwrap();
        let attached = attach_node(last, new);
        res.children.push(attached);
        proof {
            lemma_toc_view_children(node);
            lemma_toc_view_children(res);
            assert(last == node.children@[n - 1]);
            assert(node@.children[n - 1 as int] == toc_view(node.children@[n - 1]));
            assert(res.children@ == node.children@.drop_last().push(attached));
            lemma_forest_views_replace_last(node.children@, attached);
            assert(res@.children == spec_attach(node@, new@).children);
            assert(res@ == spec_attach(node@, new@));
        }
        res
    } else {
        res.children.push(new);
        proof {
            lemma_toc_view_children(node);
            lemma_toc_view_children(res);
            assert(res.children@ == node.children@.push(new));
            lemma_forest_views_push(node.children@, new);
            assert(res@.children == spec_attach(node@, new@).children);
            assert(res@ == spec_attach(node@, new@));
        }
        res
    }
}

fn make_target(content_url: &str, id: &str) -> (r: String)
    ensures
        r@ == content_url@ + seq!['#'] + id@,
{
    let mut r = String::from_str(content_url);
    r.push('#');
    r.append(id);
    proof {
        assert(r@ =~= content_url@ + seq!['#'] + id@);
    }
    r
}

/// Assigns anchor ids to the headings that lack one, then builds the
/// table-of-contents forest for them, every entry's target referring into
/// the content item at `content_url`. A document with no headings yields an
/// empty forest, and only such a document does.
pub fn get_header_level_toc_vec(content_url: &str, headings: &mut Vec<Heading>) -> (r: Vec<
    TocNode,
>)
    ensures
        final(headings)@.len() == old(headings)@.len(),
        forall|i: int|
            0 <= i < final(headings)@.len() ==> (#[trigger] final(headings)@[i])@
                == with_assigned_id(old(headings)@[i]@),
        forest_views(r@) == spec_build_toc(heading_views(final(headings)@), content_url@),
        (r@.len() == 0 <==> old(headings)@.len() == 0),
{
    generate_header_ids(headings);
    let ghost hsnap: Seq<Heading> = headings@;
    let ghost assigned: Seq<HeadingView> = heading_views(headings@);
    let n = headings.len();
    let mut forest: Vec<TocNode> = Vec::new();
    let mut last_level: Option<u8> = None;
    let mut i: usize = 0;
    proof {
        assert(forest_views(forest@) =~= Seq::<TocView>::empty());
        assert(assigned.skip(0) =~= assigned);
    }
    while i < n
        invariant
            headings@ == hsnap,
            assigned == heading_views(headings@),
            n == headings@.len(),
            i <= n,
            forall|k: int| 0 <= k < n ==> (#[trigger] assigned[k]).id is Some,
            last_level is Some <==> i > 0,
            last_level is Some ==> forest@.len() > 0,
            i == 0 ==> forest@.len() == 0,
            spec_build_toc_from(
                assigned.skip(i as int),
                content_url@,
                TocState {
                    forest: forest_views(forest@),
                    last_level: match last_level {
                        Some(l) => Some(l as int),
                        None => None,
                    },
                },
            ) == spec_build_toc(assigned, content_url@),
        decreases n - i,
    {
        let ghost st = TocState {
            forest: forest_views(forest@),
            last_level: match last_level {
                Some(l) => Some(l as int),
                None => None,
            },
        };
        let ghost f0 = forest@;
        let id = match &headings[i].id {
            Some(s) => s.clone(),
            None => String::new(),
        };
        let node = TocNode {
            level: headings[i].level.level_num(),
            url: make_target(content_url, id.as_str()),
            title: replace_escaped_characters(headings[i].text.as_str()),
            children: Vec::new(),
        };
        proof {
            assert(node@.children =~= spec_toc_node(assigned[i as int], content_url@).children);
            assert(node@ == spec_toc_node(assigned[i as int], content_url@));
        }
        let nest = match last_level {
            Some(l) => node.level > l,
            None => false,
        };
        if nest {
            let lastroot = forest.pop().unwrap();
            let attached = attach_node(lastroot, node);
            forest.push(attached);
            proof {
                assert(lastroot@ == st.forest[st.forest.len() - 1]);
                lemma_forest_views_replace_last(f0, attached);
                assert(forest@ == f0.drop_last().push(attached));
                assert(forest_views(forest@) == spec_toc_step(st, node@).forest);
            }
        } else {
            last_level = Some(node.level);
            forest.push(node);
            proof {
                lemma_forest_views_push(f0, node);
                assert(forest_views(forest@) == spec_toc_step(st, node@).forest);
            }
        }
        proof {
            let rest = assigned.skip(i as int);
            assert(rest[0] == assigned[i as int]);
            assert(rest.drop_first() =~= assigned.skip(i as int + 1));
            assert(spec_build_toc_from(rest, content_url@, st) == spec_build_toc_from(
                rest.drop_first(),
                content_url@,
                spec_toc_step(st, spec_toc_node(rest[0], content_url@)),
            ));
        }
        i = i + 1;
    }
    proof {
        assert(assigned.skip(n as int) =~= Seq::<HeadingView>::empty());
    }
    forest
}

} // verus!
