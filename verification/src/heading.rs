use vstd::prelude::*;

verus! {

/// The closed set of heading tags that take part in the table of contents.
#[derive(Clone, Copy, PartialEq, Eq, Structural, Debug)]
pub enum HeadingLevel {
    H1,
    H2,
    H3,
    H4,
}

/// The nesting depth that a heading tag stands for.
pub open spec fn level_int(l: HeadingLevel) -> int {
    match l {
        HeadingLevel::H1 => 1,
        HeadingLevel::H2 => 2,
        HeadingLevel::H3 => 3,
        HeadingLevel::H4 => 4,
    }
}

impl HeadingLevel {
    /// Maps a heading tag to its numeric depth, `h1` being the outermost.
    pub fn level_num(&self) -> (n: u8)
        ensures
            n as int == level_int(*self),
            1 <= n <= 4,
    {
        match self {
            HeadingLevel::H1 => 1,
            HeadingLevel::H2 => 2,
            HeadingLevel::H3 => 3,
            HeadingLevel::H4 => 4,
        }
    }
}

/// A heading element of an article's document tree: its tag, its full text
/// content, and its anchor id attribute, absent until one is assigned.
pub struct Heading {
    pub level: HeadingLevel,
    pub text: String,
    pub id: Option<String>,
}

/// The mathematical image of a heading.
pub ghost struct HeadingView {
    pub level: HeadingLevel,
    pub text: Seq<char>,
    pub id: Option<Seq<char>>,
}

impl View for Heading {
    type V = HeadingView;

    open spec fn view(&self) -> HeadingView {
        HeadingView {
            level: self.level,
            text: self.text@,
            id: if self.id is Some {
                Some(self.id->0@)
            } else {
                None
            },
        }
    }
}

/// The images of a sequence of headings.
pub open spec fn heading_views(s: Seq<Heading>) -> Seq<HeadingView> {
    s.map_values(|h: Heading| h@)
}

/// The lowercase hexadecimal digest that the MD5 hash assigns to a text.
/// The digest is a function of the text alone.
pub uninterp spec fn md5_hex_of(text: Seq<char>) -> Seq<char>;

/// Relies on md5::compute and the LowerHex rendering of its digest: the
/// digest depends on the hashed bytes alone, so equal texts give equal
/// digests.
#[verifier::external_body]
fn md5_hex(text: &str) -> (r: String)
    ensures
        r@ == md5_hex_of(text@),
{
    format!("{:x}", md5::compute(text))
}

/// The anchor id assigned to a heading with the given text: the MD5 digest
/// prefixed with an underscore, since a digest may start with a digit, which
/// would make it invalid as an id to query by selector.
pub open spec fn anchor_id_of(text: Seq<char>) -> Seq<char> {
    seq!['_'] + md5_hex_of(text)
}

/// A heading after anchor assignment: one that already carried an id keeps
/// it, one without gets the id derived from its text.
pub open spec fn with_assigned_id(h: HeadingView) -> HeadingView {
    if h.id is Some {
        h
    } else {
        HeadingView { id: Some(anchor_id_of(h.text)), ..h }
    }
}

/// Builds the anchor id for a heading text.
fn make_anchor_id(text: &str) -> (r: String)
    ensures
        r@ == anchor_id_of(text@),
{
    let mut r = String::new();
    r.push('_');
    let digest = md5_hex(text);
    r.append(digest.as_str());
    proof {
        assert(r@ =~= anchor_id_of(text@));
    }
    r
}

/// Assigns an anchor id to every heading that lacks one; headings that
/// already carry an id are left untouched. The id is derived from the
/// heading's text alone, so the assignment is deterministic and idempotent.
/// Two headings with identical text receive identical ids; that collision is
/// a known limitation, kept as is.
pub fn generate_header_ids(headings: &mut Vec<Heading>)
    ensures
        final(headings)@.len() == old(headings)@.len(),
        forall|i: int|
            0 <= i < final(headings)@.len() ==> (#[trigger] final(headings)@[i])@
                == with_assigned_id(old(headings)@[i]@),
{
    let n = headings.len();
    let mut i: usize = 0;
    while i < n
        invariant
            n == headings@.len(),
            headings@.len() == old(headings)@.len(),
            i <= n,
            forall|k: int|
                0 <= k < i ==> (#[trigger] headings@[k])@ == with_assigned_id(old(headings)@[k]@),
            forall|k: int| i <= k < n ==> #[trigger] headings@[k] == old(headings)@[k],
        decreases n - i,
    {
        if headings[i].id.is_none() {
            let text = headings[i].text.clone();
            let level = headings[i].level;
            let id = make_anchor_id(text.as_str());
            headings.set(i, Heading { level, text, id: Some(id) });
        }
        i = i + 1;
    }
}

/// Assigning anchor ids twice changes nothing beyond the first assignment:
/// a heading tagged by the first pass is left untouched by the second.
pub proof fn lemma_assignment_idempotent(h: HeadingView)
    ensures
        with_assigned_id(with_assigned_id(h)) == with_assigned_id(h),
{
}

/// Two headings with identical text are assigned identical anchor ids: the
/// id is a function of the text alone.
pub proof fn lemma_identical_text_identical_ids(a: HeadingView, b: HeadingView)
    requires
        a.id is None,
        b.id is None,
        a.text == b.text,
    ensures
        with_assigned_id(a).id == with_assigned_id(b).id,
{
}

} // verus!
