use vstd::prelude::*;
use vstd::string::*;

use crate::article::{article_ref_views, Article, ArticleView};
use crate::escape::{escape_text, replace_escaped_characters};

verus! {

/// The link line the appendix shows for one article: an anchor whose href
/// is the escaped URL and whose text is the escaped title, or the escaped
/// URL itself when the title is empty.
pub open spec fn appendix_link(a: ArticleView) -> Seq<char> {
    let name = if a.title.len() > 0 {
        a.title
    } else {
        a.url
    };
    "<a href=\""@ + escape_text(a.url) + "\">"@ + escape_text(name) + "</a><br></br>"@
}

pub open spec fn appendix_links(arts: Seq<ArticleView>) -> Seq<char>
    decreases arts.len(),
{
    if arts.len() == 0 {
        Seq::empty()
    } else {
        appendix_link(arts[0]) + appendix_links(arts.drop_first())
    }
}

/// The full appendix page: a fixed frame holding the headings "Appendix"
/// and "Article sources", and one link line per article, in order.
pub open spec fn appendix_spec(arts: Seq<ArticleView>) -> Seq<char> {
    "<html xmlns=\"http://www.w3.org/1999/xhtml\" xmlns:epub=\"http://www.idpf.org/2007/ops\">\n    <head>\n    </head>\n    <body>\n        <h2>Appendix</h2><h3>Article sources</h3>\n        "@
        + appendix_links(arts) + "\n    </body>\n</html>"@
}

proof fn lemma_appendix_links_snoc(arts: Seq<ArticleView>, a: ArticleView)
    ensures
        appendix_links(arts.push(a)) == appendix_links(arts) + appendix_link(a),
    decreases arts.len(),
{
    if arts.len() == 0 {
        assert(arts.push(a)[0] == a);
        assert(arts.push(a).drop_first() =~= Seq::<ArticleView>::empty());
        assert(appendix_links(arts.push(a)) == appendix_link(a) + appendix_links(
            Seq::<ArticleView>::empty(),
        ));
        assert(appendix_link(a) + Seq::<char>::empty() =~= appendix_link(a));
        assert(appendix_links(arts) + appendix_link(a) =~= appendix_link(a));
    } else {
        assert(arts.push(a)[0] == arts[0]);
        assert(arts.push(a).drop_first() =~= arts.drop_first().push(a));
        lemma_appendix_links_snoc(arts.drop_first(), a);
        assert(appendix_links(arts.push(a)) == appendix_link(arts[0]) + (appendix_links(
            arts.drop_first(),
        ) + appendix_link(a)));
        assert(appendix_link(arts[0]) + (appendix_links(arts.drop_first()) + appendix_link(a))
            =~= (appendix_link(arts[0]) + appendix_links(arts.drop_first())) + appendix_link(a));
    }
}

fn append_link(out: &mut String, article: &Article)
    ensures
        final(out)@ == old(out)@ + appendix_link(article@),
{
    out.append("<a href=\"");
    let escaped_url = replace_escaped_characters(article.url.as_str());
    out.append(escaped_url.as_str());
    out.append("\">");
    let name = if !article.title.as_str().is_empty() {
        replace_escaped_characters(article.title.as_str())
    } else {
        replace_escaped_characters(article.url.as_str())
    };
    out.append(name.as_str());
    out.append("</a><br></br>");
    proof {
        assert(final(out)@ =~= old(out)@ + appendix_link(article@));
    }
}

/// Builds the source-attribution page for the given articles: the fixed
/// "Appendix" / "Article sources" frame, then one escaped link back to each
/// article's original URL, in the order the articles were given.
pub fn generate_appendix(articles: Vec<&Article>) -> (r: String)
    ensures
        r@ == appendix_spec(article_ref_views(articles@)),
{
    let ghost views = article_ref_views(articles@);
    let mut r = String::from_str(
        "<html xmlns=\"http://www.w3.org/1999/xhtml\" xmlns:epub=\"http://www.idpf.org/2007/ops\">\n    <head>\n    </head>\n    <body>\n        <h2>Appendix</h2><h3>Article sources</h3>\n        ",
    );
    let ghost prefix = r@;
    let n = articles.len();
    let mut i: usize = 0;
    proof {
        assert(views.take(0) =~= Seq::<ArticleView>::empty());
        assert(prefix + appendix_links(views.take(0)) =~= prefix);
    }
    while i < n
        invariant
            n == articles@.len(),
            views == article_ref_views(articles@),
            i <= n,
            r@ == prefix + appendix_links(views.take(i as int)),
        decreases n - i,
    {
        append_link(&mut r, articles[i]);
        proof {
            assert(views.take(i + 1 as int) =~= views.take(i as int).push(views[i as int]));
            lemma_appendix_links_snoc(views.take(i as int), views[i as int]);
            assert((prefix + appendix_links(views.take(i as int))) + appendix_link(views[i as int])
                =~= prefix + appendix_links(views.take(i + 1 as int)));
        }
        i = i + 1;
    }
    r.append("\n    </body>\n</html>");
    proof {
        assert(views.take(n as int) =~= views);
        assert(r@ =~= appendix_spec(views));
    }
    r
}

} // verus!
