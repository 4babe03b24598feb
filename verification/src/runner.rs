use vstd::prelude::*;
use vstd::string::*;

use crate::appendix::generate_appendix;
use crate::article::{image_present, Article, DocumentBody};
use crate::decimal::usize_to_string;
use crate::epub::{builder_add_content, builder_add_resource, builder_generate, builder_inline_toc,
    builder_metadata, container_new, to_toc_element, toc_element_child, toc_element_new,
    zip_library_new, Container};
use crate::errors::{error_views, has_error, ErrorKind, ErrorRecord};
use crate::escape::replace_escaped_characters;
use crate::heading::Heading;
use crate::toc::get_header_level_toc_vec;

verus! {

/// The configuration the run takes from the CLI collaborator: the merged
/// archive name, whose presence selects merged mode, and the flag that
/// suppresses interactive progress output.
pub struct AppConfig {
    pub merged: Option<String>,
    pub can_disable_progress_bar: bool,
}

impl AppConfig {
    /// The merged archive name; its presence selects merged mode.
    pub fn merged(&self) -> (r: &Option<String>)
        ensures
            *r == self.merged,
    {
        &self.merged
    }

    /// Whether interactive progress output is suppressed.
    pub fn can_disable_progress_bar(&self) -> (r: bool)
        ensures
            r == self.can_disable_progress_bar,
    {
        self.can_disable_progress_bar
    }
}

/// One generated archive: its output file name and its bytes.
pub struct OutputFile {
    pub name: String,
    pub bytes: Vec<u8>,
}

/// What a run produced: the archives to be written out, the titles of the
/// articles that were archived, and every recorded failure.
pub struct RunReport {
    pub outputs: Vec<OutputFile>,
    pub successes: Vec<String>,
    pub errors: Vec<ErrorRecord>,
}

impl RunReport {
    /// The run counts as successful exactly when its error list is empty.
    pub fn is_success(&self) -> (r: bool)
        ensures
            r == (self.errors@.len() == 0),
    {
        self.errors.len() == 0
    }
}

pub open spec fn sanitize_char(c: char) -> char {
    if c == '/' || c == '\\' {
        ' '
    } else {
        c
    }
}

/// The output name of a standalone archive: the article title with path
/// separators replaced by spaces, then the epub suffix.
pub open spec fn spec_output_name(title: Seq<char>) -> Seq<char> {
    title.map_values(|c: char| sanitize_char(c)) + ".epub"@
}

/// The batch holds an article with this URL.
pub open spec fn is_article_url(arts: Seq<Article>, s: Seq<char>) -> bool {
    exists|i: int| 0 <= i < arts.len() && (#[trigger] arts[i])@.url == s
}

/// The batch holds an article with this title.
pub open spec fn is_article_title(arts: Seq<Article>, s: Seq<char>) -> bool {
    exists|i: int| 0 <= i < arts.len() && (#[trigger] arts[i])@.title == s
}

/// The name is the output name of some article of the batch.
pub open spec fn is_output_name(arts: Seq<Article>, s: Seq<char>) -> bool {
    exists|i: int| 0 <= i < arts.len() && s == spec_output_name((#[trigger] arts[i])@.title)
}

fn output_file_name(title: &str) -> (r: String)
    ensures
        r@ == spec_output_name(title@),
{
    let n = title.unicode_len();
    let mut r = String::new();
    let mut i: usize = 0;
    proof {
        assert(r@ =~= title@.map_values(|c: char| sanitize_char(c)).take(0));
    }
    while i < n
        invariant
            n == title@.len(),
            i <= n,
            r@ == title@.map_values(|c: char| sanitize_char(c)).take(i as int),
        decreases n - i,
    {
        let c = title.get_char(i);
        if c == '/' || c == '\\' {
            r.push(' ');
        } else {
            r.push(c);
        }
        proof {
            let m = title@.map_values(|c: char| sanitize_char(c));
            assert(m[i as int] == sanitize_char(title@[i as int]));
            assert(m.take(i + 1 as int) =~= m.take(i as int).push(m[i as int]));
        }
        i = i + 1;
    }
    proof {
        let m = title@.map_values(|c: char| sanitize_char(c));
        assert(m.take(n as int) =~= m);
    }
    r.append(".epub");
    r
}

fn clone_heading(h: &Heading) -> (r: Heading)
    ensures
        r == *h,
{
    Heading {
        level: h.level,
        text: h.text.clone(),
        id: match &h.id {
            Some(s) => Some(s.clone()),
            None => None,
        },
    }
}

fn clone_headings(hs: &Vec<Heading>) -> (r: Vec<Heading>)
    ensures
        r@ == hs@,
{
    let mut r: Vec<Heading> = Vec::new();
    let n = hs.len();
    let mut i: usize = 0;
    while i < n
        invariant
            n == hs@.len(),
            i <= n,
            r@ == hs@.take(i as int),
        decreases n - i,
    {
        r.push(clone_heading(&hs[i]));
        proof {
            assert(hs@.take(i + 1 as int) =~= hs@.take(i as int).push(hs@[i as int]));
        }
        i = i + 1;
    }
    proof {
        assert(hs@.take(n as int) =~= hs@);
    }
    r
}

/// Builds the navigation element of one content page: the page entry
/// itself, with the table-of-contents forest of the page's headings
/// attached under it.
fn build_page_element(content_url: &str, title_escaped: &str, article: &Article) -> (r:
    epub_builder::TocElement)
{
    let mut hs = clone_headings(&article.headings);
    let toc_nodes = get_header_level_toc_vec(content_url, &mut hs);
    let mut page = toc_element_new(content_url, title_escaped);
    let n = toc_nodes.len();
    let mut t: usize = 0;
    while t < n
        invariant
            n == toc_nodes@.len(),
            t <= n,
        decreases n - t,
    {
        let child = to_toc_element(&toc_nodes[t]);
        page = toc_element_child(page, child);
        t = t + 1;
    }
    page
}

/// Adds an article's images to the container. Every image must have been
/// checked present beforehand; a container failure while a resource is
/// stored is reported as a serialization failure of this article.
fn add_images(c: &mut Container, article: &Article) -> (r: Result<(), ErrorKind>)
    requires
        forall|j: int|
            0 <= j < article@.images.len() ==> image_present(#[trigger] article@.images[j]),
    ensures
        r is Err ==> r->Err_0 == ErrorKind::ContentSerialization,
{
    let n = article.images.len();
    let mut m: usize = 0;
    while m < n
        invariant
            n == article.images@.len(),
            m <= n,
            forall|j: int|
                0 <= j < article@.images.len() ==> image_present(#[trigger] article@.images[j]),
        decreases n - m,
    {
        proof {
            assert(image_present(article@.images[m as int]));
            assert(article@.images[m as int] == article.images@[m as int]@);
        }
        match (&article.images[m].bytes, &article.images[m].mime) {
            (Some(data), Some(mime)) => {
                match builder_add_resource(
                    c,
                    article.images[m].filename.as_str(),
                    data.as_slice(),
                    mime.as_str(),
                ) {
                    Ok(_) => {},
                    Err(_) => {
                        return Err(ErrorKind::ContentSerialization);
                    },
                }
            },
            _ => {
                return Err(ErrorKind::ContentSerialization);
            },
        }
        m = m + 1;
    }
    Ok(())
}

/// Assembles one standalone archive for one article.
///
/// The document body and the image store are inspected before the container
/// is opened, so a failed serialization is always reported as a
/// serialization failure and an absent image always as a missing image,
/// whatever the container itself would have done.
pub fn assemble_standalone_one(article: &Article) -> (r: Result<OutputFile, ErrorRecord>)
    ensures
        r is Err ==> r->Err_0@.source == article@.url,
        article@.body is None ==> r is Err && r->Err_0@.kind == ErrorKind::ContentSerialization,
        r is Ok ==> article@.body is Some && r->Ok_0.name@ == spec_output_name(article@.title),
        r is Err && r->Err_0@.kind == ErrorKind::MissingImageResource ==> exists|k: int|
            0 <= k < article@.images.len() && !image_present(#[trigger] article@.images[k]),
        article@.body is Some && (exists|k: int|
            0 <= k < article@.images.len() && !image_present(#[trigger] article@.images[k]))
            ==> r is Err && r->Err_0@.kind == ErrorKind::MissingImageResource,
{
    let body: &Vec<u8> = match &article.body {
        DocumentBody::Rendered(b) => b,
        DocumentBody::RenderFailed => {
            return Err(
                ErrorRecord {
                    source: article.url.clone(),
                    kind: ErrorKind::ContentSerialization,
                },
            );
        },
    };
    proof {
        assert(article.body is Rendered);
        assert(article@.body is Some);
    }
    let n_img = article.images.len();
    let mut k: usize = 0;
    while k < n_img
        invariant
            article@.body is Some,
            n_img == article.images@.len(),
            k <= n_img,
            forall|j: int| 0 <= j < k ==> image_present(#[trigger] article@.images[j]),
        decreases n_img - k,
    {
        proof {
            assert(article@.images[k as int] == article.images@[k as int]@);
        }
        if article.images[k].mime.is_none() || article.images[k].bytes.is_none() {
            return Err(
                ErrorRecord {
                    source: article.url.clone(),
                    kind: ErrorKind::MissingImageResource,
                },
            );
        }
        k = k + 1;
    }
    let zip = match zip_library_new() {
        Ok(z) => z,
        Err(_) => {
            return Err(ErrorRecord { source: article.url.clone(), kind: ErrorKind::ContainerInit });
        },
    };
    let mut c = match container_new(zip) {
        Ok(c) => c,
        Err(_) => {
            return Err(ErrorRecord { source: article.url.clone(), kind: ErrorKind::ContainerInit });
        },
    };
    let file_name = output_file_name(article.title.as_str());
    if let Some(author) = &article.byline {
        let escaped_author = replace_escaped_characters(author.as_str());
        match builder_metadata(&mut c, "author", escaped_author.as_str()) {
            Ok(_) => {},
            Err(_) => {
                return Err(ErrorRecord { source: article.url.clone(), kind: ErrorKind::Metadata });
            },
        }
    }
    let title_escaped = replace_escaped_characters(article.title.as_str());
    match builder_metadata(&mut c, "title", title_escaped.as_str()) {
        Ok(_) => {},
        Err(_) => {
            return Err(ErrorRecord { source: article.url.clone(), kind: ErrorKind::Metadata });
        },
    }
    let page = build_page_element("index.xhtml", title_escaped.as_str(), article);
    match builder_add_content(&mut c, page, body.as_slice()) {
        Ok(_) => {},
        Err(_) => {
            return Err(ErrorRecord { source: article.url.clone(), kind: ErrorKind::Finalize });
        },
    }
    match add_images(&mut c, article) {
        Ok(_) => {},
        Err(_) => {
            return Err(ErrorRecord { source: article.url.clone(), kind: ErrorKind::Finalize });
        },
    }
    let appendix = generate_appendix(vec![article]);
    let apx_title = replace_escaped_characters("Article Source");
    let apx_page = toc_element_new("appendix.xhtml", apx_title.as_str());
    match builder_add_content(&mut c, apx_page, appendix.as_str().as_bytes()) {
        Ok(_) => {},
        Err(_) => {
            return Err(ErrorRecord { source: article.url.clone(), kind: ErrorKind::Finalize });
        },
    }
    let bytes = match builder_generate(&mut c) {
        Ok(b) => b,
        Err(_) => {
            return Err(ErrorRecord { source: article.url.clone(), kind: ErrorKind::Finalize });
        },
    };
    Ok(OutputFile { name: file_name, bytes })
}

/// Standalone mode: one archive per article, and each failure isolated to
/// its article. A failure is recorded against the article's URL and the
/// loop goes on; the other archives are unaffected.
pub fn run_standalone(articles: &Vec<Article>) -> (r: RunReport)
    ensures
        r.outputs@.len() == r.successes@.len(),
        r.successes@.len() + r.errors@.len() == articles@.len(),
        forall|j: int|
            0 <= j < r.errors@.len() ==> is_article_url(
                articles@,
                (#[trigger] r.errors@[j])@.source,
            ),
        forall|j: int|
            0 <= j < r.successes@.len() ==> is_article_title(
                articles@,
                (#[trigger] r.successes@[j])@,
            ),
        forall|j: int|
            0 <= j < r.outputs@.len() ==> is_output_name(articles@, (#[trigger] r.outputs@[j]).name@),
        forall|k: int|
            0 <= k < articles@.len() && (#[trigger] articles@[k])@.body is None ==> has_error(
                error_views(r.errors@),
                articles@[k]@.url,
                ErrorKind::ContentSerialization,
            ),
{
    let mut outputs: Vec<OutputFile> = Vec::new();
    let mut successes: Vec<String> = Vec::new();
    let mut errors: Vec<ErrorRecord> = Vec::new();
    let n = articles.len();
    let mut i: usize = 0;
    while i < n
        invariant
            n == articles@.len(),
            i <= n,
            outputs@.len() == successes@.len(),
            successes@.len() + errors@.len() == i,
            forall|j: int|
                0 <= j < errors@.len() ==> is_article_url(
                    articles@,
                    (#[trigger] errors@[j])@.source,
                ),
            forall|j: int|
                0 <= j < successes@.len() ==> is_article_title(
                    articles@,
                    (#[trigger] successes@[j])@,
                ),
            forall|j: int|
                0 <= j < outputs@.len() ==> is_output_name(
                    articles@,
                    (#[trigger] outputs@[j]).name@,
                ),
            forall|k: int|
                0 <= k < i && (#[trigger] articles@[k])@.body is None ==> has_error(
                    error_views(errors@),
                    articles@[k]@.url,
                    ErrorKind::ContentSerialization,
                ),
        decreases n - i,
    {
        match assemble_standalone_one(&articles[i]) {
            Ok(out) => {
                proof {
                    assert(is_output_name(articles@, out.name@));
                    assert(is_article_title(articles@, articles@[i as int]@.title));
                }
                outputs.push(out);
                successes.push(articles[i].title.clone());
            },
            Err(e) => {
                let ghost olde = errors@;
                proof {
                    assert(is_article_url(articles@, e@.source));
                }
                errors.push(e);
                proof {
                    assert(error_views(errors@) =~= error_views(olde).push(e@));
                    assert forall|s: Seq<char>, kd: ErrorKind|
                        has_error(error_views(olde), s, kd) implies has_error(
                        error_views(errors@),
                        s,
                        kd,
                    ) by {
                        let j = choose|j: int|
                            0 <= j < error_views(olde).len() && error_views(olde)[j].source == s
                                && error_views(olde)[j].kind == kd;
                        assert(error_views(errors@)[j].source == s);
                    }
                    if articles@[i as int]@.body is None {
                        assert(error_views(errors@)[olde.len() as int] == e@);
                        assert(has_error(
                            error_views(errors@),
                            articles@[i as int]@.url,
                            ErrorKind::ContentSerialization,
                        ));
                    }
                }
            },
        }
        i = i + 1;
    }
    RunReport { outputs, successes, errors }
}

/// Adds one article to the shared merged container: the archive title, the
/// article's content item named by its index, the article's navigation
/// subtree, and its images. The body and the image store are inspected
/// first, so a failed serialization is always reported as such and an
/// absent image as missing.
fn add_article_merged(c: &mut Container, article: &Article, idx: usize, name: &str) -> (r: Result<
    (),
    ErrorRecord,
>)
    ensures
        r is Err ==> r->Err_0@.source == article@.url,
        article@.body is None ==> r is Err && r->Err_0@.kind == ErrorKind::ContentSerialization,
        r is Err && r->Err_0@.kind == ErrorKind::MissingImageResource ==> exists|k: int|
            0 <= k < article@.images.len() && !image_present(#[trigger] article@.images[k]),
{
    let body: &Vec<u8> = match &article.body {
        DocumentBody::Rendered(b) => b,
        DocumentBody::RenderFailed => {
            return Err(
                ErrorRecord {
                    source: article.url.clone(),
                    kind: ErrorKind::ContentSerialization,
                },
            );
        },
    };
    proof {
        assert(article@.body is Some);
    }
    let n_img = article.images.len();
    let mut k: usize = 0;
    while k < n_img
        invariant
            article@.body is Some,
            n_img == article.images@.len(),
            k <= n_img,
            forall|j: int| 0 <= j < k ==> image_present(#[trigger] article@.images[j]),
        decreases n_img - k,
    {
        proof {
            assert(article@.images[k as int] == article.images@[k as int]@);
        }
        if article.images[k].mime.is_none() || article.images[k].bytes.is_none() {
            return Err(
                ErrorRecord {
                    source: article.url.clone(),
                    kind: ErrorKind::MissingImageResource,
                },
            );
        }
        k = k + 1;
    }
    let escaped_name = replace_escaped_characters(name);
    match builder_metadata(c, "title", escaped_name.as_str()) {
        Ok(_) => {},
        Err(_) => {
            return Err(ErrorRecord { source: article.url.clone(), kind: ErrorKind::Metadata });
        },
    }
    let mut content_url = String::from_str("article_");
    let idx_str = usize_to_string(idx);
    content_url.append(idx_str.as_str());
    content_url.append(".xhtml");
    let title_escaped = replace_escaped_characters(article.title.as_str());
    let page = build_page_element(content_url.as_str(), title_escaped.as_str(), article);
    match builder_add_content(c, page, body.as_slice()) {
        Ok(_) => {},
        Err(_) => {
            return Err(
                ErrorRecord {
                    source: article.url.clone(),
                    kind: ErrorKind::ContentSerialization,
                },
            );
        },
    }
    match add_images(c, article) {
        Ok(_) => {},
        Err(kind) => {
            return Err(ErrorRecord { source: article.url.clone(), kind });
        },
    }
    Ok(())
}

/// Merged mode, given the outcome of opening the shared container.
///
/// Without a container nothing can be produced: the run ends at once with
/// the one recorded failure, a container-init error tagged with the merged
/// archive's name, and no output and no success. With a container, each
/// article's failure is recorded against its URL and the remaining
/// articles still go in; a failure while the appendix is added or while
/// the archive is written out is fatal for the whole job and recorded
/// against the archive's name.
pub fn run_merged_with(container: Option<Container>, articles: &Vec<Article>, name: &str) -> (r:
    RunReport)
    ensures
        container is None ==> r.outputs@.len() == 0 && r.successes@.len() == 0 && r.errors@.len()
            == 1 && r.errors@[0]@.source == name@ && r.errors@[0]@.kind == ErrorKind::ContainerInit,
        r.outputs@.len() <= 1,
        forall|j: int| 0 <= j < r.outputs@.len() ==> (#[trigger] r.outputs@[j]).name@ == name@,
        forall|j: int|
            0 <= j < r.errors@.len() ==> ((#[trigger] r.errors@[j])@.source == name@
                || is_article_url(articles@, r.errors@[j]@.source)),
        forall|j: int|
            0 <= j < r.successes@.len() ==> is_article_title(
                articles@,
                (#[trigger] r.successes@[j])@,
            ),
        container is Some ==> forall|k: int|
            0 <= k < articles@.len() && (#[trigger] articles@[k])@.body is None ==> has_error(
                error_views(r.errors@),
                articles@[k]@.url,
                ErrorKind::ContentSerialization,
            ),
        container is Some ==> articles@.len() <= r.successes@.len() + r.errors@.len()
            <= articles@.len() + 1,
{
    let mut outputs: Vec<OutputFile> = Vec::new();
    let mut successes: Vec<String> = Vec::new();
    let mut errors: Vec<ErrorRecord> = Vec::new();
    let mut c = match container {
        Some(c) => c,
        None => {
            errors.push(
                ErrorRecord { source: String::from_str(name), kind: ErrorKind::ContainerInit },
            );
            return RunReport { outputs, successes, errors };
        },
    };
    builder_inline_toc(&mut c);
    let n = articles.len();
    let mut i: usize = 0;
    while i < n
        invariant
            n == articles@.len(),
            i <= n,
            outputs@.len() == 0,
            successes@.len() + errors@.len() == i,
            forall|j: int|
                0 <= j < errors@.len() ==> is_article_url(
                    articles@,
                    (#[trigger] errors@[j])@.source,
                ),
            forall|j: int|
                0 <= j < successes@.len() ==> is_article_title(
                    articles@,
                    (#[trigger] successes@[j])@,
                ),
            forall|k: int|
                0 <= k < i && (#[trigger] articles@[k])@.body is None ==> has_error(
                    error_views(errors@),
                    articles@[k]@.url,
                    ErrorKind::ContentSerialization,
                ),
        decreases n - i,
    {
        match add_article_merged(&mut c, &articles[i], i, name) {
            Ok(_) => {
                proof {
                    assert(is_article_title(articles@, articles@[i as int]@.title));
                }
                successes.push(articles[i].title.clone());
            },
            Err(e) => {
                let ghost olde = errors@;
                proof {
                    assert(is_article_url(articles@, e@.source));
                }
                errors.push(e);
                proof {
                    assert(error_views(errors@) =~= error_views(olde).push(e@));
                    assert forall|s: Seq<char>, kd: ErrorKind|
                        has_error(error_views(olde), s, kd) implies has_error(
                        error_views(errors@),
                        s,
                        kd,
                    ) by {
                        let j = choose|j: int|
                            0 <= j < error_views(olde).len() && error_views(olde)[j].source == s
                                && error_views(olde)[j].kind == kd;
                        assert(error_views(errors@)[j].source == s);
                    }
                    if articles@[i as int]@.body is None {
                        assert(error_views(errors@)[olde.len() as int] == e@);
                    }
                }
            },
        }
        i = i + 1;
    }
    let mut refs: Vec<&Article> = Vec::new();
    let mut j: usize = 0;
    while j < n
        invariant
            n == articles@.len(),
            j <= n,
        decreases n - j,
    {
        refs.push(&articles[j]);
        j = j + 1;
    }
    let appendix = generate_appendix(refs);
    let apx_title = replace_escaped_characters("Article Sources");
    let apx_page = toc_element_new("appendix.xhtml", apx_title.as_str());
    let ghost olde = errors@;
    match builder_add_content(&mut c, apx_page, appendix.as_str().as_bytes()) {
        Ok(_) => {},
        Err(_) => {
            errors.push(ErrorRecord { source: String::from_str(name), kind: ErrorKind::Finalize });
            proof {
                lemma_errors_grow(olde, errors@);
            }
            return RunReport { outputs, successes, errors };
        },
    }
    match builder_generate(&mut c) {
        Ok(bytes) => {
            outputs.push(OutputFile { name: String::from_str(name), bytes });
        },
        Err(_) => {
            errors.push(ErrorRecord { source: String::from_str(name), kind: ErrorKind::Finalize });
            proof {
                lemma_errors_grow(olde, errors@);
            }
        },
    }
    RunReport { outputs, successes, errors }
}

/// Every failure already on the list is still on it after records are
/// appended.
proof fn lemma_errors_grow(olde: Seq<ErrorRecord>, newe: Seq<ErrorRecord>)
    requires
        newe.len() >= olde.len(),
        forall|j: int| 0 <= j < olde.len() ==> newe[j] == olde[j],
    ensures
        forall|s: Seq<char>, kd: ErrorKind|
            has_error(error_views(olde), s, kd) ==> has_error(error_views(newe), s, kd),
{
    assert forall|s: Seq<char>, kd: ErrorKind|
        has_error(error_views(olde), s, kd) implies has_error(error_views(newe), s, kd) by {
        let j = choose|j: int|
            0 <= j < error_views(olde).len() && error_views(olde)[j].source == s && error_views(
                olde,
            )[j].kind == kd;
        assert(error_views(newe)[j].source == s && error_views(newe)[j].kind == kd);
    }
}

/// Merged mode: opens the shared container, then assembles one archive
/// covering every article of the batch. A failure to open the container is
/// fatal for the whole run; the error list then holds the container-init
/// failure tagged with the archive's name.
pub fn run_merged(articles: &Vec<Article>, name: &str) -> (r: RunReport)
    ensures
        r.outputs@.len() <= 1,
        forall|j: int| 0 <= j < r.outputs@.len() ==> (#[trigger] r.outputs@[j]).name@ == name@,
        forall|j: int|
            0 <= j < r.errors@.len() ==> ((#[trigger] r.errors@[j])@.source == name@
                || is_article_url(articles@, r.errors@[j]@.source)),
        forall|j: int|
            0 <= j < r.successes@.len() ==> is_article_title(
                articles@,
                (#[trigger] r.successes@[j])@,
            ),
        has_error(error_views(r.errors@), name@, ErrorKind::ContainerInit) || (forall|k: int|
            0 <= k < articles@.len() && (#[trigger] articles@[k])@.body is None ==> has_error(
                error_views(r.errors@),
                articles@[k]@.url,
                ErrorKind::ContentSerialization,
            )),
{
    let container = match zip_library_new() {
        Ok(z) => match container_new(z) {
            Ok(c) => Some(c),
            Err(_) => None,
        },
        Err(_) => None,
    };
    let r = run_merged_with(container, articles, name);
    proof {
        if container is None {
            assert(error_views(r.errors@)[0].source == name@);
        }
    }
    r
}

/// Converts the batch of articles into archives, in the mode the
/// configuration selects: one merged archive under the configured name, or
/// one standalone archive per article. Failures never roll back what
/// already succeeded: the report lists the archives produced, the titles
/// archived, and every recorded failure.
pub fn generate_epubs(articles: &Vec<Article>, app_config: &AppConfig) -> (r: RunReport)
    ensures
        app_config.merged is Some ==> {
            let name = app_config.merged->0@;
            &&& r.outputs@.len() <= 1
            &&& (forall|j: int|
                0 <= j < r.outputs@.len() ==> (#[trigger] r.outputs@[j]).name@ == name)
            &&& (forall|j: int|
                0 <= j < r.errors@.len() ==> ((#[trigger] r.errors@[j])@.source == name
                    || is_article_url(articles@, r.errors@[j]@.source)))
            &&& (has_error(error_views(r.errors@), name, ErrorKind::ContainerInit) || (forall|
                k: int,
            |
                0 <= k < articles@.len() && (#[trigger] articles@[k])@.body is None ==> has_error(
                    error_views(r.errors@),
                    articles@[k]@.url,
                    ErrorKind::ContentSerialization,
                )))
        },
        app_config.merged is None ==> {
            &&& r.outputs@.len() == r.successes@.len()
            &&& r.successes@.len() + r.errors@.len() == articles@.len()
            &&& (forall|j: int|
                0 <= j < r.errors@.len() ==> is_article_url(
                    articles@,
                    (#[trigger] r.errors@[j])@.source,
                ))
            &&& (forall|j: int|
                0 <= j < r.outputs@.len() ==> is_output_name(
                    articles@,
                    (#[trigger] r.outputs@[j]).name@,
                ))
            &&& (forall|k: int|
                0 <= k < articles@.len() && (#[trigger] articles@[k])@.body is None ==> has_error(
                    error_views(r.errors@),
                    articles@[k]@.url,
                    ErrorKind::ContentSerialization,
                ))
        },
        forall|j: int|
            0 <= j < r.successes@.len() ==> is_article_title(
                articles@,
                (#[trigger] r.successes@[j])@,
            ),
{
    match &app_config.merged {
        Some(name) => run_merged(articles, name.as_str()),
        None => run_standalone(articles),
    }
}

} // verus!
