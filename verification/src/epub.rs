use vstd::prelude::*;

use crate::toc::TocNode;

verus! {

#[verifier::external_type_specification]
#[verifier::external_body]
pub struct ExZipLibrary(epub_builder::ZipLibrary);

/// Holds the outside container writer for one archive. The writer type's
/// generic parameter is bounded by an outside trait that cannot be declared
/// here, so the whole struct is kept opaque.
#[verifier::external_body]
pub struct Container {
    inner: epub_builder::EpubBuilder<epub_builder::ZipLibrary>,
}

#[verifier::external_type_specification]
#[verifier::external_body]
pub struct ExEpubError(epub_builder::Error);

#[verifier::external_type_specification]
#[verifier::external_body]
pub struct ExTocElement(epub_builder::TocElement);

/// Relies on ZipLibrary::new: sets up the in-memory zip writer that backs
/// one archive, or reports that it could not be set up.
#[verifier::external_body]
pub(crate) fn zip_library_new() -> Result<epub_builder::ZipLibrary, epub_builder::Error> {
    epub_builder::ZipLibrary::new()
}

/// Relies on EpubBuilder::new: opens the container around a zip writer.
#[verifier::external_body]
pub(crate) fn container_new(zip: epub_builder::ZipLibrary) -> Result<
    Container,
    epub_builder::Error,
> {
    match epub_builder::EpubBuilder::new(zip) {
        Ok(inner) => Ok(Container { inner }),
        Err(e) => Err(e),
    }
}

/// Relies on EpubBuilder::inline_toc: asks the container to also render the
/// navigation tree as a page of its own; it always succeeds.
#[verifier::external_body]
pub(crate) fn builder_inline_toc(c: &mut Container) {
    c.inner.inline_toc();
}

/// Relies on EpubBuilder::metadata: the container accepts the keys "title"
/// and "author" (among a fixed set) and refuses only keys outside that set.
#[verifier::external_body]
pub(crate) fn builder_metadata(
    c: &mut Container,
    key: &str,
    value: &str,
) -> (r: Result<(), epub_builder::Error>)
    ensures
        key@ == "title"@ || key@ == "author"@ ==> r is Ok,
{
    match c.inner.metadata(key, value) {
        Ok(_) => Ok(()),
        Err(e) => Err(e),
    }
}

/// Relies on TocElement::new: a fresh navigation entry with the given
/// target and title and no children.
#[verifier::external_body]
pub(crate) fn toc_element_new(url: &str, title: &str) -> epub_builder::TocElement {
    epub_builder::TocElement::new(url, title)
}

/// Relies on TocElement::child: appends one entry under another, adjusting
/// the child's level so it sits below its parent.
#[verifier::external_body]
pub(crate) fn toc_element_child(
    parent: epub_builder::TocElement,
    child: epub_builder::TocElement,
) -> epub_builder::TocElement {
    parent.child(child)
}

/// Relies on EpubBuilder::add_content and EpubContent: adds one content
/// item whose name and navigation entry come from the given element and
/// whose body is the given bytes.
#[verifier::external_body]
pub(crate) fn builder_add_content(
    c: &mut Container,
    toc: epub_builder::TocElement,
    body: &[u8],
) -> Result<(), epub_builder::Error> {
    let mut content = epub_builder::EpubContent::new("", body);
    content.toc = toc;
    match c.inner.add_content(content) {
        Ok(_) => Ok(()),
        Err(e) => Err(e),
    }
}

/// Relies on EpubBuilder::add_resource: stores one named binary resource
/// with its MIME type.
#[verifier::external_body]
pub(crate) fn builder_add_resource(
    c: &mut Container,
    name: &str,
    data: &[u8],
    mime: &str,
) -> Result<(), epub_builder::Error> {
    match c.inner.add_resource(name, data, mime) {
        Ok(_) => Ok(()),
        Err(e) => Err(e),
    }
}

/// Relies on EpubBuilder::generate: renders and flushes the archive,
/// returning its bytes.
#[verifier::external_body]
pub(crate) fn builder_generate(c: &mut Container) -> Result<
    Vec<u8>,
    epub_builder::Error,
> {
    let mut out: Vec<u8> = Vec::new();
    match c.inner.generate(&mut out) {
        Ok(_) => Ok(out),
        Err(e) => Err(e),
    }
}

/// Converts one table-of-contents node, children included, into the
/// container's navigation element.
pub(crate) fn to_toc_element(node: &TocNode) -> epub_builder::TocElement
    decreases node,
{
    let mut elem = toc_element_new(node.url.as_str(), node.title.as_str());
    let n = node.children.len();
    let mut i: usize = 0;
    while i < n
        invariant
            n == node.children@.len(),
            i <= n,
        decreases n - i,
    {
        let child = to_toc_element(&node.children[i]);
        elem = toc_element_child(elem, child);
        i = i + 1;
    }
    elem
}

} // verus!
