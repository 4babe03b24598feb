use vstd::prelude::*;

use crate::heading::{heading_views, Heading, HeadingView};

verus! {

/// The outcome of serializing an article's cleaned document tree, produced
/// by the extraction collaborator: the XHTML bytes of the article body, or
/// the marker that serialization failed.
pub enum DocumentBody {
    Rendered(Vec<u8>),
    RenderFailed,
}

/// One image referenced by an article: its local filename, its recorded
/// MIME type, and its bytes as read from the shared resource store; either
/// of the latter two may be absent when the earlier download phase did not
/// deliver the file.
pub struct ImageRef {
    pub filename: String,
    pub mime: Option<String>,
    pub bytes: Option<Vec<u8>>,
}

/// One extracted web article, handed in by the extraction collaborator.
pub struct Article {
    pub url: String,
    pub title: String,
    pub byline: Option<String>,
    pub headings: Vec<Heading>,
    pub body: DocumentBody,
    pub images: Vec<ImageRef>,
}

pub ghost struct ImageView {
    pub filename: Seq<char>,
    pub mime: Option<Seq<char>>,
    pub bytes: Option<Seq<u8>>,
}

impl View for ImageRef {
    type V = ImageView;

    open spec fn view(&self) -> ImageView {
        ImageView {
            filename: self.filename@,
            mime: if self.mime is Some {
                Some(self.mime->0@)
            } else {
                None
            },
            bytes: if self.bytes is Some {
                Some(self.bytes->0@)
            } else {
                None
            },
        }
    }
}

/// An image can be embedded only when both its bytes and its recorded MIME
/// type are at hand.
pub open spec fn image_present(img: ImageView) -> bool {
    img.mime is Some && img.bytes is Some
}

pub ghost struct ArticleView {
    pub url: Seq<char>,
    pub title: Seq<char>,
    pub byline: Option<Seq<char>>,
    pub headings: Seq<HeadingView>,
    pub body: Option<Seq<u8>>,
    pub images: Seq<ImageView>,
}

impl View for Article {
    type V = ArticleView;

    open spec fn view(&self) -> ArticleView {
        ArticleView {
            url: self.url@,
            title: self.title@,
            byline: if self.byline is Some {
                Some(self.byline->0@)
            } else {
                None
            },
            headings: heading_views(self.headings@),
            body: match self.body {
                DocumentBody::Rendered(b) => Some(b@),
                DocumentBody::RenderFailed => None,
            },
            images: self.images@.map_values(|img: ImageRef| img@),
        }
    }
}

pub open spec fn article_ref_views(s: Seq<&Article>) -> Seq<ArticleView> {
    s.map_values(|a: &Article| a@)
}

} // verus!
