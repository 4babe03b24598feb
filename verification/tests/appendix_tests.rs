use paperoni::{generate_appendix, Article, DocumentBody, Heading};

fn article(url: &str, title: &str) -> Article {
    Article {
        url: url.to_string(),
        title: title.to_string(),
        byline: None,
        headings: Vec::<Heading>::new(),
        body: DocumentBody::Rendered(b"<html></html>".to_vec()),
        images: Vec::new(),
    }
}

const FRAME_HEAD: &str = "<html xmlns=\"http://www.w3.org/1999/xhtml\" xmlns:epub=\"http://www.idpf.org/2007/ops\">\n    <head>\n    </head>\n    <body>\n        <h2>Appendix</h2><h3>Article sources</h3>\n        ";
const FRAME_TAIL: &str = "\n    </body>\n</html>";

#[test]
fn test_appendix_single_article() {
    let a = article("https://site.example/post?a=1&b=2", "My <Great> Post");
    let out = generate_appendix(vec![&a]);
    let expected = format!(
        "{}<a href=\"https://site.example/post?a=1&amp;b=2\">My &lt;Great&gt; Post</a><br></br>{}",
        FRAME_HEAD, FRAME_TAIL
    );
    assert_eq!(expected, out);
}

#[test]
fn test_appendix_empty_title_uses_url() {
    let a = article("https://site.example/p", "");
    let out = generate_appendix(vec![&a]);
    let expected = format!(
        "{}<a href=\"https://site.example/p\">https://site.example/p</a><br></br>{}",
        FRAME_HEAD, FRAME_TAIL
    );
    assert_eq!(expected, out);
}

#[test]
fn test_appendix_keeps_article_order() {
    let a = article("https://site.example/1", "First");
    let b = article("https://site.example/2", "Second");
    let out = generate_appendix(vec![&a, &b]);
    let first = out.find("First").unwrap();
    let second = out.find("Second").unwrap();
    assert!(first < second);
}

#[test]
fn test_appendix_no_articles() {
    let out = generate_appendix(Vec::new());
    assert_eq!(format!("{}{}", FRAME_HEAD, FRAME_TAIL), out);
}
