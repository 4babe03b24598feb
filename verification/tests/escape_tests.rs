use paperoni::replace_escaped_characters;

#[test]
fn test_replace_escaped_characters() {
    let mut value = "Lorem ipsum";
    assert_eq!(replace_escaped_characters(value), "Lorem ipsum");
    value = "Memory safe > memory unsafe";
    assert_eq!(
        replace_escaped_characters(value),
        "Memory safe &gt; memory unsafe"
    );
    value = "Author Name <author@mail.example>";
    assert_eq!(
        replace_escaped_characters(value),
        "Author Name &lt;author@mail.example&gt;"
    );
}

#[test]
fn test_ampersand_escaped_first() {
    assert_eq!(replace_escaped_characters("&lt;"), "&amp;lt;");
    assert_eq!(replace_escaped_characters("a & b"), "a &amp; b");
}

#[test]
fn test_escape_idempotent_on_clean_text() {
    let clean = "No special characters here";
    let once = replace_escaped_characters(clean);
    assert_eq!(once, clean);
    let twice = replace_escaped_characters(&once);
    assert_eq!(twice, clean);
}
