use fragekasten::sanitize::sanitize_content;

#[test]
fn strips_emphasis_and_code_markup() {
    assert_eq!(sanitize_content("**Hello** _world_ `code`"), "Hello world code");
}

#[test]
fn strips_link_markup_keeping_text() {
    assert_eq!(sanitize_content("[click here](http://example.invalid)"), "click here");
}

#[test]
fn strips_heading_markup() {
    assert_eq!(sanitize_content("# A title"), "A title");
}

#[test]
fn plain_text_passes_through() {
    assert_eq!(sanitize_content("just a plain question?"), "just a plain question?");
}

#[test]
fn trims_surrounding_whitespace() {
    assert_eq!(
        sanitize_content("   Hello there, how are you?   "),
        "Hello there, how are you?"
    );
}

#[test]
fn empty_input_stays_empty() {
    assert_eq!(sanitize_content(""), "");
}

#[test]
fn whitespace_only_input_becomes_empty() {
    assert_eq!(sanitize_content(" \t \n "), "");
}

#[test]
fn escaped_markup_yields_literal_characters() {
    // An escape keeps the character itself; as plain text it reads as markup
    // again, so such output is one a second pass would strip further.
    assert_eq!(sanitize_content("\\*hi\\*"), "*hi*");
    assert_eq!(sanitize_content("*hi*"), "hi");
}

#[test]
fn sanitizing_twice_is_idempotent_on_plain_output() {
    let inputs = [
        "plain text",
        "**bold** and _italic_",
        "# Heading\n\nbody text",
        "a `code` span",
        "   padded input   ",
        "question with numbers 123 and marks?!",
    ];
    for input in inputs {
        let once = sanitize_content(input);
        let twice = sanitize_content(&once);
        assert_eq!(twice, once);
    }
}
