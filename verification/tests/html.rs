use workflow_engine::html::{html_to_text, page_content, strip_markup, PAGE_LIMIT};

#[test]
fn strips_tags_and_collapses_whitespace() {
    assert_eq!(
        html_to_text("<html><body>Hello <b>World</b></body></html>"),
        "Hello World"
    );
    assert_eq!(html_to_text("  a \n\t b  "), "a b");
    assert_eq!(html_to_text(""), "");
    assert_eq!(html_to_text("<p></p>"), "");
}

#[test]
fn brackets_are_never_shown() {
    assert_eq!(html_to_text("1 > 0"), "1 0");
    assert_eq!(html_to_text("a < b"), "a");
    assert_eq!(html_to_text("x<y>z"), "xz");
}

#[test]
fn closed_script_shows_its_text_like_any_element() {
    assert_eq!(
        html_to_text("<p>a</p><script>var x;</script><p>b</p>"),
        "avar x;b"
    );
}

#[test]
fn unclosed_script_or_style_hides_what_follows_the_first_tag() {
    assert_eq!(html_to_text("intro <p>a</p><SCRIPT>var x; <p>b</p>"), "intro");
    assert_eq!(html_to_text("top<br>mid<style>p {}"), "top");
    assert_eq!(html_to_text("top<br>mid<style>p {}</STYLE>"), "topmidp {}");
}

#[test]
fn lower_case_form_decides_what_is_hidden() {
    assert_eq!(strip_markup("a<b>c", "<script"), "a");
    assert_eq!(strip_markup("a<b>c", "<script </script"), "ac");
    assert_eq!(strip_markup("a<b>c", ""), "ac");
}

#[test]
fn page_of_ten_thousand_characters_is_cut_to_the_limit() {
    let page: String = std::iter::repeat('x').take(10_000).collect();
    let text = page_content(&page);
    assert_eq!(PAGE_LIMIT, 8000);
    assert_eq!(text.chars().count(), 8000);
    assert_eq!(text, page[..8000]);
}

#[test]
fn short_page_is_kept_whole() {
    assert_eq!(page_content("<h1>Title</h1>\n<p>Body text</p>"), "Title Body text");
}

#[test]
fn whitespace_collapse_matches_split_and_join() {
    for s in ["", "a", " a  b\tc\n", "\u{a0}x\u{2003}\u{2003}y ", "   "] {
        let expected = s.split_whitespace().collect::<Vec<_>>().join(" ");
        assert_eq!(html_to_text(s), expected);
    }
}
