use snake_bevy_wasm_pwa::html_source_code::HtmlSourceCode;

#[test]
fn new_keeps_the_template() {
    let h = HtmlSourceCode::new("<p>{ph_x}</p>");
    assert_eq!(h.get_html(), "<p>{ph_x}</p>");
}

#[test]
fn replace_attribute_value_substitutes_all_occurrences() {
    let mut h = HtmlSourceCode::new(r#"<a href="{ph_u}">{ph_u}</a>"#);
    h.replace_attribute_value("{ph_u}", "home");
    assert_eq!(h.get_html(), r#"<a href="home">home</a>"#);
}

#[test]
fn replace_text_node_substitutes_verbatim() {
    let mut h = HtmlSourceCode::new("<p>{ph_t}</p>");
    h.replace_text_node("{ph_t}", "a < b");
    assert_eq!(h.get_html(), "<p>a < b</p>");
}

#[test]
fn replace_html_source_code_embeds_the_rendered_fragment() {
    let mut outer = HtmlSourceCode::new("<div>{ph_inner}</div>");
    let mut inner = HtmlSourceCode::new(r#"<p class="{ph_c}">{ph_t}</p>"#);
    inner.replace_attribute_value("{ph_c}", "small");
    inner.replace_text_node("{ph_t}", "bestia.dev");
    outer.replace_html_source_code("{ph_inner}", &inner);
    assert_eq!(outer.get_html(), r#"<div><p class="small">bestia.dev</p></div>"#);
}

#[test]
fn substitution_twice_equals_once_when_value_lacks_the_marker() {
    let mut once = HtmlSourceCode::new("<p>{ph_t} and {ph_t}</p>");
    once.replace_attribute_value("{ph_t}", "x");
    let mut twice = HtmlSourceCode::new("<p>{ph_t} and {ph_t}</p>");
    twice.replace_attribute_value("{ph_t}", "x");
    twice.replace_attribute_value("{ph_t}", "x");
    assert_eq!(twice.get_html(), once.get_html());
}

#[test]
fn substitution_is_not_idempotent_when_the_marker_reappears() {
    // The value contains the marker itself, so it is substituted again by
    // a second pass.
    let mut once = HtmlSourceCode::new("<p>{ph_t}</p>");
    once.replace_attribute_value("{ph_t}", "again {ph_t}");
    assert_eq!(once.get_html(), "<p>again {ph_t}</p>");
    let mut twice = HtmlSourceCode::new("<p>{ph_t}</p>");
    twice.replace_attribute_value("{ph_t}", "again {ph_t}");
    twice.replace_attribute_value("{ph_t}", "again {ph_t}");
    assert_eq!(twice.get_html(), "<p>again again {ph_t}</p>");
}
