use vanilla_checkbox::page::render_checkbox_input;
use vanilla_checkbox::page::render_document;
use vanilla_checkbox::page::render_error_view;
use vanilla_checkbox::page::render_home_page;
use vanilla_checkbox::page::render_settings_page;
use vanilla_checkbox::page::render_shell;
use vanilla_checkbox::page::route_for_path;
use vanilla_checkbox::page::Route;
use vanilla_checkbox::page::SubmissionCounter;
use vanilla_checkbox::settings::Settings;

#[test]
fn routing_table() {
    assert_eq!(route_for_path("/"), Route::Home);
    assert_eq!(route_for_path("/vanilla-checkbox"), Route::VanillaCheckbox);
    assert_eq!(route_for_path("/missing"), Route::NotFound);
    assert_eq!(route_for_path(""), Route::NotFound);
    assert_eq!(route_for_path("/vanilla-checkbox/"), Route::NotFound);
}

#[test]
fn home_page_links_to_the_settings_page() {
    let page = render_home_page();
    assert!(page.contains("/vanilla-checkbox"));
    assert_eq!(page, "<div><a href=\"/vanilla-checkbox\">Vanilla Checkbox</a></div>");
}

#[test]
fn checkbox_is_checked_exactly_when_the_flag_is_on() {
    let on = render_checkbox_input(true);
    assert_eq!(on, "<input type=\"checkbox\" name=\"on_or_off\" checked />");
    let off = render_checkbox_input(false);
    assert_eq!(off, "<input type=\"checkbox\" name=\"on_or_off\" />");
    assert!(!off.contains("checked"));
}

#[test]
fn settings_page_shows_the_current_flag() {
    let page_on = render_settings_page(&Ok(Settings { on_or_off: true }));
    assert!(page_on.contains("<input type=\"checkbox\" name=\"on_or_off\" checked />"));
    assert!(page_on.contains("value=\"true\""));
    assert!(page_on.contains("Back to home"));

    let page_off = render_settings_page(&Ok(Settings { on_or_off: false }));
    assert!(page_off.contains("<input type=\"checkbox\" name=\"on_or_off\" />"));
    assert!(!page_off.contains("checked"));
    assert!(page_off.contains("value=\"false\""));
}

#[test]
fn failed_load_shows_the_failure_text_verbatim() {
    let page = render_settings_page(&Err(String::from("connection reset")));
    assert!(page.contains("connection reset"));
    assert!(page.contains("class=\"error\""));
    assert!(!page.contains("checkbox"));
}

#[test]
fn error_view_wraps_the_message() {
    let v = render_error_view("boom");
    assert_eq!(v, "<div class=\"error\">boom</div>");
}

#[test]
fn shell_wraps_a_body_in_the_document() {
    let doc = render_shell("<p>hi</p>");
    assert!(doc.starts_with("<!DOCTYPE html><html lang=\"en\">"));
    assert!(doc.contains("<body><p>hi</p></body>"));
    assert!(doc.ends_with("</body></html>"));
}

#[test]
fn document_for_the_root_path_links_to_the_settings_page() {
    let doc = render_document("/", &Ok(Settings { on_or_off: true }));
    assert!(doc.contains("<a href=\"/vanilla-checkbox\">Vanilla Checkbox</a>"));
    assert!(doc.contains("<h1>Checkbox Testing</h1>"));
}

#[test]
fn document_for_the_settings_path_matches_the_store_value() {
    let doc_on = render_document("/vanilla-checkbox", &Ok(Settings { on_or_off: true }));
    assert!(doc_on.contains("<input type=\"checkbox\" name=\"on_or_off\" checked />"));

    let doc_off = render_document("/vanilla-checkbox", &Ok(Settings { on_or_off: false }));
    assert!(doc_off.contains("<input type=\"checkbox\" name=\"on_or_off\" />"));
    assert!(!doc_off.contains("checked"));
}

#[test]
fn document_for_an_unknown_path_says_not_found() {
    let doc = render_document("/nowhere", &Ok(Settings { on_or_off: true }));
    assert!(doc.contains("Not found"));
    assert!(!doc.contains("checkbox"));
}

#[test]
fn submission_counter_counts_up_from_zero() {
    let mut c = SubmissionCounter::new();
    assert_eq!(c.version(), 0);
    c.record_submission();
    assert_eq!(c.version(), 1);
    c.record_submission();
    assert_eq!(c.version(), 2);
}
