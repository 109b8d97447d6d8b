//! The presentation layer: routing, the markup of each page, and the
//! re-fetch counter that keys reloads of the settings.
//!
//! Every page is rendered as a plain string of markup. The contracts pin the
//! rendered text exactly, and state on top of that the facts a reader of the
//! page relies on: the home page links to the settings page, the settings
//! page shows a checkbox whose checked state is the current flag, and a
//! failed load shows the failure text verbatim.

use vstd::prelude::*;
use vstd::string::StringExecFns;
use crate::form::bool_label;
use crate::form::spec_bool_label;
use crate::form::str_eq;
use crate::settings::Settings;

verus! {

/// Where a request path leads.
#[derive(Debug, Clone, Copy, PartialEq, Eq, Structural)]
pub enum Route {
    Home,
    VanillaCheckbox,
    NotFound,
}

/// The routing table: the root path serves the home page, the
/// `/vanilla-checkbox` path serves the settings page, anything else falls
/// through to a not-found view.
pub open spec fn spec_route_for_path(p: Seq<char>) -> Route {
    if p == "/"@ {
        Route::Home
    } else if p == "/vanilla-checkbox"@ {
        Route::VanillaCheckbox
    } else {
        Route::NotFound
    }
}

/// Resolve a request path to its route.
pub fn route_for_path(path: &str) -> (r: Route)
    ensures
        r == spec_route_for_path(path@),
{
    if str_eq(path, "/") {
        Route::Home
    } else if str_eq(path, "/vanilla-checkbox") {
        Route::VanillaCheckbox
    } else {
        Route::NotFound
    }
}

/// `needle` occurs contiguously somewhere inside `hay`.
pub open spec fn spec_contains(hay: Seq<char>, needle: Seq<char>) -> bool {
    exists|i: int|
        0 <= i && i + needle.len() <= hay.len() && #[trigger] hay.subrange(
            i,
            i + needle.len() as int,
        ) == needle
}

/// A string built around a piece contains that piece.
pub proof fn lemma_concat_contains(a: Seq<char>, n: Seq<char>, b: Seq<char>)
    ensures
        spec_contains(a + n + b, n),
{
    let hay = a + n + b;
    let i = a.len() as int;
    assert(hay.subrange(i, i + n.len() as int) =~= n);
    assert(0 <= i && i + n.len() <= hay.len());
}

/// Containment survives surrounding text: whatever contains `n` still
/// contains it after more text is put on either side.
pub proof fn lemma_contains_in_concat(a: Seq<char>, m: Seq<char>, b: Seq<char>, n: Seq<char>)
    requires
        spec_contains(m, n),
    ensures
        spec_contains(a + m + b, n),
{
    let i = choose|i: int|
        0 <= i && i + n.len() <= m.len() && #[trigger] m.subrange(i, i + n.len() as int) == n;
    let hay = a + m + b;
    let j = a.len() + i;
    assert forall|k: int| 0 <= k < n.len() implies hay.subrange(j, j + n.len() as int)[k] == n[k] by {
        assert(hay[j + k] == m[i + k]);
        assert(m.subrange(i, i + n.len() as int)[k] == m[i + k]);
    }
    assert(hay.subrange(j, j + n.len() as int) =~= n);
    assert(0 <= j && j + n.len() <= hay.len());
}

/// The presentation layer's re-fetch key: counts accepted change
/// submissions, so that every submission forces the settings to be loaded
/// again.
pub struct SubmissionCounter {
    pub version: u64,
}

impl SubmissionCounter {
    /// A fresh counter, before any submission.
    pub fn new() -> (r: SubmissionCounter)
        ensures
            r.version == 0,
    {
        SubmissionCounter { version: 0 }
    }

    /// The current re-fetch key.
    pub fn version(&self) -> (v: u64)
        ensures
            v == self.version,
    {
        self.version
    }

    /// Record one accepted submission: the key strictly increases, so a
    /// reload keyed on it cannot be served from before the submission.
    pub fn record_submission(&mut self)
        requires
            old(self).version < u64::MAX,
        ensures
            final(self).version == old(self).version + 1,
    {
        self.version = self.version + 1;
    }
}

/// The checkbox input of the settings form; it is marked checked exactly
/// when the flag is on.
pub open spec fn spec_checkbox_input(on: bool) -> Seq<char> {
    if on {
        "<input type=\"checkbox\" name=\"on_or_off\" checked />"@
    } else {
        "<input type=\"checkbox\" name=\"on_or_off\" />"@
    }
}

/// Render the checkbox input for the current flag.
pub fn render_checkbox_input(on: bool) -> (r: String)
    ensures
        r@ == spec_checkbox_input(on),
{
    if on {
        String::from_str("<input type=\"checkbox\" name=\"on_or_off\" checked />")
    } else {
        String::from_str("<input type=\"checkbox\" name=\"on_or_off\" />")
    }
}

/// The form that submits the flag through a checkbox.
pub open spec fn spec_checkbox_form(on: bool) -> Seq<char> {
    "<form method=\"post\"><label>On or off: "@ + spec_checkbox_input(on)
        + "</label><br /><input type=\"submit\" value=\"Save changes\" /></form>"@
}

/// Render the checkbox form.
pub fn render_checkbox_form(on: bool) -> (r: String)
    ensures
        r@ == spec_checkbox_form(on),
{
    let mut r = String::from_str("<form method=\"post\"><label>On or off: ");
    let cb = render_checkbox_input(on);
    r.append(cb.as_str());
    r.append("</label><br /><input type=\"submit\" value=\"Save changes\" /></form>");
    r
}

/// The redundant form that submits the flag through a text input pre-filled
/// with the flag spelled out.
pub open spec fn spec_text_form(on: bool) -> Seq<char> {
    "<form method=\"post\"><label>On or off: <input type=\"text\" name=\"on_or_off\" value=\""@
        + spec_bool_label(on)
        + "\" /></label><br /><input type=\"submit\" value=\"Save changes\" /></form>"@
}

/// Render the text form.
pub fn render_text_form(on: bool) -> (r: String)
    ensures
        r@ == spec_text_form(on),
{
    let mut r = String::from_str(
        "<form method=\"post\"><label>On or off: <input type=\"text\" name=\"on_or_off\" value=\"",
    );
    r.append(bool_label(on));
    r.append("\" /></label><br /><input type=\"submit\" value=\"Save changes\" /></form>");
    r
}

/// The settings view when loading succeeded: both forms, bound to the same
/// change operation.
pub open spec fn spec_settings_forms(on: bool) -> Seq<char> {
    "<div>"@ + spec_checkbox_form(on) + "</div><div><br /><br />"@ + spec_text_form(on) + "</div>"@
}

/// Render both settings forms. The output carries the checkbox input whose
/// checked state is exactly the given flag.
pub fn render_settings_forms(on: bool) -> (r: String)
    ensures
        r@ == spec_settings_forms(on),
        spec_contains(r@, spec_checkbox_input(on)),
{
    let mut r = String::from_str("<div>");
    let cf = render_checkbox_form(on);
    r.append(cf.as_str());
    r.append("</div><div><br /><br />");
    let tf = render_text_form(on);
    r.append(tf.as_str());
    r.append("</div>");
    proof {
        lemma_forms_contain_checkbox(on);
    }
    r
}

/// The settings forms contain the checkbox input for the same flag.
pub proof fn lemma_forms_contain_checkbox(on: bool)
    ensures
        spec_contains(spec_settings_forms(on), spec_checkbox_input(on)),
{
    let a = "<div>"@ + "<form method=\"post\"><label>On or off: "@;
    let n = spec_checkbox_input(on);
    let b = "</label><br /><input type=\"submit\" value=\"Save changes\" /></form>"@
        + "</div><div><br /><br />"@ + spec_text_form(on) + "</div>"@;
    assert(spec_settings_forms(on) =~= a + n + b);
    lemma_concat_contains(a, n, b);
}

/// The settings view when loading failed: the failure text, shown verbatim.
pub open spec fn spec_error_view(msg: Seq<char>) -> Seq<char> {
    "<div class=\"error\">"@ + msg + "</div>"@
}

/// Render the failure view for a load error.
pub fn render_error_view(msg: &str) -> (r: String)
    ensures
        r@ == spec_error_view(msg@),
        spec_contains(r@, msg@),
{
    let mut r = String::from_str("<div class=\"error\">");
    r.append(msg);
    r.append("</div>");
    proof {
        lemma_concat_contains("<div class=\"error\">"@, msg@, "</div>"@);
    }
    r
}

/// A load result with the error text taken as a plain sequence.
pub open spec fn spec_result_view(res: Result<Settings, String>) -> Result<Settings, Seq<char>> {
    match res {
        Result::Ok(s) => Result::Ok(s),
        Result::Err(m) => Result::Err(m@),
    }
}

/// What the settings view shows for a load result: the forms on success,
/// the failure text on error.
pub open spec fn spec_settings_view(res: Result<Settings, Seq<char>>) -> Seq<char> {
    match res {
        Result::Ok(s) => spec_settings_forms(s.on_or_off),
        Result::Err(msg) => spec_error_view(msg),
    }
}

/// Render the settings view for a load result.
pub fn render_settings_view(res: &Result<Settings, String>) -> (r: String)
    ensures
        r@ == spec_settings_view(spec_result_view(*res)),
{
    match res {
        Ok(s) => render_settings_forms(s.on_or_off),
        Err(m) => render_error_view(m.as_str()),
    }
}

/// The settings page: a link back home, then the settings view.
pub open spec fn spec_settings_page(res: Result<Settings, Seq<char>>) -> Seq<char> {
    "<div><a href=\"/\">Back to home</a>"@ + spec_settings_view(res) + "</div>"@
}

/// Render the settings page. On a successful load the page carries the
/// checkbox input whose checked state is the loaded flag; on a failed load
/// it carries the failure text verbatim.
pub fn render_settings_page(res: &Result<Settings, String>) -> (r: String)
    ensures
        r@ == spec_settings_page(spec_result_view(*res)),
        res is Ok ==> spec_contains(r@, spec_checkbox_input(res->Ok_0.on_or_off)),
        res is Err ==> spec_contains(r@, res->Err_0@),
{
    let mut r = String::from_str("<div><a href=\"/\">Back to home</a>");
    let view_part = render_settings_view(res);
    r.append(view_part.as_str());
    r.append("</div>");
    proof {
        let a = "<div><a href=\"/\">Back to home</a>"@;
        let m = spec_settings_view(spec_result_view(*res));
        let b = "</div>"@;
        if res is Ok {
            lemma_forms_contain_checkbox(res->Ok_0.on_or_off);
            lemma_contains_in_concat(a, m, b, spec_checkbox_input(res->Ok_0.on_or_off));
        } else {
            lemma_concat_contains("<div class=\"error\">"@, res->Err_0@, "</div>"@);
            lemma_contains_in_concat(a, m, b, res->Err_0@);
        }
    }
    r
}

/// The home page: one link to the settings page.
pub open spec fn spec_home_page() -> Seq<char> {
    "<div><a href=\""@ + "/vanilla-checkbox"@ + "\">Vanilla Checkbox</a></div>"@
}

/// Render the home page. It carries the settings page's path.
pub fn render_home_page() -> (r: String)
    ensures
        r@ == spec_home_page(),
        spec_contains(r@, "/vanilla-checkbox"@),
{
    let mut r = String::from_str("<div><a href=\"");
    r.append("/vanilla-checkbox");
    r.append("\">Vanilla Checkbox</a></div>");
    proof {
        lemma_concat_contains("<div><a href=\""@, "/vanilla-checkbox"@, "\">Vanilla Checkbox</a></div>"@);
    }
    r
}

/// What each route shows in the main region.
pub open spec fn spec_page_for_route(route: Route, res: Result<Settings, Seq<char>>) -> Seq<char> {
    match route {
        Route::Home => spec_home_page(),
        Route::VanillaCheckbox => spec_settings_page(res),
        Route::NotFound => "Not found"@,
    }
}

/// Render the main region for a route.
pub fn render_page_for_route(route: Route, res: &Result<Settings, String>) -> (r: String)
    ensures
        r@ == spec_page_for_route(route, spec_result_view(*res)),
{
    match route {
        Route::Home => render_home_page(),
        Route::VanillaCheckbox => render_settings_page(res),
        Route::NotFound => String::from_str("Not found"),
    }
}

/// The application view: the heading, then the routed page in the main
/// region.
pub open spec fn spec_app_view(route: Route, res: Result<Settings, Seq<char>>) -> Seq<char> {
    "<header><h1>Checkbox Testing</h1></header><main>"@ + spec_page_for_route(route, res)
        + "</main>"@
}

/// The document around a body: the fixed head, then the body.
pub open spec fn spec_document(body: Seq<char>) -> Seq<char> {
    "<!DOCTYPE html><html lang=\"en\"><head><meta charset=\"utf-8\" /><meta name=\"viewport\" content=\"width=device-width, initial-scale=1\" /></head><body>"@
        + body + "</body></html>"@
}

/// Render the whole document around a body.
pub fn render_shell(body: &str) -> (r: String)
    ensures
        r@ == spec_document(body@),
{
    let mut r = String::from_str(
        "<!DOCTYPE html><html lang=\"en\"><head><meta charset=\"utf-8\" /><meta name=\"viewport\" content=\"width=device-width, initial-scale=1\" /></head><body>",
    );
    r.append(body);
    r.append("</body></html>");
    r
}

/// Render the full document served for a request path, given the outcome of
/// loading the settings. The home page carries the settings page's path;
/// a settings page rendered from a successful load carries the checkbox
/// whose checked state is the loaded flag.
pub fn render_document(path: &str, res: &Result<Settings, String>) -> (r: String)
    ensures
        r@ == spec_document(spec_app_view(spec_route_for_path(path@), spec_result_view(*res))),
        spec_route_for_path(path@) == Route::Home ==> spec_contains(r@, "/vanilla-checkbox"@),
        spec_route_for_path(path@) == Route::VanillaCheckbox && res is Ok ==> spec_contains(
            r@,
            spec_checkbox_input(res->Ok_0.on_or_off),
        ),
{
    let route = route_for_path(path);
    let page = render_page_for_route(route, res);
    let mut body = String::from_str("<header><h1>Checkbox Testing</h1></header><main>");
    body.append(page.as_str());
    body.append("</main>");
    let r = render_shell(body.as_str());
    proof {
        let rt = spec_route_for_path(path@);
        let rv = spec_result_view(*res);
        let doc_a = "<!DOCTYPE html><html lang=\"en\"><head><meta charset=\"utf-8\" /><meta name=\"viewport\" content=\"width=device-width, initial-scale=1\" /></head><body>"@
            + "<header><h1>Checkbox Testing</h1></header><main>"@;
        let doc_b = "</main>"@ + "</body></html>"@;
        let m = spec_page_for_route(rt, rv);
        assert(r@ =~= doc_a + m + doc_b);
        if rt == Route::Home {
            lemma_concat_contains(
                "<div><a href=\""@,
                "/vanilla-checkbox"@,
                "\">Vanilla Checkbox</a></div>"@,
            );
            lemma_contains_in_concat(doc_a, m, doc_b, "/vanilla-checkbox"@);
        }
        if rt == Route::VanillaCheckbox && res is Ok {
            let s = res->Ok_0;
            lemma_forms_contain_checkbox(s.on_or_off);
            lemma_contains_in_concat(
                "<div><a href=\"/\">Back to home</a>"@,
                spec_settings_view(rv),
                "</div>"@,
                spec_checkbox_input(s.on_or_off),
            );
            lemma_contains_in_concat(doc_a, m, doc_b, spec_checkbox_input(s.on_or_off));
        }
    }
    r
}

} // verus!
