//! The argument router: turns a URL hash fragment into a token list and
//! dispatches on the first user token to one of the page-rendering
//! actions.
//!
//! The caller owns the surrounding page: it re-renders the header on every
//! dispatch, injects the returned markup into the named containers, and
//! wires the hash-change and button listeners.  Everything decided here —
//! which page, which text, which error — is stated in the contracts.

use vstd::prelude::*;

use crate::greeting::LibraryError;
use crate::greeting::format_hello_phrase;
use crate::greeting::format_upper_hello_phrase;
use crate::greeting::spec_hello_phrase;
use crate::greeting::spec_uppercase_error;
use crate::html_source_code::HtmlSourceCode;
use crate::text::count_char;
use crate::text::lemma_split_len;
use crate::text::spec_replace;
use crate::text::spec_split;
use crate::text::spec_upper;
use crate::text::split_on_char;
use crate::text::str_eq;
use crate::text::views_of;

verus! {

/// The synthetic first token, standing in for a program name so that the
/// token list looks like a CLI argument list.
pub open spec fn sentinel() -> Seq<char> {
    "snake_bevy_wasm_pwa"@
}

/// The token list for a hash fragment: the sentinel, followed by the
/// `/`-separated parts of whatever comes after the leading `#`.  An empty
/// fragment gives the sentinel alone.
pub open spec fn spec_hash_args(h: Seq<char>) -> Seq<Seq<char>> {
    if h.len() == 0 {
        seq![sentinel()]
    } else {
        seq![sentinel()] + spec_split(h.skip(1), '/')
    }
}

/// Derives the argument tokens from the location's hash fragment, which is
/// either empty or starts with `#`.  The first character is dropped, the
/// remainder split on `/`, and the sentinel put in front.
pub fn get_args_from_hash_fragment(hash: &str) -> (args: Vec<String>)
    ensures
        views_of(args@) == spec_hash_args(hash@),
{
    let mut args: Vec<String> = Vec::new();
    args.push(String::from_str("snake_bevy_wasm_pwa"));
    if hash.is_empty() {
        proof {
            assert(views_of(args@) =~~= spec_hash_args(hash@));
        }
    } else {
        let n = hash.unicode_len();
        let tail = hash.substring_char(1, n);
        proof {
            assert(tail@ =~= hash@.skip(1));
        }
        let mut parts = split_on_char(tail, '/');
        args.append(&mut parts);
        proof {
            assert(views_of(args@) =~~= spec_hash_args(hash@));
        }
    }
    args
}

/// For a non-empty fragment, splitting on `/` and prepending the sentinel
/// yields one token per `/`-separated part, plus one: as many parts as
/// there are separators, plus one, plus the sentinel.
pub proof fn lemma_fragment_token_count(f: Seq<char>)
    requires
        f.len() > 0,
    ensures
        (seq![sentinel()] + spec_split(f, '/')).len() == spec_split(f, '/').len() + 1,
        spec_split(f, '/').len() == count_char(f, '/') + 1,
{
    lemma_split_len(f, '/');
}

/// The header fragment rendered above every page.
pub open spec fn spec_header_html() -> Seq<char> {
    (r#"
<div class="div_header">
    <a href="/snake_bevy_wasm_pwa/#page_with_inputs"><span class="fa-solid fa-home"></span>Home</a>
    &nbsp;
    <a href="/snake_bevy_wasm_pwa/#help"><span class="fa-solid fa-question-circle"></span>Help</a>
    &nbsp;
</div>
<div>&nbsp;</div>
<div id="div_body"></div>
"#)@
}

/// Renders the header with the Home and Help links.  The caller injects it
/// into the container for this module's markup on every dispatch.
pub fn header() -> (r: HtmlSourceCode)
    ensures
        r@ == spec_header_html(),
{
    HtmlSourceCode::new(
        r#"
<div class="div_header">
    <a href="/snake_bevy_wasm_pwa/#page_with_inputs"><span class="fa-solid fa-home"></span>Home</a>
    &nbsp;
    <a href="/snake_bevy_wasm_pwa/#help"><span class="fa-solid fa-question-circle"></span>Help</a>
    &nbsp;
</div>
<div>&nbsp;</div>
<div id="div_body"></div>
"#,
    )
}

/// The static help text.
pub open spec fn spec_help_text() -> Seq<char> {
    (r#"Welcome to snake_bevy_wasm_pwa !

This is a simple yet complete template for a PWA WASM program written in Rust.
The file structure is on purpose similar to a Rust CLI project and accepts similar arguments.

http://localhost:4000/snake_bevy_wasm_pwa/
http://localhost:4000/snake_bevy_wasm_pwa/#help
http://localhost:4000/snake_bevy_wasm_pwa/#print/world
http://localhost:4000/snake_bevy_wasm_pwa/#upper/world

This command should return an error:
http://localhost:4000/snake_bevy_wasm_pwa/#upper/WORLD

© 2025 bestia.dev  MIT License github.com/automation-tasks-rs/cargo-auto
"#)@
}

/// The help text, shown as the text of the page body.
pub fn print_help() -> (r: String)
    ensures
        r@ == spec_help_text(),
{
    String::from_str(
        r#"Welcome to snake_bevy_wasm_pwa !

This is a simple yet complete template for a PWA WASM program written in Rust.
The file structure is on purpose similar to a Rust CLI project and accepts similar arguments.

http://localhost:4000/snake_bevy_wasm_pwa/
http://localhost:4000/snake_bevy_wasm_pwa/#help
http://localhost:4000/snake_bevy_wasm_pwa/#print/world
http://localhost:4000/snake_bevy_wasm_pwa/#upper/world

This command should return an error:
http://localhost:4000/snake_bevy_wasm_pwa/#upper/WORLD

© 2025 bestia.dev  MIT License github.com/automation-tasks-rs/cargo-auto
"#,
    )
}

/// The example commands of the help; there are none to list at present.
pub fn print_examples_cmd() -> (r: String)
    ensures
        r@ == Seq::<char>::empty(),
{
    String::new()
}

/// The rendered fragment embedded into the input page.
pub open spec fn spec_fragment_html() -> Seq<char> {
    spec_replace(
        spec_replace(
            (r#"<p class="{ph_attr_class_1}">{ph_text_node_1}</p>"#)@,
            "{ph_attr_class_1}"@,
            "small"@,
        ),
        "{ph_text_node_1}"@,
        "bestia.dev"@,
    )
}

/// The fully substituted input page.
pub open spec fn spec_page_html() -> Seq<char> {
    spec_replace(
        spec_replace(
            spec_replace(
                (r#"<h1>snake_bevy_wasm_pwa</h1>
<p>Write a command in the Argument 1: print or upper</p>
<div class="input-wrap">
    <label for="arg_1">Argument 1:</label>
    <input style="width:20%;" type="text" id="arg_1" value="{ph_arg_1}"/>
</div>
<p>Write a name in the Argument 2: world or WORLD</p>
<div class="input-wrap">
    <label for="arg_2">Argument 2:</label>
    <input style="width:20%;" type="text" id="arg_2" value="{ph_arg_2}"/>
</div>
<p>Click on Run</p>
<div class="input-wrap">
    <input type="button" class="button" id="btn_run" value="Run"/>
</div>
{ph_elem_p_1}
        "#)@,
                "{ph_arg_1}"@,
                "upper"@,
            ),
            "{ph_arg_2}"@,
            "world"@,
        ),
        "{ph_elem_p_1}"@,
        spec_fragment_html(),
    )
}

/// Renders the first page: two argument inputs, a Run button, and an
/// embedded fragment, all filled in by placeholder substitution.  The
/// caller injects the markup into the page body and wires the Run button.
pub fn page_with_inputs() -> (r: HtmlSourceCode)
    ensures
        r@ == spec_page_html(),
{
    let mut html_source_code = HtmlSourceCode::new(
        r#"<h1>snake_bevy_wasm_pwa</h1>
<p>Write a command in the Argument 1: print or upper</p>
<div class="input-wrap">
    <label for="arg_1">Argument 1:</label>
    <input style="width:20%;" type="text" id="arg_1" value="{ph_arg_1}"/>
</div>
<p>Write a name in the Argument 2: world or WORLD</p>
<div class="input-wrap">
    <label for="arg_2">Argument 2:</label>
    <input style="width:20%;" type="text" id="arg_2" value="{ph_arg_2}"/>
</div>
<p>Click on Run</p>
<div class="input-wrap">
    <input type="button" class="button" id="btn_run" value="Run"/>
</div>
{ph_elem_p_1}
        "#,
    );
    html_source_code.replace_attribute_value("{ph_arg_1}", "upper");
    html_source_code.replace_attribute_value("{ph_arg_2}", "world");
    let mut fragment = HtmlSourceCode::new(
        r#"<p class="{ph_attr_class_1}">{ph_text_node_1}</p>"#,
    );
    fragment.replace_attribute_value("{ph_attr_class_1}", "small");
    fragment.replace_text_node("{ph_text_node_1}", "bestia.dev");
    html_source_code.replace_html_source_code("{ph_elem_p_1}", &fragment);
    html_source_code
}

/// The frame around a greeting phrase when it is shown as the page body.
pub open spec fn spec_result_body(phrase: Seq<char>) -> Seq<char> {
    "The result is\n"@ + phrase + "\n"@
}

/// The body text that greets `greet_name`.
pub fn print_greet_name(greet_name: &str) -> (r: String)
    ensures
        r@ == spec_result_body(spec_hello_phrase(greet_name@)),
{
    let mut s = String::from_str("The result is\n");
    let phrase = format_hello_phrase(greet_name);
    s.append(phrase.as_str());
    s.append("\n");
    s
}

/// The body text that greets the uppercased `greet_name`; fails exactly
/// when the uppercasing transform does.
pub fn upper_greet_name(greet_name: &str) -> (r: Result<String, LibraryError>)
    ensures
        spec_upper(greet_name@) != greet_name@ ==> (r matches Ok(t) && t@ == spec_result_body(
            spec_hello_phrase(spec_upper(greet_name@)),
        )),
        spec_upper(greet_name@) == greet_name@ ==> (r matches Err(e) && e matches LibraryError::Uppercase(n) && n@ == greet_name@),
{
    match format_upper_hello_phrase(greet_name) {
        Ok(phrase) => {
            let mut s = String::from_str("The result is\n");
            s.append(phrase.as_str());
            s.append("\n");
            Ok(s)
        },
        Err(e) => Err(e),
    }
}

/// What a dispatch asks the surrounding page to do.
#[derive(Debug)]
pub enum RouteAction {
    /// Inject this markup into the page body and wire the Run button.
    RenderPage(HtmlSourceCode),
    /// Show this text in the page body.
    ShowText(String),
    /// Show this message in the error display area.
    ShowError(String),
}

proof fn lemma_tokens_distinct()
    ensures
        "page_with_inputs"@ != "help"@,
        "page_with_inputs"@ != "print"@,
        "page_with_inputs"@ != "upper"@,
        "help"@ != "print"@,
        "help"@ != "upper"@,
        "print"@ != "upper"@,
{
    reveal_strlit("page_with_inputs");
    reveal_strlit("help");
    reveal_strlit("print");
    reveal_strlit("upper");
    assert("page_with_inputs"@.len() == 16);
    assert("help"@.len() == 4);
    assert("print"@.len() == 5);
    assert("upper"@.len() == 5);
    assert("print"@[0] != "upper"@[0]);
}

/// A first token that belongs to no page.
pub open spec fn spec_unrecognized(t: Seq<char>) -> bool {
    t != "page_with_inputs"@ && t != "help"@ && t != "print"@ && t != "upper"@
}

/// The error message for a first token that belongs to no page.
pub open spec fn spec_unrecognized_error() -> Seq<char> {
    "Error: Unrecognized arguments. Try \n http://localhost:4000/snake_bevy_wasm_pwa/#help"@
}

/// Dispatches on the token after the sentinel: no token or
/// `page_with_inputs` renders the input page, `help` the help text,
/// `print` and `upper` greet the name in the following token or report
/// that it is missing, and anything else is unrecognized, whatever comes
/// after it.
pub fn routing_by_arguments(args: Vec<String>) -> (r: RouteAction)
    ensures
        args@.len() <= 1 || (args@.len() >= 2 && args@[1]@ == "page_with_inputs"@) ==> (r matches RouteAction::RenderPage(h) && h@ == spec_page_html()),
        args@.len() >= 2 && args@[1]@ == "help"@ ==> (r matches RouteAction::ShowText(t) && t@ == spec_help_text()),
        args@.len() >= 3 && args@[1]@ == "print"@ ==> (r matches RouteAction::ShowText(t) && t@ == spec_result_body(spec_hello_phrase(args@[2]@))),
        args@.len() == 2 && args@[1]@ == "print"@ ==> (r matches RouteAction::ShowError(m) && m@ == "Error: Missing second argument for print."@),
        args@.len() >= 3 && args@[1]@ == "upper"@ && spec_upper(args@[2]@) != args@[2]@ ==> (r matches RouteAction::ShowText(t) && t@ == spec_result_body(
            spec_hello_phrase(spec_upper(args@[2]@)),
        )),
        args@.len() >= 3 && args@[1]@ == "upper"@ && spec_upper(args@[2]@) == args@[2]@ ==> (r matches RouteAction::ShowError(m) && m@ == "Error: "@ + spec_uppercase_error(
            args@[2]@,
        )),
        args@.len() == 2 && args@[1]@ == "upper"@ ==> (r matches RouteAction::ShowError(m) && m@ == "Error: Missing second argument for upper."@),
        args@.len() >= 2 && spec_unrecognized(args@[1]@) ==> (r matches RouteAction::ShowError(m) && m@ == spec_unrecognized_error()),
{
    proof {
        lemma_tokens_distinct();
    }
    if args.len() <= 1 {
        RouteAction::RenderPage(page_with_inputs())
    } else if str_eq(args[1].as_str(), "page_with_inputs") {
        RouteAction::RenderPage(page_with_inputs())
    } else if str_eq(args[1].as_str(), "help") {
        RouteAction::ShowText(print_help())
    } else if str_eq(args[1].as_str(), "print") {
        if args.len() >= 3 {
            RouteAction::ShowText(print_greet_name(args[2].as_str()))
        } else {
            RouteAction::ShowError(String::from_str("Error: Missing second argument for print."))
        }
    } else if str_eq(args[1].as_str(), "upper") {
        if args.len() >= 3 {
            match upper_greet_name(args[2].as_str()) {
                Ok(t) => RouteAction::ShowText(t),
                Err(e) => {
                    let mut s = String::from_str("Error: ");
                    let m = e.message();
                    s.append(m.as_str());
                    RouteAction::ShowError(s)
                },
            }
        } else {
            RouteAction::ShowError(String::from_str("Error: Missing second argument for upper."))
        }
    } else {
        RouteAction::ShowError(
            String::from_str(
                "Error: Unrecognized arguments. Try \n http://localhost:4000/snake_bevy_wasm_pwa/#help",
            ),
        )
    }
}

/// What a click on the Run button asks the surrounding page to do.
#[derive(Debug)]
pub enum ClickAction {
    /// Navigate to this URL.
    OpenUrl(String),
    /// Show this message in the error display area.
    ShowError(String),
}

/// The URL that carries the two arguments as a hash fragment.
pub open spec fn spec_run_url(a1: Seq<char>, a2: Seq<char>) -> Seq<char> {
    "/snake_bevy_wasm_pwa/#"@ + a1 + "/"@ + a2
}

/// Decides what the Run button does for the two input values: with both
/// present, navigate to the URL that carries them as a hash fragment;
/// otherwise report that both are mandatory.
pub fn on_click_btn_run(arg_1: &str, arg_2: &str) -> (r: ClickAction)
    ensures
        arg_1@.len() > 0 && arg_2@.len() > 0 ==> (r matches ClickAction::OpenUrl(u) && u@ == spec_run_url(arg_1@, arg_2@)),
        arg_1@.len() == 0 || arg_2@.len() == 0 ==> (r matches ClickAction::ShowError(m) && m@ == "Error: Both arguments are mandatory."@),
{
    if !arg_1.is_empty() && !arg_2.is_empty() {
        let mut url = String::from_str("/snake_bevy_wasm_pwa/#");
        url.append(arg_1);
        url.append("/");
        url.append(arg_2);
        ClickAction::OpenUrl(url)
    } else {
        ClickAction::ShowError(String::from_str("Error: Both arguments are mandatory."))
    }
}

} // verus!
