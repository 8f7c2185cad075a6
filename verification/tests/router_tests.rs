use snake_bevy_wasm_pwa::greeting::LibraryError;
use snake_bevy_wasm_pwa::greeting::format_hello_phrase;
use snake_bevy_wasm_pwa::greeting::format_upper_hello_phrase;
use snake_bevy_wasm_pwa::router::ClickAction;
use snake_bevy_wasm_pwa::router::RouteAction;
use snake_bevy_wasm_pwa::router::get_args_from_hash_fragment;
use snake_bevy_wasm_pwa::router::header;
use snake_bevy_wasm_pwa::router::on_click_btn_run;
use snake_bevy_wasm_pwa::router::page_with_inputs;
use snake_bevy_wasm_pwa::router::print_examples_cmd;
use snake_bevy_wasm_pwa::router::print_greet_name;
use snake_bevy_wasm_pwa::router::print_help;
use snake_bevy_wasm_pwa::router::routing_by_arguments;
use snake_bevy_wasm_pwa::router::upper_greet_name;

const SENTINEL: &str = "snake_bevy_wasm_pwa";

fn args(tokens: &[&str]) -> Vec<String> {
    tokens.iter().map(|t| t.to_string()).collect()
}

#[test]
fn empty_hash_gives_the_sentinel_alone() {
    assert_eq!(get_args_from_hash_fragment(""), vec![SENTINEL.to_string()]);
}

#[test]
fn bare_hash_gives_one_empty_token() {
    assert_eq!(get_args_from_hash_fragment("#"), args(&[SENTINEL, ""]));
}

#[test]
fn hash_fragment_is_split_on_slashes() {
    assert_eq!(get_args_from_hash_fragment("#print/world"), args(&[SENTINEL, "print", "world"]));
}

#[test]
fn token_count_is_parts_plus_one() {
    // The fragment "a/b/c" has three `/`-separated parts; with the
    // sentinel in front the token list has four entries.
    let tokens = get_args_from_hash_fragment("#a/b/c");
    assert_eq!(tokens.len(), 3 + 1);
    let tokens = get_args_from_hash_fragment("#help");
    assert_eq!(tokens.len(), 1 + 1);
}

#[test]
fn no_argument_and_page_with_inputs_render_the_same_page() {
    let bare = match routing_by_arguments(args(&[SENTINEL])) {
        RouteAction::RenderPage(h) => h.get_html(),
        _ => panic!("expected the input page"),
    };
    let named = match routing_by_arguments(args(&[SENTINEL, "page_with_inputs"])) {
        RouteAction::RenderPage(h) => h.get_html(),
        _ => panic!("expected the input page"),
    };
    assert_eq!(bare, named);
}

#[test]
fn page_with_inputs_fills_every_placeholder() {
    let html = page_with_inputs().get_html();
    assert!(html.contains(r#"value="upper""#));
    assert!(html.contains(r#"value="world""#));
    assert!(html.contains(r#"<p class="small">bestia.dev</p>"#));
    assert!(!html.contains("{ph_"));
}

#[test]
fn help_routes_to_the_help_text() {
    match routing_by_arguments(args(&[SENTINEL, "help"])) {
        RouteAction::ShowText(t) => {
            assert_eq!(t, print_help());
            assert!(t.starts_with("Welcome to snake_bevy_wasm_pwa !"));
        }
        _ => panic!("expected the help text"),
    }
}

#[test]
fn print_without_a_name_reports_the_missing_argument() {
    match routing_by_arguments(args(&[SENTINEL, "print"])) {
        RouteAction::ShowError(m) => {
            assert_eq!(m, "Error: Missing second argument for print.");
        }
        _ => panic!("expected the missing-argument error"),
    }
}

#[test]
fn print_greets_the_given_name() {
    match routing_by_arguments(args(&[SENTINEL, "print", "world"])) {
        RouteAction::ShowText(t) => {
            assert_eq!(t, "The result is\nHello world!\n");
        }
        _ => panic!("expected the greeting"),
    }
}

#[test]
fn upper_greets_the_uppercased_name() {
    match routing_by_arguments(args(&[SENTINEL, "upper", "world"])) {
        RouteAction::ShowText(t) => {
            assert_eq!(t, "The result is\nHello WORLD!\n");
        }
        _ => panic!("expected the uppercased greeting"),
    }
}

#[test]
fn upper_of_an_uppercase_name_reports_the_transform_failure() {
    match routing_by_arguments(args(&[SENTINEL, "upper", "WORLD"])) {
        RouteAction::ShowError(m) => {
            assert_eq!(m, "Error: The name WORLD is already uppercase.");
        }
        _ => panic!("expected the transform failure"),
    }
}

#[test]
fn upper_without_a_name_reports_the_missing_argument() {
    match routing_by_arguments(args(&[SENTINEL, "upper"])) {
        RouteAction::ShowError(m) => {
            assert_eq!(m, "Error: Missing second argument for upper.");
        }
        _ => panic!("expected the missing-argument error"),
    }
}

#[test]
fn unrecognized_token_errors_regardless_of_further_tokens() {
    for extra in [vec![], vec!["a"], vec!["a", "b", "c"]] {
        let mut tokens = vec![SENTINEL, "bogus"];
        tokens.extend(extra);
        match routing_by_arguments(args(&tokens)) {
            RouteAction::ShowError(m) => {
                assert_eq!(
                    m,
                    "Error: Unrecognized arguments. Try \n http://localhost:4000/snake_bevy_wasm_pwa/#help"
                );
            }
            _ => panic!("expected the unrecognized-arguments error"),
        }
    }
}

#[test]
fn empty_second_token_is_unrecognized() {
    // A bare "#" leaves one empty token after the sentinel, which belongs
    // to no page.
    let tokens = get_args_from_hash_fragment("#");
    assert!(matches!(routing_by_arguments(tokens), RouteAction::ShowError(_)));
}

#[test]
fn print_ignores_tokens_after_the_name() {
    match routing_by_arguments(args(&[SENTINEL, "print", "world", "extra"])) {
        RouteAction::ShowText(t) => assert_eq!(t, "The result is\nHello world!\n"),
        _ => panic!("expected the greeting"),
    }
}

#[test]
fn full_dispatch_from_hash_to_greeting() {
    let tokens = get_args_from_hash_fragment("#upper/world");
    match routing_by_arguments(tokens) {
        RouteAction::ShowText(t) => assert_eq!(t, "The result is\nHello WORLD!\n"),
        _ => panic!("expected the uppercased greeting"),
    }
}

#[test]
fn full_dispatch_from_empty_hash_to_input_page() {
    let tokens = get_args_from_hash_fragment("");
    match routing_by_arguments(tokens) {
        RouteAction::RenderPage(h) => assert_eq!(h.get_html(), page_with_inputs().get_html()),
        _ => panic!("expected the input page"),
    }
}

#[test]
fn header_renders_home_and_help_links() {
    let html = header().get_html();
    assert!(html.contains(r##"<a href="/snake_bevy_wasm_pwa/#page_with_inputs">"##));
    assert!(html.contains(r##"<a href="/snake_bevy_wasm_pwa/#help">"##));
    assert!(html.contains(r#"<div id="div_body"></div>"#));
}

#[test]
fn examples_section_is_empty() {
    assert_eq!(print_examples_cmd(), "");
}

#[test]
fn run_button_builds_the_hash_url() {
    match on_click_btn_run("upper", "world") {
        ClickAction::OpenUrl(u) => assert_eq!(u, "/snake_bevy_wasm_pwa/#upper/world"),
        _ => panic!("expected a navigation"),
    }
}

#[test]
fn run_button_requires_both_arguments() {
    for (a, b) in [("", "world"), ("upper", ""), ("", "")] {
        match on_click_btn_run(a, b) {
            ClickAction::ShowError(m) => {
                assert_eq!(m, "Error: Both arguments are mandatory.");
            }
            _ => panic!("expected the mandatory-arguments error"),
        }
    }
}

#[test]
fn hello_phrase_wraps_the_name() {
    assert_eq!(format_hello_phrase("world"), "Hello world!");
    assert_eq!(format_hello_phrase(""), "Hello !");
}

#[test]
fn upper_hello_phrase_uppercases_or_refuses() {
    assert_eq!(format_upper_hello_phrase("world").unwrap(), "Hello WORLD!");
    match format_upper_hello_phrase("WORLD") {
        Err(e @ LibraryError::Uppercase(_)) => {
            assert_eq!(e.message(), "The name WORLD is already uppercase.");
        }
        _ => panic!("expected the uppercase refusal"),
    }
    // A name with no ASCII lowercase letter at all is refused too.
    assert!(format_upper_hello_phrase("123").is_err());
    // One lowercase letter anywhere is enough to be accepted.
    assert_eq!(format_upper_hello_phrase("WOrLD").unwrap(), "Hello WORLD!");
}

#[test]
fn greet_name_frames_the_phrase() {
    assert_eq!(print_greet_name("world"), "The result is\nHello world!\n");
}

#[test]
fn upper_greet_name_frames_or_fails() {
    assert_eq!(upper_greet_name("world").unwrap(), "The result is\nHello WORLD!\n");
    assert!(upper_greet_name("WORLD").is_err());
}
