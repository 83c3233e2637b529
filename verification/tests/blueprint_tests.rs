use engine_runtime::blueprint::{
    parse_blueprint_header, scan_for_actions, scan_for_zones, scan_stream_for_zones, ui_blueprint,
    BlueprintError, CODE_ACTION_ENUM, CODE_END, CODE_INTERACTIVE, CODE_NOT_DRAG, CODE_NOT_NONE,
    CODE_SELECTORS, CODE_SELECTOR_VARIANTS, CODE_START, CODE_VARIANTS, ZONE_ENUM_CLOSE,
    ZONE_ENUM_EMPTY, ZONE_ENUM_HEAD, ZONE_ENUM_OPEN,
};
use engine_runtime::names::SortedNames;
use engine_runtime::tokens::{Delimiter, Token};

fn ident(s: &str) -> Token {
    Token::Ident(s.to_string())
}

fn punct(c: char) -> Token {
    Token::Punct(c)
}

fn group(delimiter: Delimiter, stream: Vec<Token>, text: &str) -> Token {
    Token::Group { delimiter, stream, text: text.to_string() }
}

fn brace(stream: Vec<Token>) -> Token {
    group(Delimiter::Brace, stream, "body")
}

fn path(parts: &[&str]) -> Vec<Token> {
    let mut out = Vec::new();
    for (i, p) in parts.iter().enumerate() {
        if i > 0 {
            out.push(punct(':'));
            out.push(punct(':'));
        }
        out.push(ident(p));
    }
    out
}

fn names_of(set: &SortedNames) -> Vec<String> {
    let mut out = Vec::new();
    for i in 0..set.len() {
        out.push(set.get(i).clone());
    }
    out
}

fn actions_of(stream: &Vec<Token>) -> Vec<String> {
    let mut set = SortedNames::new();
    scan_for_actions(stream, &mut set);
    names_of(&set)
}

fn zones_of(stream: &Vec<Token>) -> Vec<String> {
    let mut zones = Vec::new();
    scan_for_zones(stream, &mut zones);
    zones
}

#[test]
fn action_after_action_field_takes_last_path_segment() {
    let mut s = vec![ident("action"), punct(':')];
    s.extend(path(&["EngineHeaderAction", "ToggleSettings"]));
    s.push(punct(','));
    assert_eq!(actions_of(&s), vec!["ToggleSettings".to_string()]);
}

#[test]
fn toggle_action_field_is_scanned() {
    let mut s = vec![ident("toggle_action"), punct(':')];
    s.extend(path(&["A", "B", "ToggleFpsMenu"]));
    assert_eq!(actions_of(&s), vec!["ToggleFpsMenu".to_string()]);
}

#[test]
fn names_ending_in_action_and_keywords_are_skipped() {
    let s = vec![
        ident("action"),
        punct(':'),
        ident("EngineHeaderAction"),
        punct(','),
        ident("action"),
        punct(':'),
        ident("if"),
        ident("x"),
    ];
    assert!(actions_of(&s).is_empty());
}

#[test]
fn at_sign_names_an_action_but_not_a_directive() {
    let mut s = vec![punct('@'), ident("to"), ident("primitives"), punct('@')];
    s.extend(path(&["Ns", "CloseWindow"]));
    s.push(punct('@'));
    s.push(ident("Minimize"));
    s.push(punct('@'));
    s.push(ident("match"));
    assert_eq!(actions_of(&s), vec!["CloseWindow".to_string(), "Minimize".to_string()]);
}

#[test]
fn action_at_sign_keeps_action_suffix() {
    // After `@` only keywords are skipped, names ending in `Action` are kept.
    let s = vec![punct('@'), ident("FooAction")];
    assert_eq!(actions_of(&s), vec!["FooAction".to_string()]);
}

#[test]
fn actions_in_nested_groups_are_found_sorted_and_once() {
    let inner = vec![ident("action"), punct(':'), ident("Zeta"), ident("action"), punct(':'), ident("Alpha")];
    let s = vec![
        brace(vec![group(Delimiter::Parenthesis, inner, "(...)")]),
        ident("action"),
        punct(':'),
        ident("Alpha"),
    ];
    assert_eq!(actions_of(&s), vec!["Alpha".to_string(), "Zeta".to_string()]);
}

#[test]
fn action_without_colon_is_not_scanned() {
    let s = vec![ident("action"), punct('='), ident("Go")];
    assert!(actions_of(&s).is_empty());
}

#[test]
fn zones_are_uppercase_names_before_braces_inside_ui_macros() {
    let layout = vec![
        ident("root"),
        brace(vec![
            ident("title"),
            punct(':'),
            ident("CustomTitle"),
            brace(vec![]),
            ident("Dropdown"),
            brace(vec![ident("Inner"), brace(vec![])]),
        ]),
        ident("if"),
        ident("Cond"),
        brace(vec![]),
        ident("let"),
        ident("r"),
        punct('='),
        ident("Rect"),
        brace(vec![]),
    ];
    let s = vec![brace(vec![ident("ui"), punct('!'), group(Delimiter::Parenthesis, layout, "(...)")])];
    assert_eq!(zones_of(&s), vec!["Dropdown".to_string(), "Inner".to_string()]);
}

#[test]
fn zones_outside_layout_macros_are_ignored() {
    let s = vec![ident("Header"), brace(vec![])];
    assert!(zones_of(&s).is_empty());
    let mut zones = Vec::new();
    scan_stream_for_zones(&s, &mut zones);
    assert_eq!(zones, vec!["Header".to_string()]);
}

#[test]
fn section_macro_is_scanned_for_zones() {
    let layout = vec![ident("Toolbar"), brace(vec![]), ident("lower"), brace(vec![])];
    let s = vec![ident("section"), punct('!'), group(Delimiter::Bracket, layout, "[...]")];
    assert_eq!(zones_of(&s), vec!["Toolbar".to_string()]);
}

#[test]
fn header_parse_errors() {
    let r = parse_blueprint_header(&vec![]);
    assert_eq!(r.err(), Some(BlueprintError::MissingComponentName));
    let r = parse_blueprint_header(&vec![punct(','), brace(vec![])]);
    assert_eq!(r.err(), Some(BlueprintError::MissingComponentName));
    let r = parse_blueprint_header(&vec![ident("C"), punct(','), ident("zones"), punct(';')]);
    assert_eq!(r.err(), Some(BlueprintError::ExpectedColon));
    let r = parse_blueprint_header(&vec![
        ident("C"),
        punct(','),
        ident("zones"),
        punct(':'),
        ident("Z"),
        punct(';'),
        brace(vec![]),
    ]);
    assert_eq!(r.err(), Some(BlueprintError::ExpectedComma));
    let r = parse_blueprint_header(&vec![ident("C"), group(Delimiter::Parenthesis, vec![], "()")]);
    assert_eq!(r.err(), Some(BlueprintError::ExpectedBody));
}

#[test]
fn header_parse_with_zone_enum() {
    let r = parse_blueprint_header(&vec![
        ident("C"),
        punct(','),
        ident("zones"),
        punct(':'),
        ident("Z"),
        punct(','),
        brace(vec![]),
    ])
    .ok()
    .unwrap();
    assert_eq!(r.component, "C");
    assert_eq!(r.zone_enum, Some("Z".to_string()));
    assert_eq!(r.body_index, 6);
    let r = parse_blueprint_header(&vec![ident("C"), brace(vec![])]).ok().unwrap();
    assert_eq!(r.zone_enum, None);
    assert_eq!(r.body_index, 1);
}

#[test]
fn expansion_without_zone_enum() {
    let body = group(Delimiter::Brace, vec![punct('@'), ident("Go")], "@ Go");
    let code = ui_blueprint(&vec![ident("Panel"), body]).ok().unwrap();
    let expected = [
        CODE_START,
        "",
        CODE_ACTION_ENUM,
        "PanelAction",
        CODE_VARIANTS,
        "Drag, Go, None",
        CODE_SELECTOR_VARIANTS,
        "PanelAction",
        CODE_INTERACTIVE,
        "PanelAction",
        CODE_NOT_NONE,
        "PanelAction",
        CODE_NOT_DRAG,
        "Panel",
        CODE_SELECTORS,
        "@ Go",
        CODE_END,
    ]
    .concat();
    assert_eq!(code, expected);
    assert!(code.contains("pub enum PanelAction {\n            Drag, Go, None,\n"));
}

#[test]
fn expansion_with_zone_enum() {
    let layout = vec![ident("Menu"), brace(vec![]), ident("Bar"), brace(vec![])];
    let body_stream = vec![ident("ui"), punct('!'), group(Delimiter::Parenthesis, layout, "(...)")];
    let tokens = vec![
        ident("Panel"),
        punct(','),
        ident("zones"),
        punct(':'),
        ident("PanelZone"),
        punct(','),
        group(Delimiter::Brace, body_stream, "ui ! (...)"),
    ];
    let code = ui_blueprint(&tokens).ok().unwrap();
    let zone_code = [ZONE_ENUM_HEAD, "PanelZone", ZONE_ENUM_OPEN, "Bar, Menu", ZONE_ENUM_CLOSE].concat();
    assert!(code.starts_with(&[CODE_START, zone_code.as_str(), CODE_ACTION_ENUM].concat()));
    assert!(code.contains("Drag, None,"));

    let empty = vec![ident("P"), punct(','), ident("zones"), punct(':'), ident("PZ"), punct(','), brace(vec![])];
    let code = ui_blueprint(&empty).ok().unwrap();
    let zone_code = [ZONE_ENUM_HEAD, "PZ", ZONE_ENUM_EMPTY].concat();
    assert!(code.starts_with(&[CODE_START, zone_code.as_str()].concat()));
}

#[test]
fn expansion_refuses_bad_invocation() {
    assert_eq!(ui_blueprint(&vec![ident("Panel")]).err(), Some(BlueprintError::ExpectedBody));
}

#[test]
fn layout_zones_keep_order_of_first_appearance() {
    // Header { title: CustomTitle { } } if Cond { } Footer { } Footer { } let r = Rect { }
    let s = vec![
        ident("Header"),
        brace(vec![ident("title"), punct(':'), ident("CustomTitle"), brace(vec![])]),
        ident("if"),
        ident("Cond"),
        brace(vec![]),
        ident("Footer"),
        brace(vec![]),
        ident("Footer"),
        brace(vec![]),
        ident("let"),
        ident("r"),
        punct('='),
        ident("Rect"),
        brace(vec![]),
    ];
    let mut zones = Vec::new();
    scan_stream_for_zones(&s, &mut zones);
    assert_eq!(zones, vec!["Header".to_string(), "Footer".to_string()]);
    // A zone already listed is not added again; new ones are appended.
    let mut zones = vec!["Footer".to_string(), "Aside".to_string()];
    scan_stream_for_zones(&s, &mut zones);
    assert_eq!(zones, vec!["Footer".to_string(), "Aside".to_string(), "Header".to_string()]);
}

#[test]
fn invocation_zones_keep_order_of_first_appearance() {
    // Outer { } fn f() { ui!(Header { } Footer { }) }
    let layout = vec![ident("Header"), brace(vec![]), ident("Footer"), brace(vec![])];
    let s = vec![
        ident("Outer"),
        brace(vec![]),
        ident("fn"),
        ident("f"),
        group(Delimiter::Parenthesis, vec![], "()"),
        brace(vec![ident("ui"), punct('!'), group(Delimiter::Parenthesis, layout, "(...)")]),
    ];
    assert_eq!(zones_of(&s), vec!["Header".to_string(), "Footer".to_string()]);
}

#[test]
fn zone_names_start_with_an_uppercase_letter() {
    // Über { } über { } _Side { } ÉTÉ { }
    let layout = vec![
        ident("Über"),
        brace(vec![]),
        ident("über"),
        brace(vec![]),
        ident("_Side"),
        brace(vec![]),
        ident("ÉTÉ"),
        brace(vec![]),
    ];
    let mut zones = Vec::new();
    scan_stream_for_zones(&layout, &mut zones);
    assert_eq!(zones, vec!["Über".to_string(), "ÉTÉ".to_string()]);
}
