use tauri_named_invoke::{
    collect_names, command_names, command_names_each, generate_declaration, present_names,
    DECLARATION_FOOTER, DECLARATION_HEADER,
};

fn found(text: &str) -> Vec<String> {
    command_names(text)
}

#[test]
fn plain_and_qualified_markers_are_found_in_order() {
    let text = "use tauri::command;\n\n#[tauri::command]\nfn get_weather() -> String {\n    \"sunny\".to_string()\n}\n\n#[command]\nfn get_config() -> String {\n    \"config\".to_string()\n}\n";
    assert_eq!(found(text), vec!["get_weather", "get_config"]);
}

#[test]
fn whitespace_blank_lines_and_modifiers_may_separate_marker_and_fn() {
    let text = "#[command]\n\n\n   pub async fn load_all(x: u8) {}\n#[command]   fn   spaced() {}";
    assert_eq!(found(text), vec!["load_all", "spaced"]);
}

#[test]
fn comments_may_separate_marker_and_fn() {
    let text = "#[command]\n// fetches it\n/// more\n/* block */\nfn fetch() {}";
    assert_eq!(found(text), vec!["fetch"]);
}

#[test]
fn a_marker_with_arguments_is_found() {
    let text = "#[tauri::command(rename_all = \"snake_case\")]\nfn renamed() {}";
    assert_eq!(found(text), vec!["renamed"]);
}

#[test]
fn identifiers_keep_digits_underscores_and_hyphens() {
    assert_eq!(found("#[command]\nfn get_v2-x() {}"), vec!["get_v2-x"]);
}

#[test]
fn a_marker_without_a_following_fn_captures_nothing() {
    assert!(found("#[command]\nstruct Weather;\n").is_empty());
    assert!(found("#[command]\nconst X: u8 = 1;\nfn later() {}").is_empty());
    assert!(found("#[command]").is_empty());
}

#[test]
fn a_fn_without_a_marker_is_never_captured() {
    let text = "fn helper() {}\n#[test]\nfn other() {}\n#[command]\nfn exposed() {}\nfn after() {}";
    assert_eq!(found(text), vec!["exposed"]);
}

#[test]
fn an_empty_text_has_no_names() {
    assert!(found("").is_empty());
}

#[test]
fn names_follow_the_order_of_the_texts() {
    let sources = vec![
        "#[command]\nfn b() {}".to_string(),
        String::new(),
        "#[command]\nfn a() {}\n#[command]\nfn b() {}".to_string(),
    ];
    assert_eq!(collect_names(&sources), vec!["b", "a", "b"]);
    assert!(collect_names(&Vec::new()).is_empty());
}

#[test]
fn two_files_give_a_two_member_union() {
    let sources = vec![
        "#[tauri::command]\nfn get_weather() -> String { \"sunny\".into() }\n\n#[command]\nfn get_config() -> String { \"config\".into() }\n".to_string(),
        "fn main() {\n    run();\n}\n".to_string(),
    ];
    let doc = generate_declaration(&sources);
    assert_eq!(
        doc,
        format!("{}'get_weather'\n\t\t| 'get_config'{}", DECLARATION_HEADER, DECLARATION_FOOTER)
    );
    let again = generate_declaration(&sources);
    assert_eq!(doc, again);
}

#[test]
fn no_marked_function_gives_an_empty_union() {
    let sources = vec!["fn main() {}".to_string()];
    let doc = generate_declaration(&sources);
    assert_eq!(doc, format!("{}{}", DECLARATION_HEADER, DECLARATION_FOOTER));
    assert_eq!(generate_declaration(&Vec::new()), doc);
}

#[test]
fn each_text_gets_its_own_names() {
    let texts = vec![
        "#[command]\nfn one() {}".to_string(),
        "fn none() {}".to_string(),
        "#[tauri::command]\nfn two() {}\n#[command]\nfn three() {}".to_string(),
    ];
    let each = command_names_each(&texts);
    assert_eq!(each.len(), 3);
    assert_eq!(each[0], vec!["one"]);
    assert!(each[1].is_empty());
    assert_eq!(each[2], vec!["two", "three"]);
}

#[test]
fn matches_without_a_capture_are_left_out() {
    let caps = vec![Some("a".to_string()), None, Some("b".to_string())];
    assert_eq!(present_names(&caps), vec!["a", "b"]);
    assert!(present_names(&Vec::new()).is_empty());
}

#[test]
fn generics_and_parameters_end_the_name() {
    assert_eq!(found("#[command]\nfn get_config_v2<T>(x: T) {}\n"), vec!["get_config_v2"]);
}

#[test]
fn a_qualified_marker_with_arguments_is_found() {
    assert_eq!(found("#[tauri::command(async)]\nfn get_user() {}\n"), vec!["get_user"]);
}

#[test]
fn a_trailing_marker_or_one_before_another_item_gives_no_name() {
    let text = "#[command]\nconst LIMIT: u32 = 3;\nfn helper() {}\n#[command]\n";
    assert!(found(text).is_empty());
}

#[test]
fn duplicates_across_texts_are_kept() {
    let text = "#[command]\nfn ping() {}\n".to_string();
    let sources = vec![text.clone(), text];
    assert_eq!(
        generate_declaration(&sources),
        format!("{}'ping'\n\t\t| 'ping'{}", DECLARATION_HEADER, DECLARATION_FOOTER)
    );
}
