use dockergen::detect::{detect_stack, parse_cargo_package_name, Stack};

fn files(names: &[&str]) -> Vec<String> {
    names.iter().map(|s| s.to_string()).collect()
}

#[test]
fn detects_rust_from_cargo_toml() {
    assert_eq!(
        detect_stack(&files(&["Cargo.toml", "src"])),
        Some(Stack::Rust)
    );
}

#[test]
fn detects_go_from_go_mod() {
    assert_eq!(
        detect_stack(&files(&["go.mod", "main.go"])),
        Some(Stack::Go)
    );
}

#[test]
fn node_package_manager_detected_from_lockfile() {
    assert_eq!(
        detect_stack(&files(&["package.json", "bun.lock"])),
        Some(Stack::NodeBun)
    );
    assert_eq!(
        detect_stack(&files(&["package.json", "pnpm-lock.yaml"])),
        Some(Stack::NodePnpm)
    );
    assert_eq!(
        detect_stack(&files(&["package.json", "yarn.lock"])),
        Some(Stack::NodeYarn)
    );
    assert_eq!(
        detect_stack(&files(&["package.json", "package-lock.json"])),
        Some(Stack::NodeNpm)
    );
}

#[test]
fn node_with_no_lockfile_at_all_defaults_to_npm() {
    assert_eq!(
        detect_stack(&files(&["package.json"])),
        Some(Stack::NodeNpm)
    );
}

#[test]
fn python_detected_from_either_marker_file() {
    assert_eq!(
        detect_stack(&files(&["pyproject.toml"])),
        Some(Stack::Python)
    );
    assert_eq!(
        detect_stack(&files(&["requirements.txt"])),
        Some(Stack::Python)
    );
}

#[test]
fn rust_takes_priority_when_multiple_markers_somehow_coexist() {
    assert_eq!(
        detect_stack(&files(&["Cargo.toml", "package.json"])),
        Some(Stack::Rust)
    );
}

#[test]
fn no_recognized_marker_files_is_none() {
    assert_eq!(detect_stack(&files(&["README.md", "LICENSE"])), None);
}

#[test]
fn parses_package_name_from_a_realistic_cargo_toml() {
    let toml = "[package]\nname = \"pgqueue\"\nversion = \"0.1.0\"\nedition = \"2021\"\n\n[dependencies]\nname = \"not-this-one\"\n";
    assert_eq!(parse_cargo_package_name(toml), Some("pgqueue".to_string()));
}

#[test]
fn missing_package_section_yields_none() {
    assert_eq!(
        parse_cargo_package_name("[dependencies]\nserde = \"1\"\n"),
        None
    );
}

#[test]
fn detection_does_not_depend_on_the_order_of_names() {
    let a = detect_stack(&files(&["yarn.lock", "README.md", "package.json"]));
    let b = detect_stack(&files(&["package.json", "yarn.lock", "README.md", "yarn.lock"]));
    assert_eq!(a, Some(Stack::NodeYarn));
    assert_eq!(a, b);
}

#[test]
fn go_takes_priority_over_node_and_python() {
    assert_eq!(
        detect_stack(&files(&["requirements.txt", "package.json", "go.mod"])),
        Some(Stack::Go)
    );
}

#[test]
fn node_takes_priority_over_python() {
    assert_eq!(
        detect_stack(&files(&["pyproject.toml", "package.json", "pnpm-lock.yaml"])),
        Some(Stack::NodePnpm)
    );
}

#[test]
fn bun_binary_lockfile_is_bun_and_bun_wins_over_other_lockfiles() {
    assert_eq!(
        detect_stack(&files(&["package.json", "bun.lockb"])),
        Some(Stack::NodeBun)
    );
    assert_eq!(
        detect_stack(&files(&["yarn.lock", "pnpm-lock.yaml", "bun.lock", "package.json"])),
        Some(Stack::NodeBun)
    );
    assert_eq!(
        detect_stack(&files(&["yarn.lock", "pnpm-lock.yaml", "package.json"])),
        Some(Stack::NodePnpm)
    );
}

#[test]
fn lockfile_without_package_json_is_not_node() {
    assert_eq!(detect_stack(&files(&["yarn.lock", "bun.lock"])), None);
    assert_eq!(detect_stack(&files(&[])), None);
}

#[test]
fn marker_names_must_match_exactly() {
    assert_eq!(detect_stack(&files(&["cargo.toml", "Cargo.toml.bak", "go.mod "])), None);
}

#[test]
fn stack_names() {
    assert_eq!(Stack::Rust.name(), "Rust");
    assert_eq!(Stack::NodeNpm.name(), "Node (npm)");
    assert_eq!(Stack::NodeYarn.name(), "Node (yarn)");
    assert_eq!(Stack::NodePnpm.name(), "Node (pnpm)");
    assert_eq!(Stack::NodeBun.name(), "Node (bun)");
    assert_eq!(Stack::Python.name(), "Python");
    assert_eq!(Stack::Go.name(), "Go");
}

#[test]
fn a_name_under_another_table_is_never_taken() {
    let toml = "[dependencies]\nname = \"dep\"\n\n[package]\nversion = \"1\"\n";
    assert_eq!(parse_cargo_package_name(toml), None);
    let toml = "[dependencies]\nname = \"dep\"\n[package]\nname = \"real\"\n";
    assert_eq!(parse_cargo_package_name(toml), Some("real".to_string()));
}

#[test]
fn the_package_table_can_be_left_and_entered_again() {
    let toml = "[package]\nversion = \"1\"\n[lib]\nname = \"libname\"\n[package]\nname = \"again\"\n";
    assert_eq!(parse_cargo_package_name(toml), Some("again".to_string()));
}

#[test]
fn package_header_must_be_exact_after_trimming() {
    assert_eq!(parse_cargo_package_name("  [package]  \nname = \"a\"\n"), Some("a".to_string()));
    assert_eq!(parse_cargo_package_name("[package.metadata]\nname = \"a\"\n"), None);
    assert_eq!(parse_cargo_package_name("[ package ]\nname = \"a\"\n"), None);
}

#[test]
fn first_name_with_a_value_wins() {
    let toml = "[package]\nname = \"\"\nname = \"second\"\nname = \"third\"\n";
    assert_eq!(parse_cargo_package_name(toml), Some("second".to_string()));
}

#[test]
fn value_spacing_and_quotes_are_trimmed() {
    assert_eq!(parse_cargo_package_name("[package]\n\tname=\"tight\""), Some("tight".to_string()));
    assert_eq!(parse_cargo_package_name("[package]\nname   =   'single'   \n"), Some("single".to_string()));
    assert_eq!(parse_cargo_package_name("[package]\nname = bare\n"), Some("bare".to_string()));
    assert_eq!(parse_cargo_package_name("[package]\r\nname = \"crlf\"\r\n"), Some("crlf".to_string()));
    assert_eq!(parse_cargo_package_name("[package]\nname = \"'both'\"\n"), Some("both".to_string()));
    assert_eq!(parse_cargo_package_name("[package]\nname = \" spaced \"\n"), Some(" spaced ".to_string()));
}

#[test]
fn unicode_whitespace_is_trimmed_and_unicode_names_survive() {
    assert_eq!(
        parse_cargo_package_name("\u{3000}[package]\u{a0}\nname\u{2003}= \"caf\u{e9}\"\u{2028}\n"),
        Some("caf\u{e9}".to_string())
    );
}

#[test]
fn lines_that_only_look_like_name_lines_are_skipped() {
    assert_eq!(parse_cargo_package_name("[package]\nnames = \"x\"\n"), None);
    assert_eq!(parse_cargo_package_name("[package]\nname \"x\"\n"), None);
    assert_eq!(parse_cargo_package_name("[package]\nname = \"\"\n"), None);
    assert_eq!(parse_cargo_package_name("[package]\nname = ''\n"), None);
    assert_eq!(parse_cargo_package_name("[package]\nname_x = \"x\"\n"), None);
    assert_eq!(parse_cargo_package_name("name = \"top\"\n[package]\n"), None);
    assert_eq!(parse_cargo_package_name(""), None);
}

#[test]
fn a_name_line_ending_the_text_is_read() {
    assert_eq!(parse_cargo_package_name("[package]\nname = \"last\""), Some("last".to_string()));
}
