use agent_core::plan::parse_plan_lines;

fn plan(text: &str) -> Vec<String> {
    parse_plan_lines(text)
}

#[test]
fn plan_reads_bullets_and_numbers_in_order() {
    let text = "- Refactor parser\n1. Add tests\nrandom line\n* Update docs";
    assert_eq!(plan(text), vec!["Refactor parser", "Add tests", "Update docs"]);
}

#[test]
fn plan_of_empty_text_is_empty() {
    assert_eq!(plan(""), Vec::<String>::new());
    assert_eq!(plan("\n\n"), Vec::<String>::new());
}

#[test]
fn plan_trims_each_line() {
    let text = "   - indented  \n\t* tabbed\t\n  12. numbered \r\n";
    assert_eq!(plan(text), vec!["indented", "tabbed", "numbered"]);
}

#[test]
fn plan_needs_a_space_after_the_marker() {
    assert_eq!(plan("-no space\n*no space\n1.no space"), Vec::<String>::new());
}

#[test]
fn plan_takes_the_first_dot_space_only() {
    assert_eq!(plan("1. Add tests. Then more"), vec!["Add tests. Then more"]);
    assert_eq!(plan("a. b 1. c"), Vec::<String>::new());
    assert_eq!(plan("1a. mixed"), Vec::<String>::new());
}

#[test]
fn plan_accepts_an_empty_numeric_prefix() {
    assert_eq!(plan(". dotted"), vec!["dotted"]);
}

#[test]
fn plan_accepts_numerals_of_other_scripts() {
    assert_eq!(plan("\u{0663}. arabic-indic three"), vec!["arabic-indic three"]);
    assert_eq!(plan("\u{00BD}. one half"), vec!["one half"]);
}

#[test]
fn plan_bullet_wins_over_number() {
    assert_eq!(plan("- 1. nested"), vec!["1. nested"]);
    assert_eq!(plan("* "), Vec::<String>::new());
    assert_eq!(plan("- x"), vec!["x"]);
}

#[test]
fn plan_keeps_inner_white_space() {
    assert_eq!(plan("-  two spaces"), vec![" two spaces"]);
}

#[test]
fn plan_handles_text_beyond_ascii() {
    assert_eq!(plan("- caf\u{e9} \u{1F600}\n2. na\u{ef}ve"), vec!["caf\u{e9} \u{1F600}", "na\u{ef}ve"]);
}

#[test]
fn plan_trims_unicode_white_space() {
    assert_eq!(plan("\u{2003}- em space\u{00A0}"), vec!["em space"]);
}
