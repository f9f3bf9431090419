use prompt_line::path_format::{
    format_path, initial_of, render_component, render_plain, render_styled, starts_with,
    Emphasis, PathComponent, PathSegment,
};

fn comps(names: &[&str]) -> Vec<PathComponent> {
    names
        .iter()
        .map(|n| match *n {
            "." => PathComponent::CurDir,
            ".." => PathComponent::ParentDir,
            other => PathComponent::Normal(other.to_string()),
        })
        .collect()
}

fn seg(text: &str, emphasis: Emphasis) -> PathSegment {
    PathSegment { text: text.to_string(), emphasis }
}

#[test]
fn below_home_abbreviates_all_but_last() {
    let cur = comps(&["home", "alice", "proj", "src"]);
    let home = comps(&["home", "alice"]);
    let segs = format_path(&cur, Some(&home));
    assert_eq!(
        segs,
        vec![
            seg("~", Emphasis::Dimmed),
            seg("/", Emphasis::Dimmed),
            seg("p", Emphasis::Bold),
            seg("/", Emphasis::Dimmed),
            seg("src", Emphasis::Bold),
        ]
    );
    assert_eq!(render_plain(&segs), "~/p/src");
}

#[test]
fn at_home_is_single_bold_tilde() {
    let home = comps(&["home", "alice"]);
    let segs = format_path(&home, Some(&home));
    assert_eq!(segs, vec![seg("~", Emphasis::Bold)]);
    assert_eq!(render_plain(&segs), "~");
}

#[test]
fn root_without_home_is_single_bold_slash() {
    let segs = format_path(&Vec::new(), None);
    assert_eq!(segs, vec![seg("/", Emphasis::Bold)]);
    assert_eq!(render_plain(&segs), "/");
}

#[test]
fn root_outside_home_is_single_bold_slash() {
    let home = comps(&["home", "alice"]);
    let segs = format_path(&Vec::new(), Some(&home));
    assert_eq!(segs, vec![seg("/", Emphasis::Bold)]);
}

#[test]
fn outside_home_is_rooted_at_slash() {
    let cur = comps(&["usr", "local", "bin"]);
    let home = comps(&["home", "alice"]);
    let segs = format_path(&cur, Some(&home));
    assert_eq!(segs.len(), 7);
    assert_eq!(segs[0], seg("", Emphasis::Dimmed));
    assert_eq!(render_plain(&segs), "/u/l/bin");
}

#[test]
fn sibling_with_common_name_prefix_is_not_under_home() {
    let cur = comps(&["home", "alicexyz"]);
    let home = comps(&["home", "alice"]);
    let segs = format_path(&cur, Some(&home));
    assert_eq!(render_plain(&segs), "/h/alicexyz");
}

#[test]
fn separators_and_components_per_normal_component() {
    let cur = comps(&["a1", "b2", "c3", "d4", "e5"]);
    let segs = format_path(&cur, None);
    assert_eq!(segs.len(), 11);
    let seps = segs.iter().filter(|s| s.text == "/" && s.emphasis == Emphasis::Dimmed).count();
    assert_eq!(seps, 5);
    assert_eq!(render_plain(&segs), "/a/b/c/d/e5");
}

#[test]
fn dot_components_are_never_abbreviated() {
    let cur = comps(&["..", "x", ".", "y"]);
    let segs = format_path(&cur, None);
    assert_eq!(render_plain(&segs), "/../x/./y");
    let last_dots = comps(&["x", ".."]);
    assert_eq!(render_plain(&format_path(&last_dots, None)), "/x/..");
}

#[test]
fn formatting_twice_gives_identical_output() {
    let cur = comps(&["home", "alice", "proj", "src"]);
    let home = comps(&["home", "alice"]);
    let a = format_path(&cur, Some(&home));
    let b = format_path(&cur, Some(&home));
    assert_eq!(a, b);
    assert_eq!(render_styled(&a), render_styled(&b));
}

#[test]
fn abbreviation_keeps_a_whole_multibyte_character() {
    assert_eq!(initial_of(&"élan".to_string()), "é");
    assert_eq!(initial_of(&String::new()), "");
    let cur = comps(&["ünï", "x"]);
    assert_eq!(render_plain(&format_path(&cur, None)), "/ü/x");
}

#[test]
fn component_text_keeps_last_name_whole() {
    let c = PathComponent::Normal("proj".to_string());
    assert_eq!(render_component(&c, true), "proj");
    assert_eq!(render_component(&c, false), "p");
    assert_eq!(render_component(&PathComponent::ParentDir, false), "..");
}

#[test]
fn ancestor_check_is_componentwise() {
    let home = comps(&["home", "alice"]);
    assert!(starts_with(&comps(&["home", "alice", "x"]), &home));
    assert!(starts_with(&home, &home));
    assert!(!starts_with(&comps(&["home"]), &home));
    assert!(!starts_with(&comps(&["home", "bob"]), &home));
    assert!(starts_with(&home, &Vec::new()));
}

#[test]
fn styled_rendering_paints_each_segment() {
    let cur = comps(&["home", "alice", "proj", "src"]);
    let home = comps(&["home", "alice"]);
    let segs = format_path(&cur, Some(&home));
    let dim = |t: &str| format!("\x1b[2;38;5;7m{}\x1b[0m", t);
    let bold = |t: &str| format!("\x1b[1m{}\x1b[0m", t);
    let expected = format!("{}{}{}{}{}", dim("~"), dim("/"), bold("p"), dim("/"), bold("src"));
    assert_eq!(render_styled(&segs), expected);
}

#[test]
fn root_emphasis_is_unstyled() {
    let segs = vec![seg("/", Emphasis::Root)];
    assert_eq!(render_styled(&segs), "/");
}
