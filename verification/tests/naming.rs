use icon_compositor::naming::{
    derived_file_name, output_path_for, resolve_output_directory, NamingScheme,
};

fn text(s: &str) -> Option<String> {
    Some(s.to_string())
}

#[test]
fn icon_stem_scheme_names_the_file_after_the_icon() {
    let name = derived_file_name(NamingScheme::IconStem, &text("me"), &text("cat"));
    assert_eq!(name, text("cat.png"));
    let name = derived_file_name(NamingScheme::IconStem, &None, &text("cat"));
    assert_eq!(name, text("cat.png"));
    let name = derived_file_name(NamingScheme::IconStem, &text("me"), &text(""));
    assert_eq!(name, text(".png"));
}

#[test]
fn profile_and_icon_stem_scheme_joins_both_with_an_underscore() {
    let name = derived_file_name(NamingScheme::ProfileAndIconStem, &text("me"), &text("cat"));
    assert_eq!(name, text("me_cat.png"));
    let name = derived_file_name(NamingScheme::ProfileAndIconStem, &text("a.b"), &text("c d"));
    assert_eq!(name, text("a.b_c d.png"));
}

#[test]
fn there_is_no_name_without_the_stems_it_is_made_of() {
    assert_eq!(derived_file_name(NamingScheme::IconStem, &text("me"), &None), None);
    assert_eq!(derived_file_name(NamingScheme::ProfileAndIconStem, &text("me"), &None), None);
    assert_eq!(derived_file_name(NamingScheme::ProfileAndIconStem, &None, &text("cat")), None);
    assert_eq!(derived_file_name(NamingScheme::ProfileAndIconStem, &None, &None), None);
}

#[test]
fn output_directory_is_the_one_asked_for() {
    let dir = resolve_output_directory(&text("elsewhere/out"), "pictures/me.jpg");
    assert_eq!(dir, "elsewhere/out");
}

#[test]
fn output_directory_defaults_to_the_picture_path_without_extension() {
    assert_eq!(resolve_output_directory(&None, "pictures/me.jpg"), "pictures/me");
    assert_eq!(resolve_output_directory(&None, "me.tar.gz"), "me.tar");
    assert_eq!(resolve_output_directory(&None, "me"), "me");
    assert_eq!(resolve_output_directory(&None, "/abs/dir.d/me.png"), "/abs/dir.d/me");
}

#[test]
fn output_path_puts_the_derived_name_into_the_directory() {
    let path = output_path_for(NamingScheme::IconStem, "out", "pictures/me.jpg", "icons/cat.svg");
    assert_eq!(path, text("out/cat.png"));
    let path = output_path_for(
        NamingScheme::ProfileAndIconStem,
        "out",
        "pictures/me.jpg",
        "icons/cat.svg",
    );
    assert_eq!(path, text("out/me_cat.png"));
    let path = output_path_for(NamingScheme::IconStem, "a/b", "me.jpg", "cat.tar.gz");
    assert_eq!(path, text("a/b/cat.tar.png"));
    let path = output_path_for(NamingScheme::IconStem, "", "me.jpg", "cat");
    assert_eq!(path, text("cat.png"));
}

#[test]
fn output_path_needs_a_file_stem() {
    assert_eq!(output_path_for(NamingScheme::IconStem, "out", "me.jpg", "icons/.."), None);
    assert_eq!(output_path_for(NamingScheme::IconStem, "out", "me.jpg", ""), None);
    let path = output_path_for(NamingScheme::IconStem, "out", "..", "cat.png");
    assert_eq!(path, text("out/cat.png"));
    let path = output_path_for(NamingScheme::ProfileAndIconStem, "out", "..", "cat.png");
    assert_eq!(path, None);
}
