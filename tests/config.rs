use directories::BaseDirs;
use zapnote::casing::convert_case;
use zapnote::config::{
    alternate_path, command_folder_path, editor_command, template_folder_path, CaseStyle, GeneralConfig, Sub,
};

fn general() -> GeneralConfig {
    GeneralConfig {
        template_folder_path: "~/notes/templates".to_string(),
        editor: None,
        note_folder_path: "~/notes".to_string(),
        journal_folder_path: "/var/journal".to_string(),
        note_case_style: None,
    }
}

#[test]
fn test_alternate_path() {
    if let Some(base_dirs) = BaseDirs::new() {
        let home_dir = base_dirs.home_dir().to_str().unwrap();

        let path_formated = format!("{}{}", home_dir, "/foo/bar");

        assert_eq!(path_formated, alternate_path("~/foo/bar".to_owned(), Some(home_dir)))
    }

    assert_eq!("/foo/bar", alternate_path("/foo/bar".to_owned(), Some("/home/me")));
}

#[test]
fn home_expansion_only_for_leading_tilde_slash() {
    assert_eq!(alternate_path("~/a".to_string(), Some("/h")), "/h/a");
    assert_eq!(alternate_path("~a".to_string(), Some("/h")), "~a");
    assert_eq!(alternate_path("a/~/b".to_string(), Some("/h")), "a/~/b");
    assert_eq!(alternate_path("~/a".to_string(), None), "~/a");
    assert_eq!(alternate_path("~".to_string(), Some("/h")), "~");
}

#[test]
fn folders_chosen_by_command() {
    let g = general();
    assert_eq!(command_folder_path(&g, Sub::Note, Some("/home/me")), "/home/me/notes");
    assert_eq!(command_folder_path(&g, Sub::Journal, Some("/home/me")), "/var/journal");
    assert_eq!(template_folder_path(&g, Some("/home/me")), "/home/me/notes/templates");
}

#[test]
fn editor_falls_back_in_order() {
    assert_eq!(editor_command(&Some("hx".to_string()), Some("nano".to_string())), "hx");
    assert_eq!(editor_command(&Some(String::new()), Some("nano".to_string())), "nano");
    assert_eq!(editor_command(&None, Some("nano".to_string())), "nano");
    assert_eq!(editor_command(&None, None), "vi");
}

#[test]
fn title_recased_by_style() {
    assert_eq!(convert_case("My first note".to_string(), Some(CaseStyle::Kebab)), "my-first-note");
    assert_eq!(convert_case("My first note".to_string(), Some(CaseStyle::Snake)), "my_first_note");
    assert_eq!(convert_case("My first note".to_string(), Some(CaseStyle::Camel)), "myFirstNote");
    assert_eq!(convert_case("My first note".to_string(), Some(CaseStyle::Pascal)), "MyFirstNote");
    assert_eq!(convert_case("My first note".to_string(), Some(CaseStyle::Original)), "My first note");
    assert_eq!(convert_case("My first note".to_string(), None), "My first note");
}
