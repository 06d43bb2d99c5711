use yabs::{
    filename_for_dir_name, get_assumed_filename, get_assumed_filename_for_dir, parse_toml_file,
    IoError, YabsError,
};

#[test]
fn assumed_filename_for_a_project_directory() {
    assert_eq!(
        get_assumed_filename_for_dir("/home/user/myproject"),
        Some("myproject.toml".to_string())
    );
}

#[test]
fn assumed_filename_for_the_root_is_none() {
    assert_eq!(get_assumed_filename_for_dir("/"), None);
}

#[test]
fn assumed_filename_for_an_empty_path_is_none() {
    assert_eq!(get_assumed_filename_for_dir(""), None);
}

#[test]
fn assumed_filename_for_a_path_that_ends_in_the_parent_is_none() {
    assert_eq!(get_assumed_filename_for_dir("/home/user/.."), None);
    assert_eq!(get_assumed_filename_for_dir(".."), None);
}

#[test]
fn assumed_filename_ignores_a_trailing_separator() {
    assert_eq!(
        get_assumed_filename_for_dir("/home/user/myproject/"),
        Some("myproject.toml".to_string())
    );
}

#[test]
fn assumed_filename_for_a_relative_directory() {
    assert_eq!(get_assumed_filename_for_dir("work/app"), Some("app.toml".to_string()));
    assert_eq!(get_assumed_filename_for_dir("app"), Some("app.toml".to_string()));
}

#[test]
fn assumed_filename_is_built_on_the_whole_last_component() {
    assert_eq!(
        get_assumed_filename_for_dir("/srv/site.old"),
        Some("site.old.toml".to_string())
    );
    assert_eq!(
        get_assumed_filename_for_dir("/home/user/.config"),
        Some(".config.toml".to_string())
    );
    assert_eq!(
        get_assumed_filename_for_dir("/opt/tool-1.2.3"),
        Some("tool-1.2.3.toml".to_string())
    );
}

#[test]
fn assumed_filename_passes_over_a_trailing_dot_component() {
    assert_eq!(
        get_assumed_filename_for_dir("/home/user/myproject/."),
        Some("myproject.toml".to_string())
    );
    assert_eq!(get_assumed_filename_for_dir("."), None);
}

#[test]
fn assumed_filename_of_the_current_directory() {
    assert_eq!(
        get_assumed_filename(Some("/home/user/myproject")),
        Some("myproject.toml".to_string())
    );
    assert_eq!(get_assumed_filename(Some("/")), None);
}

#[test]
fn assumed_filename_without_a_current_directory_is_none() {
    assert_eq!(get_assumed_filename(None), None);
}

#[test]
fn assumed_filename_agrees_with_the_one_for_a_directory() {
    for dir in ["/home/user/myproject", "/", "", "a/b/c", "/tmp/x.y.z", "/opt/.."] {
        assert_eq!(get_assumed_filename(Some(dir)), get_assumed_filename_for_dir(dir));
    }
}

#[test]
fn filename_for_a_directory_name_appends_the_extension() {
    assert_eq!(
        filename_for_dir_name(Some("myproject".to_string())),
        Some("myproject.toml".to_string())
    );
    assert_eq!(filename_for_dir_name(Some(String::new())), Some(".toml".to_string()));
    assert_eq!(filename_for_dir_name(Some("a.b".to_string())), Some("a.b.toml".to_string()));
}

#[test]
fn filename_for_no_directory_name_is_none() {
    assert_eq!(filename_for_dir_name(None), None);
}

#[test]
fn configuration_text_is_the_file_content() {
    let content = "[project]\nname = \"demo\"\nincludes = [\"a.h\", \"b.h\"]\n";
    assert_eq!(
        parse_toml_file(Ok(content.as_bytes().to_vec())),
        Ok(content.to_string())
    );
}

#[test]
fn configuration_text_of_an_empty_file_is_empty() {
    assert_eq!(parse_toml_file(Ok(Vec::new())), Ok(String::new()));
}

#[test]
fn configuration_that_is_not_text_is_refused() {
    assert_eq!(
        parse_toml_file(Ok(vec![0x5b, 0xff, 0x5d])),
        Err(YabsError::Io(IoError::InvalidUtf8))
    );
}

#[test]
fn configuration_that_could_not_be_opened_hands_the_failure_on() {
    let failure = IoError::Open("No such file or directory (os error 2)".to_string());
    assert_eq!(
        parse_toml_file(Err(failure)),
        Err(YabsError::Io(IoError::Open(
            "No such file or directory (os error 2)".to_string()
        )))
    );
}

#[test]
fn configuration_that_could_not_be_read_hands_the_failure_on() {
    assert_eq!(
        parse_toml_file(Err(IoError::Read("Is a directory (os error 21)".to_string()))),
        Err(YabsError::Io(IoError::Read("Is a directory (os error 21)".to_string())))
    );
}
