use modfetch::parser::{
    file_name_of_url, format_entry, link_from_body, pass_step, projects_from_body,
    record_download, search_url, versions_url, ClientError, Project,
};
use modfetch::text::{chars_of, string_of};
use modfetch::ui::{App, Key};

const SODIUM: &str = r#"{"hits":[{"project_id":"AANobbMI","title":"Sodium","description":"Fast rendering","versions":["1.20.1"],"downloads":1000000}],"total_hits":1}"#;

#[test]
fn search_response_gives_one_sodium_entry() {
    let projects = projects_from_body(SODIUM).unwrap();
    assert_eq!(projects.len(), 1);
    let p = &projects[0];
    assert_eq!(p.id, "AANobbMI");
    assert_eq!(p.title, "Sodium");
    assert_eq!(p.description, "Fast rendering");
    assert_eq!(p.versions, vec!["1.20.1".to_string()]);
    assert_eq!(p.downloads, 1000000);
    let mut app = App::new();
    app.handle_key(Key::Char('e'), true);
    app.send_query(&projects);
    assert_eq!(app.search_list().len(), 1);
    assert_eq!(app.search_list()[0].label, "Sodium (1000000 downloads) | AANobbMI");
}

#[test]
fn empty_hits_gives_no_projects() {
    assert_eq!(projects_from_body(r#"{"hits":[]}"#).unwrap().len(), 0);
}

#[test]
fn missing_or_non_array_hits_is_a_parse_error() {
    assert_eq!(projects_from_body(r#"{"total_hits":0}"#).err(), Some(ClientError::Parse));
    assert_eq!(projects_from_body(r#"{"hits":7}"#).err(), Some(ClientError::Parse));
    assert_eq!(projects_from_body("{}").err(), Some(ClientError::Parse));
}

#[test]
fn malformed_search_responses_are_parse_errors() {
    assert_eq!(projects_from_body("not json").err(), Some(ClientError::Parse));
    assert_eq!(projects_from_body("[1, 2]").err(), Some(ClientError::Parse));
    let no_title = r#"{"hits":[{"project_id":"a","description":"d","versions":[],"downloads":1}]}"#;
    assert_eq!(projects_from_body(no_title).err(), Some(ClientError::Parse));
    let bad_version = r#"{"hits":[{"project_id":"a","title":"t","description":"d","versions":[1],"downloads":1}]}"#;
    assert_eq!(projects_from_body(bad_version).err(), Some(ClientError::Parse));
    let float_downloads = r#"{"hits":[{"project_id":"a","title":"t","description":"d","versions":[],"downloads":1.5}]}"#;
    assert_eq!(projects_from_body(float_downloads).err(), Some(ClientError::Parse));
}

#[test]
fn link_comes_from_the_first_record_with_the_version() {
    let body = r#"[
        {"game_versions":["1.19.4"],"files":[{"url":"https://cdn.example/a/old.jar"}]},
        {"game_versions":["1.20","1.20.1"],"files":[{"url":"https://cdn.example/b/sodium.jar"},{"url":"https://cdn.example/b/other.jar"}]},
        {"game_versions":["1.20.1"],"files":[{"url":"https://cdn.example/c/later.jar"}]}
    ]"#;
    let link = link_from_body(body, &"1.20.1".to_string()).unwrap();
    assert_eq!(link, "https://cdn.example/b/sodium.jar");
}

#[test]
fn no_matching_version_gives_empty_link() {
    let body = r#"[{"game_versions":["1.19.4"],"files":[{"url":"https://cdn.example/a.jar"}]}]"#;
    assert_eq!(link_from_body(body, &"1.20.1".to_string()).unwrap(), "");
    let no_files = r#"[{"game_versions":["1.20.1"],"files":[]}]"#;
    assert_eq!(link_from_body(no_files, &"1.20.1".to_string()).unwrap(), "");
    assert_eq!(link_from_body("[]", &"1.20.1".to_string()).unwrap(), "");
}

#[test]
fn records_without_game_versions_are_parse_errors() {
    let v = "1.20.1".to_string();
    assert_eq!(link_from_body("[{}]", &v).err(), Some(ClientError::Parse));
    let later = r#"[
        {"game_versions":["1.20.1"],"files":[{"url":"https://cdn.example/a.jar"}]},
        {"files":[]}
    ]"#;
    assert_eq!(link_from_body(later, &v).err(), Some(ClientError::Parse));
    let not_array = r#"[{"game_versions":"1.20.1","files":[]}]"#;
    assert_eq!(link_from_body(not_array, &v).err(), Some(ClientError::Parse));
}

#[test]
fn malformed_files_of_the_chosen_record_are_parse_errors() {
    let v = "1.20.1".to_string();
    let no_files = r#"[{"game_versions":["1.20.1"]}]"#;
    assert_eq!(link_from_body(no_files, &v).err(), Some(ClientError::Parse));
    let no_url = r#"[{"game_versions":["1.20.1"],"files":[{"name":"a.jar"}]}]"#;
    assert_eq!(link_from_body(no_url, &v).err(), Some(ClientError::Parse));
    let url_not_text = r#"[{"game_versions":["1.20.1"],"files":[{"url":3}]}]"#;
    assert_eq!(link_from_body(url_not_text, &v).err(), Some(ClientError::Parse));
    let file_not_object = r#"[{"game_versions":["1.20.1"],"files":["a.jar"]}]"#;
    assert_eq!(link_from_body(file_not_object, &v).err(), Some(ClientError::Parse));
    let other_record = r#"[{"game_versions":["1.19"],"files":7},{"game_versions":["1.20.1"],"files":[{"url":"u/b.jar"}]}]"#;
    assert_eq!(link_from_body(other_record, &v).unwrap(), "u/b.jar");
}

#[test]
fn malformed_version_listings_are_parse_errors() {
    assert_eq!(link_from_body("{}", &"1.20.1".to_string()).err(), Some(ClientError::Parse));
    assert_eq!(link_from_body("[1]", &"1.20.1".to_string()).err(), Some(ClientError::Parse));
    assert_eq!(link_from_body("[", &"1.20.1".to_string()).err(), Some(ClientError::Parse));
}

#[test]
fn entry_labels_use_decimal_counts() {
    let mut p = Project {
        id: "id1".to_string(),
        title: "Lithium".to_string(),
        description: String::new(),
        versions: vec![],
        downloads: 0,
    };
    assert_eq!(format_entry(&p), "Lithium (0 downloads) | id1");
    p.downloads = 9071;
    assert_eq!(format_entry(&p), "Lithium (9071 downloads) | id1");
    p.downloads = -45;
    assert_eq!(format_entry(&p), "Lithium (-45 downloads) | id1");
    p.downloads = i64::MIN;
    assert_eq!(format_entry(&p), "Lithium (-9223372036854775808 downloads) | id1");
    p.downloads = i64::MAX;
    assert_eq!(format_entry(&p), "Lithium (9223372036854775807 downloads) | id1");
}

#[test]
fn addresses_are_built_from_their_parts() {
    assert_eq!(
        search_url("sodium"),
        "https://api.modrinth.com/v2/search?query=sodium&facets=[[\"categories:fabric\"],[\"project_type:mod\"]]"
    );
    assert_eq!(versions_url("AANobbMI"), "https://api.modrinth.com/v2/project/AANobbMI/version");
}

#[test]
fn file_names_are_the_last_path_segment() {
    assert_eq!(file_name_of_url("https://cdn.example/data/AANobbMI/sodium-0.5.jar"), "sodium-0.5.jar");
    assert_eq!(file_name_of_url("plain.jar"), "plain.jar");
    assert_eq!(file_name_of_url("https://cdn.example/dir/"), "");
    assert_eq!(file_name_of_url(""), "");
}

#[test]
fn text_conversions_keep_characters() {
    let cs = chars_of("aé日");
    assert_eq!(cs, vec!['a', 'é', '日']);
    assert_eq!(string_of(&cs), "aé日");
}

#[test]
fn download_pass_records_failures_and_goes_on() {
    let mut failed: Vec<(String, ClientError)> = Vec::new();
    let a = "a".to_string();
    let b = "b".to_string();
    let c = "c".to_string();
    let link = pass_step(&mut failed, &a, Ok("https://cdn.example/a.jar".to_string()));
    assert_eq!(link, Some("https://cdn.example/a.jar".to_string()));
    assert!(failed.is_empty());
    assert_eq!(pass_step(&mut failed, &b, Ok(String::new())), None);
    assert_eq!(pass_step(&mut failed, &c, Err(ClientError::Query)), None);
    record_download(&mut failed, &a, Ok(()));
    record_download(&mut failed, &a, Err(ClientError::Download));
    assert_eq!(
        failed,
        vec![
            (b, ClientError::ResolutionNotFound),
            (c, ClientError::Query),
            (a, ClientError::Download),
        ]
    );
}
