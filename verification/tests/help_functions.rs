use czkawka_gui::help_functions::{
    ColumnsBigFiles, ColumnsDirectory, ColumnsDuplicates, ColumnsEmptyFiles, ColumnsEmptyFolders,
    ColumnsSameMusic, ColumnsSimilarImages, ColumnsTemporaryFiles, ColumnsZeroedFiles, find_switch, get_string_from_list_store, get_text_from_similarity,
    print_text_messages_to_text_view, select_function_duplicates, select_function_same_music,
    select_function_similar_images, set_buttons, split_path, Messages, Similarity,
    HEADER_ROW_COLOR, MAIN_ROW_COLOR, TEXT_COLOR,
};

fn strings(items: &[&str]) -> Vec<String> {
    items.iter().map(|s| s.to_string()).collect()
}

#[test]
fn list_store_rows_are_joined_by_commas() {
    assert_eq!(get_string_from_list_store(&strings(&[])), "");
    assert_eq!(get_string_from_list_store(&strings(&["/a"])), "/a");
    assert_eq!(get_string_from_list_store(&strings(&["/a", "/b c", ""])), "/a,/b c,");
    assert_eq!(get_string_from_list_store(&strings(&["", ""])), ",");
}

#[test]
fn split_path_shows_directory_and_name() {
    assert_eq!(
        split_path(Some("/home/a".to_string()), Some("f.txt".to_string())),
        ("/home/a".to_string(), "f.txt".to_string())
    );
    assert_eq!(split_path(Some("/home".to_string()), None), ("/home".to_string(), String::new()));
    assert_eq!(split_path(None, Some("f".to_string())), (String::new(), String::new()));
    assert_eq!(split_path(None, None), (String::new(), String::new()));
}

#[test]
fn message_pane_shows_each_kind_under_its_title() {
    let all = Messages {
        messages: strings(&["m1", "m2"]),
        warnings: strings(&["w1"]),
        errors: strings(&["e1"]),
    };
    assert_eq!(
        print_text_messages_to_text_view(&all),
        "############### MESSAGES ###############\nm1\nm2\n\n\
         ############### WARNINGS ###############\nw1\n\n\
         ############### ERRORS ###############\ne1\n\n"
    );
}

#[test]
fn message_pane_leaves_out_a_kind_with_nothing_to_say() {
    let none = Messages { messages: vec![], warnings: vec![], errors: vec![] };
    assert_eq!(print_text_messages_to_text_view(&none), "");
    let errors_only = Messages { messages: vec![], warnings: vec![], errors: strings(&["bad"]) };
    assert_eq!(
        print_text_messages_to_text_view(&errors_only),
        "############### ERRORS ###############\nbad\n\n"
    );
}

#[test]
fn header_rows_cannot_be_selected() {
    assert_eq!(TEXT_COLOR, "#ffffff");
    assert_eq!(MAIN_ROW_COLOR, "#343434");
    assert_eq!(HEADER_ROW_COLOR, "#272727");
    for select in [
        select_function_duplicates,
        select_function_same_music,
        select_function_similar_images,
    ] {
        assert!(!select(HEADER_ROW_COLOR));
        assert!(select(MAIN_ROW_COLOR));
        assert!(select(TEXT_COLOR));
        assert!(select(""));
        assert!(select("#27272"));
        assert!(select("#2727270"));
    }
}

#[test]
fn buttons_are_shown_as_the_table_says() {
    let table = vec![
        ("search".to_string(), true),
        ("stop".to_string(), false),
        ("delete".to_string(), true),
        ("stop".to_string(), true),
    ];
    let names = strings(&["stop", "delete", "search"]);
    assert_eq!(set_buttons(&table, &names, 3), vec![false, true, true]);
    assert_eq!(set_buttons(&table, &names, 2), vec![false, true]);
    assert_eq!(set_buttons(&table, &names, 0), Vec::<bool>::new());
    assert_eq!(find_switch(&table, &"stop".to_string()), Some(false));
    assert_eq!(find_switch(&table, &"save".to_string()), None);
    assert_eq!(find_switch(&Vec::new(), &"stop".to_string()), None);
}

#[test]
fn similarity_has_a_readable_name() {
    assert_eq!(get_text_from_similarity(&Similarity::Original), "Original");
    assert_eq!(get_text_from_similarity(&Similarity::Minimal), "Minimal");
    assert_eq!(get_text_from_similarity(&Similarity::VerySmall), "Very Small");
    assert_eq!(get_text_from_similarity(&Similarity::Small), "Small");
    assert_eq!(get_text_from_similarity(&Similarity::Medium), "Medium");
    assert_eq!(get_text_from_similarity(&Similarity::High), "High");
    assert_eq!(get_text_from_similarity(&Similarity::VeryHigh), "Very High");
}

#[test]
fn columns_are_numbered_from_zero_in_their_order() {
    assert_eq!(ColumnsDuplicates::Name as i32, 0);
    assert_eq!(ColumnsDuplicates::Path as i32, 1);
    assert_eq!(ColumnsDuplicates::Modification as i32, 2);
    assert_eq!(ColumnsDuplicates::ModificationAsSecs as i32, 3);
    assert_eq!(ColumnsDuplicates::Color as i32, 4);
    assert_eq!(ColumnsDuplicates::TextColor as i32, 5);
    assert_eq!(ColumnsEmptyFolders::Name as i32, 0);
    assert_eq!(ColumnsEmptyFolders::Modification as i32, 2);
    assert_eq!(ColumnsDirectory::Path as i32, 0);
    assert_eq!(ColumnsBigFiles::Size as i32, 0);
    assert_eq!(ColumnsBigFiles::Modification as i32, 3);
    assert_eq!(ColumnsEmptyFiles::Name as i32, 0);
    assert_eq!(ColumnsEmptyFiles::Modification as i32, 2);
    assert_eq!(ColumnsTemporaryFiles::Name as i32, 0);
    assert_eq!(ColumnsTemporaryFiles::Modification as i32, 2);
    assert_eq!(ColumnsSimilarImages::Similarity as i32, 0);
    assert_eq!(ColumnsSimilarImages::Color as i32, 7);
    assert_eq!(ColumnsSimilarImages::TextColor as i32, 8);
    assert_eq!(ColumnsZeroedFiles::Size as i32, 0);
    assert_eq!(ColumnsZeroedFiles::Modification as i32, 3);
    assert_eq!(ColumnsSameMusic::Size as i32, 0);
    assert_eq!(ColumnsSameMusic::Color as i32, 10);
    assert_eq!(ColumnsSameMusic::TextColor as i32, 11);
}
