use actix_restful::scaffold::{fill_model_template, model_file_name, render_model, replace_all, Opt};

#[test]
fn replaces_every_occurrence() {
    assert_eq!(replace_all("a{entity}b{entity}", "{entity}", "X"), "aXbX");
    assert_eq!(replace_all("aaa", "aa", "b"), "ba");
    assert_eq!(replace_all("abc", "", "z"), "abc");
    assert_eq!(replace_all("", "x", "z"), "");
    assert_eq!(replace_all("{entity_lower_case}", "{entity}", "X"), "{entity_lower_case}");
}

#[test]
fn fills_the_template() {
    let text = fill_model_template("Book", "book");
    assert!(text.contains("pub struct Book {"));
    assert!(text.contains("pub struct NewBook {}"));
    assert!(text.contains("pub struct UpdatableBook {"));
    assert!(text.contains("String::from(\"book\")"));
    assert!(!text.contains("{entity}"));
    assert!(!text.contains("{entity_lower_case}"));
}

#[test]
fn renders_with_the_lower_case_name() {
    let text = render_model("BookShelf");
    assert!(text.contains("pub struct BookShelf {"));
    assert!(text.contains("String::from(\"bookshelf\")"));
}

#[test]
fn names_the_output_file() {
    assert_eq!(model_file_name("Book"), "Book.rs");
    let (file, text) = Opt::GenerateModel { name: "Cat".to_string() }.output();
    assert_eq!(file, "Cat.rs");
    assert!(text.contains("String::from(\"cat\")"));
}
