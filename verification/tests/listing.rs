use fetched::handler::{
    entry_name, list_collection_children, list_collections, without_slashes, DirEntry,
};

fn entry(path: &str, is_file: bool) -> DirEntry {
    DirEntry { path: path.to_string(), is_file }
}

#[test]
fn slashes_are_taken_out() {
    assert_eq!(without_slashes("/users"), "users");
    assert_eq!(without_slashes("/a/b/"), "ab");
    assert_eq!(without_slashes("plain"), "plain");
    assert_eq!(without_slashes("///"), "");
    assert_eq!(without_slashes(""), "");
    assert_eq!(without_slashes("/é€/𝄞"), "é€𝄞");
}

#[test]
fn entry_name_is_what_follows_the_directory() {
    assert_eq!(entry_name("/home/me/work/users", "/home/me/work"), Some(String::from("users")));
    assert_eq!(entry_name("/home/me/work", "/home/me/work"), Some(String::new()));
    assert_eq!(entry_name("/srv/é/x.json", "/srv/é"), Some(String::from("x.json")));
}

#[test]
fn entry_outside_the_directory_has_no_name() {
    assert_eq!(entry_name("/home/you/users", "/home/me"), None);
    assert_eq!(entry_name("/ho", "/home/me"), None);
    assert_eq!(entry_name("", "/"), None);
}

#[test]
fn collections_are_the_directories() {
    let entries = vec![
        entry("/work/users", false),
        entry("/work/theme.toml", true),
        entry("/work/orders", false),
        entry("/elsewhere/lost", false),
        entry("/work/runtime.log", true),
    ];
    assert_eq!(list_collections("/work", &entries), vec!["users", "orders"]);
}

#[test]
fn requests_are_the_files() {
    let entries = vec![
        entry("/work/users/login.json", true),
        entry("/work/users/drafts", false),
        entry("/work/users/signup.json", true),
    ];
    assert_eq!(
        list_collection_children("/work/users", &entries),
        vec!["login.json", "signup.json"]
    );
}

#[test]
fn an_empty_directory_lists_nothing() {
    assert_eq!(list_collections("/work", &Vec::new()), Vec::<String>::new());
    assert_eq!(list_collection_children("/work/users", &Vec::new()), Vec::<String>::new());
}
