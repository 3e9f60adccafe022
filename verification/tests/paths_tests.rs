use dfx::paths::join_path;

#[test]
fn child_follows_base_after_one_separator() {
    assert_eq!(join_path("/cfg", "identity"), "/cfg/identity");
    assert_eq!(join_path("/cfg/", "identity"), "/cfg/identity");
    assert_eq!(join_path("cfg", "identity.json"), "cfg/identity.json");
    assert_eq!(join_path("/", "cfg"), "/cfg");
    assert_eq!(join_path("/cfg", "a/b"), "/cfg/a/b");
    assert_eq!(join_path("/cfg", "日本"), "/cfg/日本");
    assert_eq!(join_path("/日本", "x"), "/日本/x");
}

#[test]
fn absolute_child_stands_for_itself() {
    assert_eq!(join_path("/cfg", "/etc"), "/etc");
    assert_eq!(join_path("", "/etc"), "/etc");
    assert_eq!(join_path("/cfg", "/"), "/");
}

#[test]
fn child_stands_alone_under_the_empty_base() {
    assert_eq!(join_path("", "identity"), "identity");
    assert_eq!(join_path("", ""), "");
}

#[test]
fn empty_child_leaves_the_base_open() {
    assert_eq!(join_path("/cfg", ""), "/cfg/");
    assert_eq!(join_path("/cfg/", ""), "/cfg/");
}

#[test]
fn join_agrees_with_std_on_unix() {
    let bases = ["", "/", "/cfg", "/cfg/", "cfg", "a/b", "/日本"];
    let children = ["", "x", "/x", "x/y", "identity.pem", "日本", "/"];
    for base in bases {
        for child in children {
            let expected = std::path::Path::new(base).join(child);
            assert_eq!(
                join_path(base, child),
                expected.to_str().unwrap(),
                "{:?} and {:?}",
                base,
                child
            );
        }
    }
}
