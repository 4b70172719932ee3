use pg_index_import::collect::{collect_statements, has_sql_ext_exec, FsNode};

fn file(name: &str, content: &str) -> FsNode {
    FsNode::File {
        name: String::from(name),
        content: String::from(content),
    }
}

fn dir(name: &str, entries: Vec<FsNode>) -> FsNode {
    FsNode::Dir {
        name: String::from(name),
        entries,
    }
}

#[test]
fn extension_check_accepts_only_sql_files() {
    assert!(has_sql_ext_exec("a.sql"));
    assert!(has_sql_ext_exec("PK_Orders.sql"));
    assert!(!has_sql_ext_exec("notes.txt"));
    assert!(!has_sql_ext_exec("README"));
    assert!(!has_sql_ext_exec(".sql"));
    assert!(!has_sql_ext_exec("a.SQL"));
}

#[test]
fn collector_selects_sql_files_depth_first() {
    let root = String::from("INPUT");
    let entries = vec![
        file("a.sql", "CREATE INDEX a ON t (x);"),
        dir(
            "sub",
            vec![
                file("b.sql", "CREATE INDEX b ON t (y);"),
                file("notes.txt", "not a statement"),
            ],
        ),
        FsNode::Other {
            name: String::from("socket"),
        },
        file("README", "no extension"),
    ];
    let items = collect_statements(&root, &entries);
    assert_eq!(items.len(), 2);
    assert_eq!(items[0].label, "INPUT/a.sql");
    assert_eq!(items[0].statement, "CREATE INDEX a ON t (x);");
    assert_eq!(items[1].label, "INPUT/sub/b.sql");
    assert_eq!(items[1].statement, "CREATE INDEX b ON t (y);");
}

#[test]
fn collector_is_idempotent_on_an_unchanged_tree() {
    let root = String::from("INPUT");
    let entries = vec![
        file("one.sql", "SELECT 1;"),
        dir("nested", vec![dir("deeper", vec![file("two.sql", "SELECT 2;")])]),
    ];
    let first = collect_statements(&root, &entries);
    let second = collect_statements(&root, &entries);
    assert_eq!(first.len(), second.len());
    for (a, b) in first.iter().zip(second.iter()) {
        assert_eq!(a.label, b.label);
        assert_eq!(a.statement, b.statement);
    }
}

#[test]
fn collector_gathers_the_same_pairs_whatever_the_listing_order() {
    let root = String::from("INPUT");
    let one_order = vec![
        file("a.sql", "SELECT 1;"),
        file("b.sql", "SELECT 2;"),
        dir("sub", vec![file("c.sql", "SELECT 3;")]),
    ];
    let other_order = vec![
        dir("sub", vec![file("c.sql", "SELECT 3;")]),
        file("b.sql", "SELECT 2;"),
        file("a.sql", "SELECT 1;"),
    ];
    let mut first: Vec<(String, String)> = collect_statements(&root, &one_order)
        .into_iter()
        .map(|w| (w.label, w.statement))
        .collect();
    let mut second: Vec<(String, String)> = collect_statements(&root, &other_order)
        .into_iter()
        .map(|w| (w.label, w.statement))
        .collect();
    first.sort();
    second.sort();
    assert_eq!(first, second);
}

#[test]
fn collector_of_empty_tree_is_empty() {
    let root = String::from("INPUT");
    let entries: Vec<FsNode> = Vec::new();
    assert!(collect_statements(&root, &entries).is_empty());
}
