use css_variables::cache::DirEntry;
use css_variables::search::BinarySearch;

fn dir(name: &str) -> DirEntry {
    DirEntry { name: name.to_string(), is_dir: true }
}

fn file(name: &str) -> DirEntry {
    DirEntry { name: name.to_string(), is_dir: false }
}

/// A small tree: what `list` gives for each directory.
fn list(path: &str) -> Vec<DirEntry> {
    match path {
        "root" => vec![file("README"), dir("docs"), dir("pkg")],
        "root/docs" => vec![file("server.md")],
        "root/pkg" => vec![dir("bin"), file("LICENSE")],
        "root/pkg/bin" => vec![file("helper"), file("server")],
        _ => Vec::new(),
    }
}

fn run(root: &str, name: &str) -> (Option<String>, Vec<String>) {
    let mut search = BinarySearch::new(root, name);
    let mut visited = Vec::new();
    while let Some(d) = search.next_dir() {
        visited.push(d.clone());
        if let Some(found) = search.visit(&d, &list(&d)) {
            return (Some(found), visited);
        }
    }
    (None, visited)
}

#[test]
fn search_starts_with_the_root() {
    let mut search = BinarySearch::new("root", "server");
    assert_eq!(search.binary_name, "server");
    assert_eq!(search.pending, vec!["root"]);
    assert_eq!(search.next_dir(), Some("root".to_string()));
    assert_eq!(search.next_dir(), None);
}

#[test]
fn search_finds_a_binary_deep_in_the_tree() {
    let (found, visited) = run("root", "server");
    assert_eq!(found, Some("root/pkg/bin/server".to_string()));
    assert_eq!(visited, vec!["root", "root/pkg", "root/pkg/bin"]);
}

#[test]
fn search_lists_every_directory_before_it_gives_up() {
    let (found, visited) = run("root", "missing");
    assert_eq!(found, None);
    assert_eq!(visited, vec!["root", "root/pkg", "root/pkg/bin", "root/docs"]);
}

#[test]
fn search_wants_a_file_of_exactly_that_name() {
    let mut search = BinarySearch::new("d", "server");
    let listing = vec![dir("server"), file("server.exe"), file("Server"), dir("sub")];
    assert_eq!(search.next_dir(), Some("d".to_string()));
    assert_eq!(search.visit("d", &listing), None);
    assert_eq!(search.pending, vec!["d/server", "d/sub"]);
}

#[test]
fn search_visit_leaves_the_work_list_alone_when_it_finds() {
    let mut search = BinarySearch::new("d", "server");
    search.next_dir();
    search.visit("d", &vec![dir("a"), dir("b")]);
    assert_eq!(search.pending, vec!["d/a", "d/b"]);
    let listing = vec![dir("c"), file("server"), file("server")];
    assert_eq!(search.visit("d/b", &listing), Some("d/b/server".to_string()));
    assert_eq!(search.pending, vec!["d/a", "d/b"]);
}

#[test]
fn search_across_roots_takes_them_in_order() {
    let roots = vec!["root/docs".to_string(), "root/pkg".to_string(), "root".to_string()];
    let mut search = BinarySearch::across(&roots, "server");
    assert_eq!(search.pending, vec!["root", "root/pkg", "root/docs"]);
    let mut visited = Vec::new();
    let mut found = None;
    while let Some(d) = search.next_dir() {
        visited.push(d.clone());
        found = search.visit(&d, &list(&d));
        if found.is_some() {
            break;
        }
    }
    assert_eq!(found, Some("root/pkg/bin/server".to_string()));
    assert_eq!(visited, vec!["root/docs", "root/pkg", "root/pkg/bin"]);
    let mut none = BinarySearch::across(&Vec::new(), "server");
    assert_eq!(none.next_dir(), None);
}
