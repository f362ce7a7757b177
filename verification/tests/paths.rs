use pulsar::paths::{path_lt_exec, sorted_unique_paths};
use std::path::{Component, Path};

fn listing(p: &str) -> (Vec<(u8, String)>, String) {
    let comps = Path::new(p)
        .components()
        .map(|c| {
            let kind = match c {
                Component::Prefix(_) => 0,
                Component::RootDir => 1,
                Component::CurDir => 2,
                Component::ParentDir => 3,
                Component::Normal(_) => 4,
            };
            (kind, c.as_os_str().to_string_lossy().into_owned())
        })
        .collect();
    (comps, p.to_string())
}

#[test]
fn paths_sort_by_component_and_repeat_once() {
    let input = vec![
        listing("/var/log/z.log"),
        listing("/a.b"),
        listing("/a/b"),
        listing("/var//log/z.log"),
        listing("rel/x"),
        listing("/a/b"),
    ];
    let out: Vec<String> = sorted_unique_paths(input).into_iter().map(|(_, t)| t).collect();
    assert_eq!(out, vec!["/a/b", "/a.b", "/var/log/z.log", "rel/x"]);
    let mut std_sorted: Vec<std::path::PathBuf> =
        ["/var/log/z.log", "/a.b", "/a/b", "rel/x"].iter().map(|p| Path::new(p).to_path_buf()).collect();
    std_sorted.sort();
    let std_texts: Vec<String> = std_sorted.iter().map(|p| p.to_string_lossy().into_owned()).collect();
    assert_eq!(out, std_texts);
}

#[test]
fn path_order_compares_components() {
    assert!(path_lt_exec(&listing("/a/b").0, &listing("/a.b").0));
    assert!(!path_lt_exec(&listing("/a.b").0, &listing("/a/b").0));
    assert!(path_lt_exec(&listing("/a").0, &listing("/a/b").0));
    assert!(!path_lt_exec(&listing("/a/b").0, &listing("/a//b").0));
    assert!(sorted_unique_paths(Vec::new()).is_empty());
}
