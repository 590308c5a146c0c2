use rclonedash::fs_tree::FileEntry;
use rclonedash::listing::{directory_listing, sort_entries, DirItem};

fn item(name: &str, is_dir: bool, size: u64) -> DirItem {
    DirItem { name: name.to_string(), is_dir, size, mtime: "2024-05-01 10:00".to_string() }
}

fn names(v: &[FileEntry]) -> Vec<String> {
    v.iter().map(|e| e.name.clone()).collect()
}

#[test]
fn listing_orders_parent_directories_then_files() {
    let items = vec![
        item("b.txt", false, 10),
        item("Zeta", true, 0),
        item(".git", true, 0),
        item("B.txt", false, 20),
        item("A", true, 0),
        item(".nomedia", false, 0),
        item("a.txt", false, 5),
    ];
    let filters = vec!["- *.txt".to_string()];
    let r = directory_listing("docs", &items, &filters);
    assert_eq!(
        names(&r),
        vec![".. (Dossier parent)", "A", "Zeta", ".nomedia", "a.txt", "b.txt", "B.txt"]
    );
    assert_eq!(r[0].rel_path, "..");
    assert!(r[0].is_dir && !r[0].ignored && r[0].size == 0 && r[0].mtime.is_empty());
    assert_eq!(r[1].rel_path, "docs/A");
    assert_eq!(r[4].rel_path, "docs/a.txt");
    assert_eq!(r[4].size, 5);
    assert!(r[4].ignored && r[6].ignored);
    assert!(!r[1].ignored && !r[3].ignored);
    assert_eq!(r[6].size, 20);
}

#[test]
fn listing_at_the_root_has_no_parent_entry() {
    let items = vec![item("x", false, 1), item(".hidden", false, 1), item("d", true, 0)];
    let filters = vec!["- /d/**".to_string()];
    let r = directory_listing("", &items, &filters);
    assert_eq!(names(&r), vec!["d", "x"]);
    assert_eq!(r[0].rel_path, "d");
    assert!(r[0].ignored);
    assert!(!r[1].ignored);
    assert!(directory_listing("", &Vec::new(), &filters).is_empty());
}

#[test]
fn sorting_is_stable_and_case_blind() {
    let e = |n: &str, d: bool| FileEntry {
        name: n.to_string(),
        rel_path: n.to_string(),
        is_dir: d,
        size: 0,
        mtime: String::new(),
        ignored: false,
    };
    let v = vec![e("ÉTÉ", false), e("abc", false), e("ABC", false), e("zz", true), e("été", false)];
    let r = sort_entries(&v);
    assert_eq!(names(&r), vec!["zz", "abc", "ABC", "ÉTÉ", "été"]);
}
