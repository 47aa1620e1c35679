use trusc::assets::{asset_uri, is_library_file, AssetCatalogue, DirectoryEntry};

fn entry(name: &str, path: &str) -> DirectoryEntry {
    DirectoryEntry { file_name: name.to_string(), path: path.to_string() }
}

fn sorted(mut texts: Vec<String>) -> Vec<String> {
    texts.sort();
    texts
}

#[test]
fn library_files_begin_with_lib_and_end_with_d_ts() {
    assert!(is_library_file("lib.d.ts"));
    assert!(is_library_file("lib.core.d.ts"));
    assert!(is_library_file("lib.es2015.promise.d.ts"));
    assert!(is_library_file("lib.xd.ts"));
}

#[test]
fn other_files_are_no_library_files() {
    assert!(!is_library_file(""));
    assert!(!is_library_file("lib."));
    assert!(!is_library_file("d.ts"));
    assert!(!is_library_file("lib.ts"));
    assert!(!is_library_file("tsc.js"));
    assert!(!is_library_file("typescript.d.ts"));
    assert!(!is_library_file("lib.core.d.ts.map"));
    assert!(!is_library_file("xlib.core.d.ts"));
    assert!(!is_library_file("libcore.d.ts"));
}

#[test]
fn the_naming_convention_minds_the_case() {
    assert!(!is_library_file("Lib.core.d.ts"));
    assert!(!is_library_file("LIB.CORE.D.TS"));
    assert!(!is_library_file("lib.core.D.ts"));
    assert!(!is_library_file("lib.core.d.TS"));
}

#[test]
fn the_uri_is_the_scheme_and_the_file_name() {
    assert_eq!(asset_uri("lib.core.d.ts"), "asset:///lib.core.d.ts");
    assert_eq!(asset_uri(""), "asset:///");
    assert_eq!(asset_uri("lib.dom iterable.d.ts"), "asset:///lib.dom iterable.d.ts");
    assert_eq!(asset_uri("lib.é.d.ts"), "asset:///lib.é.d.ts");
}

#[test]
fn an_empty_directory_has_no_assets() {
    let assets = AssetCatalogue::resolve(&Vec::new());
    assert_eq!(assets.len(), 0);
    assert_eq!(assets.uris(), Vec::<String>::new());
    assert_eq!(assets.path_of("asset:///lib.d.ts"), None);
}

#[test]
fn only_library_files_become_assets() {
    let entries = vec![
        entry("tsc.js", "/ts/lib/tsc.js"),
        entry("lib.d.ts", "/ts/lib/lib.d.ts"),
        entry("README.md", "/ts/lib/README.md"),
        entry("lib.es5.d.ts", "/ts/lib/lib.es5.d.ts"),
        entry("typescript.d.ts", "/ts/lib/typescript.d.ts"),
    ];
    let assets = AssetCatalogue::resolve(&entries);
    assert_eq!(assets.len(), 2);
    assert_eq!(sorted(assets.uris()), vec!["asset:///lib.d.ts", "asset:///lib.es5.d.ts"]);
    assert_eq!(assets.path_of("asset:///lib.d.ts"), Some(&"/ts/lib/lib.d.ts".to_string()));
    assert_eq!(assets.path_of("asset:///lib.es5.d.ts"), Some(&"/ts/lib/lib.es5.d.ts".to_string()));
    assert_eq!(assets.path_of("asset:///tsc.js"), None);
    assert_eq!(assets.path_of("lib.d.ts"), None);
    assert_eq!(assets.path_of("/ts/lib/lib.d.ts"), None);
}

#[test]
fn one_uri_for_each_library_file() {
    let names = ["lib.a.d.ts", "lib.b.d.ts", "lib.c.d.ts", "lib.d.d.ts", "lib.e.d.ts"];
    let entries: Vec<DirectoryEntry> =
        names.iter().map(|n| entry(n, &format!("/lib/{}", n))).collect();
    let assets = AssetCatalogue::resolve(&entries);
    assert_eq!(assets.len(), names.len());
    let uris = assets.uris();
    assert_eq!(uris.len(), names.len());
    for name in names {
        let uri = asset_uri(name);
        assert_eq!(uris.iter().filter(|u| **u == uri).count(), 1);
        assert_eq!(assets.path_of(&uri), Some(&format!("/lib/{}", name)));
    }
}

#[test]
fn of_two_entries_with_one_name_the_later_counts() {
    let entries = vec![
        entry("lib.d.ts", "/first/lib.d.ts"),
        entry("lib.dom.d.ts", "/first/lib.dom.d.ts"),
        entry("lib.d.ts", "/second/lib.d.ts"),
    ];
    let assets = AssetCatalogue::resolve(&entries);
    assert_eq!(assets.len(), 2);
    assert_eq!(sorted(assets.uris()), vec!["asset:///lib.d.ts", "asset:///lib.dom.d.ts"]);
    assert_eq!(assets.path_of("asset:///lib.d.ts"), Some(&"/second/lib.d.ts".to_string()));
    assert_eq!(assets.path_of("asset:///lib.dom.d.ts"), Some(&"/first/lib.dom.d.ts".to_string()));
}
