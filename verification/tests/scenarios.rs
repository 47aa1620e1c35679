use std::collections::BTreeMap;
use trusc::assets::{AssetCatalogue, DirectoryEntry};
use trusc::error::{HostFailure, HostFailureKind, OpError, OpErrorKind};
use trusc::ops::{
    locate_asset, op_build_info, op_delete_file, op_file_exists, op_load, op_read_file,
    op_write_file, OpLoadArgs, PathProbe,
};

/// A host whose files live in memory.
struct Files {
    files: BTreeMap<String, String>,
}

impl Files {
    fn new() -> Files {
        Files { files: BTreeMap::new() }
    }

    fn missing(path: &str) -> HostFailure {
        HostFailure {
            kind: HostFailureKind::Missing,
            message: format!("No such file or directory: {}", path),
        }
    }

    fn write(&mut self, path: &str, data: &str) -> Result<(), HostFailure> {
        self.files.insert(path.to_string(), data.to_string());
        Ok(())
    }

    fn read(&self, path: &str) -> Result<String, HostFailure> {
        match self.files.get(path) {
            Some(text) => Ok(text.clone()),
            None => Err(Files::missing(path)),
        }
    }

    fn remove(&mut self, path: &str) -> Result<(), HostFailure> {
        match self.files.remove(path) {
            Some(_) => Ok(()),
            None => Err(Files::missing(path)),
        }
    }

    fn probe(&self, path: &str) -> PathProbe {
        if self.files.contains_key(path) {
            PathProbe::File
        } else {
            PathProbe::Missing
        }
    }
}

#[test]
fn write_then_read_then_exists_then_delete() {
    let mut host = Files::new();
    assert_eq!(op_write_file(host.write("out.txt", "hello")), Ok(()));
    assert_eq!(op_read_file(host.read("out.txt")), Ok("hello".to_string()));
    assert_eq!(op_file_exists(host.probe("out.txt")), Ok(true));
    assert_eq!(op_delete_file(host.remove("out.txt")), Ok(()));
    assert_eq!(op_file_exists(host.probe("out.txt")), Ok(false));
}

#[test]
fn write_overwrites_what_was_there() {
    let mut host = Files::new();
    assert_eq!(op_write_file(host.write("out.txt", "first")), Ok(()));
    assert_eq!(op_write_file(host.write("out.txt", "second")), Ok(()));
    assert_eq!(op_read_file(host.read("out.txt")), Ok("second".to_string()));
}

#[test]
fn reading_a_missing_file_is_an_error_not_a_crash() {
    let host = Files::new();
    assert_eq!(
        op_read_file(host.read("nowhere.txt")),
        Err(OpError {
            kind: OpErrorKind::NotFound,
            message: "No such file or directory: nowhere.txt".to_string(),
        })
    );
}

#[test]
fn two_library_files_are_discovered_and_loaded() {
    let mut host = Files::new();
    host.write("/assets/lib.core.d.ts", "declare var core: number;\n").unwrap();
    host.write("/assets/lib.dom.d.ts", "declare var dom: string;\n").unwrap();
    let entries = vec![
        DirectoryEntry {
            file_name: "lib.core.d.ts".to_string(),
            path: "/assets/lib.core.d.ts".to_string(),
        },
        DirectoryEntry {
            file_name: "lib.dom.d.ts".to_string(),
            path: "/assets/lib.dom.d.ts".to_string(),
        },
    ];
    let assets = AssetCatalogue::resolve(&entries);

    let mut uris = op_build_info(&assets).unwrap();
    uris.sort();
    assert_eq!(uris, vec!["asset:///lib.core.d.ts", "asset:///lib.dom.d.ts"]);

    let core = locate_asset(&assets, &OpLoadArgs { file_name: "asset:///lib.core.d.ts".to_string() });
    assert_eq!(core, Ok("/assets/lib.core.d.ts".to_string()));
    assert_eq!(op_load(host.read(&core.unwrap())), Ok("declare var core: number;\n".to_string()));

    let dom = locate_asset(&assets, &OpLoadArgs { file_name: "asset:///lib.dom.d.ts".to_string() });
    assert_eq!(dom, Ok("/assets/lib.dom.d.ts".to_string()));
    assert_eq!(op_load(host.read(&dom.unwrap())), Ok("declare var dom: string;\n".to_string()));

    let unknown =
        locate_asset(&assets, &OpLoadArgs { file_name: "asset:///lib.unknown.d.ts".to_string() });
    assert_eq!(
        unknown,
        Err(OpError {
            kind: OpErrorKind::NotFound,
            message: "Invalid file name: asset:///lib.unknown.d.ts".to_string(),
        })
    );
}
