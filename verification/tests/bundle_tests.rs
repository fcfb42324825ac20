use bbkit::bundle::{archive_file_name, archive_path, export_entry_plan, import_entry_plan, import_folder_name, ArchivePath};
use bbkit::cli::DirSpec;
use bbkit::text::same_text;

fn plan(ext: &str, compile: bool, delete_nuts: bool) -> (bool, bool) {
    let p = export_entry_plan(ext, compile, delete_nuts);
    (p.archive, p.remove)
}

#[test]
fn export_plain_keeps_every_file() {
    for ext in ["nut", "cnut", "png", "txt"] {
        assert_eq!(plan(ext, false, false), (true, false));
        assert_eq!(plan(ext, false, true), (true, false));
    }
}

#[test]
fn export_compiled_keeps_nuts_and_removes_cnuts() {
    assert_eq!(plan("nut", true, false), (true, false));
    assert_eq!(plan("cnut", true, false), (true, true));
    assert_eq!(plan("png", true, false), (true, false));
}

#[test]
fn export_compiled_without_nuts() {
    assert_eq!(plan("nut", true, true), (false, false));
    assert_eq!(plan("cnut", true, true), (true, true));
    assert_eq!(plan("nutx", true, true), (true, false));
    assert_eq!(plan("", true, true), (true, false));
}

#[test]
fn import_decompiles_cnuts() {
    let p = import_entry_plan(Some("cnut"), true);
    assert_eq!((p.decompile, p.remove), (true, true));
    let p = import_entry_plan(Some("cnut"), false);
    assert_eq!((p.decompile, p.remove), (true, false));
}

#[test]
fn import_leaves_other_files() {
    for ext in [Some("nut"), Some("png"), Some("CNUT"), None] {
        let p = import_entry_plan(ext, true);
        assert_eq!((p.decompile, p.remove), (false, false));
    }
}

#[test]
fn same_text_compares_characters() {
    assert!(same_text("nut", "nut"));
    assert!(!same_text("nut", "cnut"));
    assert!(!same_text("nut", "nuT"));
    assert!(same_text("", ""));
    assert!(same_text("ünï", "ünï"));
}

#[test]
fn archive_names_follow_the_folder_stem() {
    assert_eq!(archive_file_name("mod_EIMO_original").as_deref(), Some("mod_EIMO_original.zip"));
    assert_eq!(archive_file_name("mod.v2").as_deref(), Some("mod.zip"));
    assert_eq!(archive_file_name("my.mod.v2").as_deref(), Some("my.zip"));
    assert_eq!(archive_file_name(".hidden").as_deref(), Some(".hidden.zip"));
    assert_eq!(archive_file_name("a.").as_deref(), Some("a.zip"));
    assert_eq!(archive_file_name("ünï.x").as_deref(), Some("ünï.zip"));
    assert_eq!(archive_file_name("...").as_deref(), None);
    assert_eq!(archive_file_name("..x").as_deref(), None);
}

#[test]
fn archive_names_match_std_paths() {
    for name in ["mod_EIMO", "mod.v2", "my.mod.v2", ".hidden", "a.", ".a.b", "x..y"] {
        let mut expected = std::path::Path::new("target").join(std::path::Path::new(name).file_stem().unwrap());
        expected.set_extension("zip");
        let got = std::path::Path::new("target").join(archive_file_name(name).unwrap());
        assert_eq!(got, expected, "{}", name);
    }
}

#[test]
fn archive_path_keeps_the_folder() {
    let folder = DirSpec { base: "Battle Brothers".to_string(), sub: Some("data".to_string()) };
    match archive_path(&folder, "mod_EIMO").unwrap() {
        ArchivePath::InFolder { folder, file_name } => {
            assert_eq!(folder.base, "Battle Brothers");
            assert_eq!(folder.sub.as_deref(), Some("data"));
            assert_eq!(file_name, "mod_EIMO.zip");
        }
        ArchivePath::BesideFolder { .. } => panic!("archive placed beside the folder"),
    }
}

#[test]
fn archive_path_of_dot_stem_is_beside_the_folder() {
    let folder = DirSpec { base: "exports".to_string(), sub: None };
    match archive_path(&folder, "..x").unwrap() {
        ArchivePath::BesideFolder { folder } => {
            assert_eq!(folder.base, "exports");
            assert_eq!(folder.sub, None);
        }
        ArchivePath::InFolder { .. } => panic!("archive placed inside the folder"),
    }
    // std places it the same way: the target folder with its extension set to zip.
    let mut expected = std::path::Path::new("out/exports").join(std::path::Path::new("..x").file_stem().unwrap());
    expected.set_extension("zip");
    assert_eq!(expected, std::path::PathBuf::from("out/exports.zip"));
}

#[test]
fn archive_path_of_dotdot_stem_is_none() {
    let folder = DirSpec { base: "exports".to_string(), sub: None };
    assert!(archive_path(&folder, "...").is_none());
}

#[test]
fn import_folder_is_the_archive_stem() {
    for name in ["mod_EIMO.zip", "mod.v2.zip", ".hidden", "plain", "a.", "..zip"] {
        let expected = std::path::Path::new(name).file_stem().unwrap().to_string_lossy().into_owned();
        assert_eq!(import_folder_name(name), expected, "{}", name);
    }
    assert_eq!(import_folder_name("mod_EIMO.zip"), "mod_EIMO");
}
