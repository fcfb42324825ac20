use bbkit::cli::{
    cli_config, cli_delete, cli_export, cli_import, cli_log, cli_set_export_dir, cli_set_game_dir,
    cli_set_mod_dir, cli_set_work_dir, cli_update, delete_message, export_message, import_message,
    CliOutcome,
};
use bbkit::config::{set_config, Config};

const NO_MOD: &str = "No mod directory in config, use subcommand set_mod_dir to set mod directory or add -m argument when using export or update";
const NO_EXPORT: &str = "No export directory in config, use subcommand set_export_dir to set game directory or add -ed argument when using export";

fn cfg(w: Option<&str>, m: Option<&str>, e: Option<&str>, g: Option<&str>) -> Config {
    Config {
        work_dir: w.map(|s| s.to_string()),
        mod_dir: m.map(|s| s.to_string()),
        export_dir: e.map(|s| s.to_string()),
        game_dir: g.map(|s| s.to_string()),
    }
}

fn saved_fields(o: &CliOutcome) -> (Option<String>, Option<String>, Option<String>, Option<String>, bool) {
    let s = o.save.as_ref().expect("a configuration to save");
    (
        s.config.work_dir.clone(),
        s.config.mod_dir.clone(),
        s.config.export_dir.clone(),
        s.config.game_dir.clone(),
        s.force,
    )
}

#[test]
fn set_work_dir_records_work_dir() {
    let o = cli_set_work_dir("D:/Other/Modding/BBros", true);
    assert_eq!(saved_fields(&o), (Some("D:/Other/Modding/BBros".to_string()), None, None, None, false));
    assert_eq!(o.message, "Set working directory to: D:/Other/Modding/BBros");
}

#[test]
fn set_export_dir_records_export_dir() {
    let o = cli_set_export_dir("D:/Export", true);
    assert_eq!(saved_fields(&o), (None, None, Some("D:/Export".to_string()), None, false));
    assert_eq!(o.message, "Set Export directory to: D:/Export");
}

#[test]
fn set_mod_dir_records_mod_dir() {
    let o = cli_set_mod_dir("D:/BBros/mod_EIMO", true);
    assert_eq!(saved_fields(&o), (None, Some("D:/BBros/mod_EIMO".to_string()), None, None, false));
    assert_eq!(o.message, "Set Mod directory to: D:/BBros/mod_EIMO");
}

#[test]
fn set_game_dir_records_game_dir() {
    let o = cli_set_game_dir("D:SteamLibrary/steamapps/common/Battle Brothers", true);
    assert_eq!(
        saved_fields(&o),
        (None, None, None, Some("D:SteamLibrary/steamapps/common/Battle Brothers".to_string()), false)
    );
    assert_eq!(o.message, "Set Game directory to: D:SteamLibrary/steamapps/common/Battle Brothers");
}

#[test]
fn set_dir_missing_directory_saves_nothing() {
    for o in [
        cli_set_work_dir("nowhere", false),
        cli_set_export_dir("nowhere", false),
        cli_set_mod_dir("nowhere", false),
        cli_set_game_dir("nowhere", false),
    ] {
        assert!(o.save.is_none());
        assert_eq!(o.message, "Directory does not exist, failed to set directory");
    }
}

#[test]
fn setting_a_dir_keeps_the_others_when_saved() {
    let stored = cfg(Some("w"), Some("m"), Some("e"), None);
    let o = cli_set_game_dir("g", true);
    let s = o.save.unwrap();
    let after = set_config(&s.config, s.force, &stored);
    assert_eq!(after.work_dir, Some("w".to_string()));
    assert_eq!(after.mod_dir, Some("m".to_string()));
    assert_eq!(after.export_dir, Some("e".to_string()));
    assert_eq!(after.game_dir, Some("g".to_string()));
}

#[test]
fn config_clear_saves_empty_config_with_force() {
    let stored = cfg(Some("w"), Some("m"), Some("e"), Some("g"));
    let o = cli_config(true, &stored);
    assert_eq!(saved_fields(&o), (None, None, None, None, true));
    assert_eq!(o.message, "Cleared config");
    let s = o.save.unwrap();
    let after = set_config(&s.config, s.force, &stored);
    assert_eq!(after.to_text(), Config::new().to_text());
}

#[test]
fn config_show_describes_stored() {
    let stored = cfg(Some("w"), None, None, None);
    let o = cli_config(false, &stored);
    assert!(o.save.is_none());
    assert_eq!(
        o.message,
        "Working Directory: Some(\"w\")\nCurrent Mod Directory: None\nExport Directory: None\nGame Directory: None"
    );
}

#[test]
fn export_uses_given_dirs_over_config() {
    let c = cfg(None, Some("m"), Some("e"), None);
    let t = cli_export(Some("m2"), Some("e2"), true, true, &c).unwrap();
    assert_eq!((t.mod_dir.as_str(), t.target.base.as_str(), t.compile, t.delete_nuts), ("m2", "e2", true, true));
    assert_eq!(t.target.sub, None);
}

#[test]
fn export_falls_back_to_config() {
    let c = cfg(None, Some("m"), Some("e"), None);
    let t = cli_export(None, None, false, true, &c).unwrap();
    assert_eq!((t.mod_dir.as_str(), t.target.base.as_str(), t.compile, t.delete_nuts), ("m", "e", false, true));
    assert_eq!(t.target.sub, None);
}

#[test]
fn export_without_mod_dir_reports_it() {
    let c = cfg(None, None, None, None);
    assert_eq!(cli_export(None, Some("e"), false, false, &c).err().unwrap(), NO_MOD);
    assert_eq!(cli_export(None, None, false, false, &c).err().unwrap(), NO_MOD);
}

#[test]
fn export_without_export_dir_reports_it() {
    let c = cfg(None, Some("m"), None, None);
    assert_eq!(cli_export(None, None, false, false, &c).err().unwrap(), NO_EXPORT);
}

#[test]
fn update_exports_into_game_dir() {
    let c = cfg(None, Some("m"), Some("e"), Some("g"));
    let t = cli_update(None, true, false, &c).unwrap();
    assert_eq!((t.mod_dir.as_str(), t.target.base.as_str(), t.compile, t.delete_nuts), ("m", "g", true, false));
    assert_eq!(t.target.sub.as_deref(), Some("data"));
    let t = cli_update(Some("other"), false, false, &c).unwrap();
    assert_eq!((t.mod_dir.as_str(), t.target.base.as_str(), t.target.sub.as_deref()), ("other", "g", Some("data")));
}

#[test]
fn update_without_game_dir_reports_it() {
    let c = cfg(None, Some("m"), Some("e"), None);
    assert_eq!(
        cli_update(None, false, false, &c).err().unwrap(),
        "No game directory specified in config, use subcommand set_game_dir to set mod directory"
    );
}

#[test]
fn update_without_mod_dir_reports_it() {
    let c = cfg(None, None, None, Some("g"));
    assert_eq!(cli_update(None, false, false, &c).err().unwrap(), NO_MOD);
}

#[test]
fn import_uses_given_and_configured_dirs() {
    let c = cfg(Some("w"), None, None, None);
    let t = cli_import(Some("mod.zip"), None, false, &c).unwrap();
    assert_eq!((t.archive.as_str(), t.target_dir.as_str(), t.delete_cnuts), ("mod.zip", "w", true));
    let t = cli_import(Some("mod.zip"), Some("w2"), true, &c).unwrap();
    assert_eq!((t.archive.as_str(), t.target_dir.as_str(), t.delete_cnuts), ("mod.zip", "w2", false));
}

#[test]
fn import_without_archive_reports_it() {
    let c = cfg(Some("w"), None, None, None);
    assert_eq!(cli_import(None, None, false, &c).err().unwrap(), NO_MOD);
}

#[test]
fn import_without_work_dir_reports_it() {
    let c = cfg(None, Some("m"), None, None);
    assert_eq!(
        cli_import(Some("mod.zip"), None, false, &c).err().unwrap(),
        "No work directory in config, use subcommand set_work_dir to set work directory or add -wd argument when using import"
    );
}

#[test]
fn delete_needs_mod_and_game_dirs() {
    let t = cli_delete(&cfg(None, Some("m"), None, Some("g"))).unwrap();
    assert_eq!((t.mod_dir.as_str(), t.installed_in.base.as_str(), t.installed_in.sub.as_deref()), ("m", "g", Some("data")));
    assert_eq!(cli_delete(&cfg(None, None, None, Some("g"))).err().unwrap(), NO_MOD);
    assert_eq!(
        cli_delete(&cfg(None, Some("m"), None, None)).err().unwrap(),
        "No game directory in config, use subcommand set_game_dir to set game directory"
    );
}

#[test]
fn reports_after_operations() {
    let err: Result<(), String> = Err("Os { code: 2 }".to_string());
    assert_eq!(export_message(&Ok(())), "Mod exported successfully");
    assert_eq!(export_message(&err), "Error exporting mod: Os { code: 2 }");
    assert_eq!(import_message(&Ok(())), "Mod imported");
    assert_eq!(import_message(&err), "Error Importing mod: Os { code: 2 }");
    assert_eq!(delete_message(&Ok(())), "Mod deleted from data folder");
    assert_eq!(delete_message(&err), "Error deleting mod: Os { code: 2 }");
    assert_eq!(cli_log(&Ok(())), "Log opened");
    assert_eq!(cli_log(&err), "Error opening log: Os { code: 2 }");
}

#[test]
fn delete_takes_out_what_update_installed() {
    let c = cfg(None, Some("D:/BBros/mod_EIMO"), None, Some("Battle Brothers"));
    let u = cli_update(None, false, false, &c).unwrap();
    let d = cli_delete(&c).unwrap();
    assert_eq!(u.mod_dir, d.mod_dir);
    assert_eq!(u.target.base, d.installed_in.base);
    assert_eq!(u.target.sub, d.installed_in.sub);
}
