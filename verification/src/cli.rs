use vstd::prelude::*;
use vstd::string::*;
use crate::config::{Config, ConfigView, opt_view, prefer_newer};

verus! {

/// A configuration that a command asks to be saved: replacing what is stored when
/// `force` is set, merged into it otherwise.
pub struct ConfigSave {
    pub config: Config,
    pub force: bool,
}

/// What a configuration command decided: an optional configuration to save, and the
/// message to print once it is saved.
pub struct CliOutcome {
    pub save: Option<ConfigSave>,
    pub message: String,
}

/// One of the four directories the configuration records.
pub enum DirField {
    Work,
    Mod,
    Export,
    Game,
}

/// The configuration that records only `dir` as the given directory.
pub open spec fn only_dir(field: DirField, dir: Seq<char>) -> ConfigView {
    match field {
        DirField::Work => ConfigView { work_dir: Some(dir), ..ConfigView::empty() },
        DirField::Mod => ConfigView { mod_dir: Some(dir), ..ConfigView::empty() },
        DirField::Export => ConfigView { export_dir: Some(dir), ..ConfigView::empty() },
        DirField::Game => ConfigView { game_dir: Some(dir), ..ConfigView::empty() },
    }
}

/// The start of the confirmation printed once a directory is recorded.
pub open spec fn set_dir_prefix(field: DirField) -> Seq<char> {
    match field {
        DirField::Work => "Set working directory to: "@,
        DirField::Mod => "Set Mod directory to: "@,
        DirField::Export => "Set Export directory to: "@,
        DirField::Game => "Set Game directory to: "@,
    }
}

/// The message printed when the directory to record does not exist.
pub open spec fn missing_dir_message() -> Seq<char> {
    "Directory does not exist, failed to set directory"@
}

/// What a `set_*_dir` command does: nothing but report when the directory does not
/// exist; otherwise save (merging) a configuration that records only that directory,
/// and confirm.
pub open spec fn set_dir_spec(outcome: CliOutcome, field: DirField, dir: Seq<char>, dir_exists: bool) -> bool {
    if dir_exists {
        &&& outcome.save matches Some(s)
        &&& s.config@ == only_dir(field, dir)
        &&& !s.force
        &&& outcome.message@ == set_dir_prefix(field) + dir
    } else {
        &&& outcome.save is None
        &&& outcome.message@ == missing_dir_message()
    }
}

fn set_dir(field: DirField, dir: &str, dir_exists: bool) -> (res: CliOutcome)
    ensures
        set_dir_spec(res, field, dir@, dir_exists),
{
    if !dir_exists {
        return CliOutcome {
            save: None,
            message: String::from_str("Directory does not exist, failed to set directory"),
        };
    }
    let mut config = Config::new();
    let value = Some(String::from_str(dir));
    let mut message = match field {
        DirField::Work => {
            config.work_dir = value;
            String::from_str("Set working directory to: ")
        },
        DirField::Mod => {
            config.mod_dir = value;
            String::from_str("Set Mod directory to: ")
        },
        DirField::Export => {
            config.export_dir = value;
            String::from_str("Set Export directory to: ")
        },
        DirField::Game => {
            config.game_dir = value;
            String::from_str("Set Game directory to: ")
        },
    };
    message.append(dir);
    CliOutcome { save: Some(ConfigSave { config, force: false }), message }
}

/// `set_work_dir`: records the working directory (the folder holding all mods being
/// worked on), provided it exists.
pub fn cli_set_work_dir(work_dir_str: &str, dir_exists: bool) -> (res: CliOutcome)
    ensures
        set_dir_spec(res, DirField::Work, work_dir_str@, dir_exists),
{
    set_dir(DirField::Work, work_dir_str, dir_exists)
}

/// `set_export_dir`: records the export directory, provided it exists.
pub fn cli_set_export_dir(export_dir_str: &str, dir_exists: bool) -> (res: CliOutcome)
    ensures
        set_dir_spec(res, DirField::Export, export_dir_str@, dir_exists),
{
    set_dir(DirField::Export, export_dir_str, dir_exists)
}

/// `set_mod_dir`: records the directory of the mod currently worked on, provided it
/// exists.
pub fn cli_set_mod_dir(mod_dir_str: &str, dir_exists: bool) -> (res: CliOutcome)
    ensures
        set_dir_spec(res, DirField::Mod, mod_dir_str@, dir_exists),
{
    set_dir(DirField::Mod, mod_dir_str, dir_exists)
}

/// `set_game_dir`: records the game directory, provided it exists.
pub fn cli_set_game_dir(game_dir_str: &str, dir_exists: bool) -> (res: CliOutcome)
    ensures
        set_dir_spec(res, DirField::Game, game_dir_str@, dir_exists),
{
    set_dir(DirField::Game, game_dir_str, dir_exists)
}

/// `config`: with `clear`, saves the empty configuration in place of the stored one
/// and reports it; without, shows the stored configuration `stored` (which is not
/// consulted when `clear` is set).
pub fn cli_config(clear: bool, stored: &Config) -> (res: CliOutcome)
    ensures
        clear ==> {
            &&& res.save matches Some(s)
            &&& s.config@ == ConfigView::empty()
            &&& s.force
            &&& res.message@ == "Cleared config"@
        },
        !clear ==> res.save is None && res.message@ == stored@.describe(),
{
    if clear {
        CliOutcome {
            save: Some(ConfigSave { config: Config::new(), force: true }),
            message: String::from_str("Cleared config"),
        }
    } else {
        CliOutcome { save: None, message: stored.to_text() }
    }
}


/// The characters of an optional string slice.
pub open spec fn opt_str_view(o: Option<&str>) -> Option<Seq<char>> {
    match o {
        None => None,
        Some(s) => Some(s@),
    }
}

/// A directory given on the command line wins over the one in the configuration.
pub open spec fn pick_dir(arg: Option<Seq<char>>, configured: Option<Seq<char>>) -> Option<Seq<char>> {
    prefer_newer(configured, arg)
}

/// Reported when no mod directory is given or configured.
pub open spec fn no_mod_dir_message() -> Seq<char> {
    "No mod directory in config, use subcommand set_mod_dir to set mod directory or add -m argument when using export or update"@
}

/// Reported when no export directory is given or configured.
pub open spec fn no_export_dir_message() -> Seq<char> {
    "No export directory in config, use subcommand set_export_dir to set game directory or add -ed argument when using export"@
}

/// Reported by `update` when no game directory is configured.
pub open spec fn no_game_dir_for_update_message() -> Seq<char> {
    "No game directory specified in config, use subcommand set_game_dir to set mod directory"@
}

/// Reported by `import` when no working directory is given or configured.
pub open spec fn no_work_dir_message() -> Seq<char> {
    "No work directory in config, use subcommand set_work_dir to set work directory or add -wd argument when using import"@
}

/// Reported by `delete` when no game directory is configured.
pub open spec fn no_game_dir_message() -> Seq<char> {
    "No game directory in config, use subcommand set_game_dir to set game directory"@
}

/// A folder named by a base directory and, optionally, one subfolder inside it.
pub struct DirSpec {
    pub base: String,
    pub sub: Option<String>,
}

/// A folder as values: the base directory's characters and the subfolder's, if any.
pub open spec fn dir_view(d: DirSpec) -> (Seq<char>, Option<Seq<char>>) {
    (d.base@, opt_view(d.sub))
}

/// The folder of the game that holds installed mods: `data` inside the game directory.
pub open spec fn game_data_dir(game_dir: Seq<char>) -> (Seq<char>, Option<Seq<char>>) {
    (game_dir, Some("data"@))
}

fn data_dir_of(game_dir: &String) -> (res: DirSpec)
    ensures
        dir_view(res) == game_data_dir(game_dir@),
{
    DirSpec { base: game_dir.clone(), sub: Some(String::from_str("data")) }
}

/// An export to perform: pack the mod in `mod_dir` into an archive in the folder
/// `target`, compiling its scripts first when `compile` is set and leaving out the
/// plain scripts when `delete_nuts` is set too.
pub struct ExportTask {
    pub mod_dir: String,
    pub target: DirSpec,
    pub compile: bool,
    pub delete_nuts: bool,
}

/// An import to perform: unpack the archive at `archive` into `target_dir`,
/// decompiling the compiled scripts, and removing them when `delete_cnuts` is set.
pub struct ImportTask {
    pub archive: String,
    pub target_dir: String,
    pub delete_cnuts: bool,
}

/// A removal to perform: take the archive of the mod in `mod_dir` out of the folder
/// `installed_in` (the game's `data` folder), where `update` put it.
pub struct DeleteTask {
    pub mod_dir: String,
    pub installed_in: DirSpec,
}

/// An export task as values: mod directory, target folder, and the two flags.
pub open spec fn export_task_view(t: ExportTask) -> (Seq<char>, (Seq<char>, Option<Seq<char>>), bool, bool) {
    (t.mod_dir@, dir_view(t.target), t.compile, t.delete_nuts)
}

/// What `export` decides: the mod directory (argument, else configured), then the
/// target directory (argument, else the configured export directory); the first
/// that is missing is reported.
pub open spec fn export_spec(
    mod_arg: Option<Seq<char>>,
    export_arg: Option<Seq<char>>,
    compile: bool,
    delete_nuts: bool,
    config: ConfigView,
) -> Result<(Seq<char>, (Seq<char>, Option<Seq<char>>), bool, bool), Seq<char>> {
    match pick_dir(mod_arg, config.mod_dir) {
        None => Err(no_mod_dir_message()),
        Some(m) => match pick_dir(export_arg, config.export_dir) {
            None => Err(no_export_dir_message()),
            Some(e) => Ok((m, (e, None), compile, delete_nuts)),
        },
    }
}

/// What `update` decides: an export of the mod (argument, else configured) into the
/// `data` folder of the configured game directory, which must be set.
pub open spec fn update_spec(
    mod_arg: Option<Seq<char>>,
    compile: bool,
    delete_nuts: bool,
    config: ConfigView,
) -> Result<(Seq<char>, (Seq<char>, Option<Seq<char>>), bool, bool), Seq<char>> {
    match config.game_dir {
        None => Err(no_game_dir_for_update_message()),
        Some(g) => match pick_dir(mod_arg, config.mod_dir) {
            None => Err(no_mod_dir_message()),
            Some(m) => Ok((m, game_data_dir(g), compile, delete_nuts)),
        },
    }
}

/// What `import` decides: the archive must be given; the target is the directory
/// given, else the configured working directory; compiled scripts are removed after
/// decompiling unless they are to be kept.
pub open spec fn import_spec(
    mod_arg: Option<Seq<char>>,
    work_arg: Option<Seq<char>>,
    keep_cnuts: bool,
    config: ConfigView,
) -> Result<(Seq<char>, Seq<char>, bool), Seq<char>> {
    match mod_arg {
        None => Err(no_mod_dir_message()),
        Some(m) => match pick_dir(work_arg, config.work_dir) {
            None => Err(no_work_dir_message()),
            Some(w) => Ok((m, w, !keep_cnuts)),
        },
    }
}

/// What `delete` decides: both the mod and the game directory must be configured;
/// the mod's archive is taken out of the game's `data` folder.
pub open spec fn delete_spec(config: ConfigView) -> Result<(Seq<char>, (Seq<char>, Option<Seq<char>>)), Seq<char>> {
    match config.mod_dir {
        None => Err(no_mod_dir_message()),
        Some(m) => match config.game_dir {
            None => Err(no_game_dir_message()),
            Some(g) => Ok((m, game_data_dir(g))),
        },
    }
}

/// The view of a decision that is a task or a message.
pub open spec fn export_result_view(r: Result<ExportTask, String>) -> Result<(Seq<char>, (Seq<char>, Option<Seq<char>>), bool, bool), Seq<char>> {
    match r {
        Ok(t) => Ok(export_task_view(t)),
        Err(m) => Err(m@),
    }
}

/// The view of an import decision.
pub open spec fn import_result_view(r: Result<ImportTask, String>) -> Result<(Seq<char>, Seq<char>, bool), Seq<char>> {
    match r {
        Ok(t) => Ok((t.archive@, t.target_dir@, t.delete_cnuts)),
        Err(m) => Err(m@),
    }
}

/// The view of a delete decision.
pub open spec fn delete_result_view(r: Result<DeleteTask, String>) -> Result<(Seq<char>, (Seq<char>, Option<Seq<char>>)), Seq<char>> {
    match r {
        Ok(t) => Ok((t.mod_dir@, dir_view(t.installed_in))),
        Err(m) => Err(m@),
    }
}

/// The given directory, else a copy of the configured one.
fn pick_dir_exec(arg: Option<&str>, configured: &Option<String>) -> (res: Option<String>)
    ensures
        opt_view(res) == pick_dir(opt_str_view(arg), opt_view(*configured)),
{
    match arg {
        Some(a) => Some(String::from_str(a)),
        None => match configured {
            Some(c) => Some(c.clone()),
            None => None,
        },
    }
}

fn no_mod_dir() -> (res: String)
    ensures
        res@ == no_mod_dir_message(),
{
    String::from_str(
        "No mod directory in config, use subcommand set_mod_dir to set mod directory or add -m argument when using export or update",
    )
}

/// `export`: decides which mod to pack and where to; `mod_dir_option` and
/// `export_dir_option` are the directories given on the command line, `config` the
/// stored configuration.
pub fn cli_export(
    mod_dir_option: Option<&str>,
    export_dir_option: Option<&str>,
    compile: bool,
    delete_nuts: bool,
    config: &Config,
) -> (res: Result<ExportTask, String>)
    ensures
        export_result_view(res) == export_spec(
            opt_str_view(mod_dir_option),
            opt_str_view(export_dir_option),
            compile,
            delete_nuts,
            config@,
        ),
{
    let mod_dir = match pick_dir_exec(mod_dir_option, &config.mod_dir) {
        Some(m) => m,
        None => return Err(no_mod_dir()),
    };
    let target_dir = match pick_dir_exec(export_dir_option, &config.export_dir) {
        Some(e) => e,
        None => return Err(String::from_str(
            "No export directory in config, use subcommand set_export_dir to set game directory or add -ed argument when using export",
        )),
    };
    Ok(ExportTask { mod_dir, target: DirSpec { base: target_dir, sub: None }, compile, delete_nuts })
}

/// `update`: an export of the mod into the `data` folder of the configured game
/// directory.
pub fn cli_update(
    mod_dir_option: Option<&str>,
    compile: bool,
    delete_nuts: bool,
    config: &Config,
) -> (res: Result<ExportTask, String>)
    ensures
        export_result_view(res) == update_spec(opt_str_view(mod_dir_option), compile, delete_nuts, config@),
{
    let game_dir = match &config.game_dir {
        None => return Err(String::from_str(
            "No game directory specified in config, use subcommand set_game_dir to set mod directory",
        )),
        Some(g) => g,
    };
    let mod_dir = match pick_dir_exec(mod_dir_option, &config.mod_dir) {
        Some(m) => m,
        None => return Err(no_mod_dir()),
    };
    Ok(ExportTask { mod_dir, target: data_dir_of(game_dir), compile, delete_nuts })
}

/// `import`: decides which archive to unpack and where to.
pub fn cli_import(
    mod_dir_option: Option<&str>,
    work_dir_option: Option<&str>,
    keep_cnuts: bool,
    config: &Config,
) -> (res: Result<ImportTask, String>)
    ensures
        import_result_view(res) == import_spec(
            opt_str_view(mod_dir_option),
            opt_str_view(work_dir_option),
            keep_cnuts,
            config@,
        ),
{
    let archive = match mod_dir_option {
        Some(m) => String::from_str(m),
        None => return Err(no_mod_dir()),
    };
    let target_dir = match pick_dir_exec(work_dir_option, &config.work_dir) {
        Some(w) => w,
        None => return Err(String::from_str(
            "No work directory in config, use subcommand set_work_dir to set work directory or add -wd argument when using import",
        )),
    };
    Ok(ImportTask { archive, target_dir, delete_cnuts: !keep_cnuts })
}

/// `delete`: decides which mod's archive to take out of the game's `data` folder.
pub fn cli_delete(config: &Config) -> (res: Result<DeleteTask, String>)
    ensures
        delete_result_view(res) == delete_spec(config@),
{
    let mod_dir = match &config.mod_dir {
        Some(m) => m.clone(),
        None => return Err(no_mod_dir()),
    };
    let installed_in = match &config.game_dir {
        Some(g) => data_dir_of(g),
        None => return Err(String::from_str(
            "No game directory in config, use subcommand set_game_dir to set game directory",
        )),
    };
    Ok(DeleteTask { mod_dir, installed_in })
}

/// The report of an operation: `done` when it succeeded, else `failed` followed by
/// the error's description.
pub open spec fn report_spec(outcome: Result<(), Seq<char>>, done: Seq<char>, failed: Seq<char>) -> Seq<char> {
    match outcome {
        Ok(()) => done,
        Err(e) => failed + e,
    }
}

/// The view of an operation's outcome, its error given by its description.
pub open spec fn outcome_view(r: Result<(), String>) -> Result<(), Seq<char>> {
    match r {
        Ok(()) => Ok(()),
        Err(e) => Err(e@),
    }
}

fn report(outcome: &Result<(), String>, done: &str, failed: &str) -> (res: String)
    ensures
        res@ == report_spec(outcome_view(*outcome), done@, failed@),
{
    match outcome {
        Ok(()) => String::from_str(done),
        Err(e) => {
            let mut out = String::from_str(failed);
            out.append(e.as_str());
            out
        },
    }
}

/// The message printed after an export (or update), given how it went.
pub fn export_message(outcome: &Result<(), String>) -> (res: String)
    ensures
        res@ == report_spec(outcome_view(*outcome), "Mod exported successfully"@, "Error exporting mod: "@),
{
    report(outcome, "Mod exported successfully", "Error exporting mod: ")
}

/// The message printed after an import, given how it went.
pub fn import_message(outcome: &Result<(), String>) -> (res: String)
    ensures
        res@ == report_spec(outcome_view(*outcome), "Mod imported"@, "Error Importing mod: "@),
{
    report(outcome, "Mod imported", "Error Importing mod: ")
}

/// The message printed after a delete, given how it went.
pub fn delete_message(outcome: &Result<(), String>) -> (res: String)
    ensures
        res@ == report_spec(outcome_view(*outcome), "Mod deleted from data folder"@, "Error deleting mod: "@),
{
    report(outcome, "Mod deleted from data folder", "Error deleting mod: ")
}

/// `log`: the message printed after trying to open the game's log.
pub fn cli_log(outcome: &Result<(), String>) -> (res: String)
    ensures
        res@ == report_spec(outcome_view(*outcome), "Log opened"@, "Error opening log: "@),
{
    report(outcome, "Log opened", "Error opening log: ")
}

} // verus!
