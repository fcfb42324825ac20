use vstd::prelude::*;
use crate::config::{ConfigView, saved_config};
use crate::cli::{DirField, only_dir, export_spec, update_spec, import_spec, delete_spec, pick_dir, game_data_dir};
use crate::bundle::{import_entry_spec, export_entry_spec};

verus! {

/// The directory of `config` that `field` names.
pub open spec fn dir_of(config: ConfigView, field: DirField) -> Option<Seq<char>> {
    match field {
        DirField::Work => config.work_dir,
        DirField::Mod => config.mod_dir,
        DirField::Export => config.export_dir,
        DirField::Game => config.game_dir,
    }
}

/// Saving what a `set_*_dir` command asks for records the new directory and keeps
/// every other stored directory.
pub proof fn set_dir_records_only_that_directory(field: DirField, dir: Seq<char>, stored: ConfigView, other: DirField)
    ensures
        dir_of(saved_config(only_dir(field, dir), false, stored), field) == Some(dir),
        field != other ==> dir_of(saved_config(only_dir(field, dir), false, stored), other) == dir_of(stored, other),
{
}

/// Clearing the configuration leaves no directory recorded, whatever was stored.
pub proof fn clear_forgets_everything(stored: ConfigView)
    ensures
        saved_config(ConfigView::empty(), true, stored) == ConfigView::empty(),
{
}

/// Directories given on the command line are used whatever the configuration holds.
pub proof fn given_dirs_win(mod_dir: Seq<char>, export_dir: Seq<char>, compile: bool, delete_nuts: bool, config: ConfigView)
    ensures
        export_spec(Some(mod_dir), Some(export_dir), compile, delete_nuts, config)
            == Ok::<(Seq<char>, (Seq<char>, Option<Seq<char>>), bool, bool), Seq<char>>(
                (mod_dir, (export_dir, None), compile, delete_nuts),
            ),
{
}

/// Once a mod directory is recorded, exporting without `-m` packs that mod; once an
/// export directory is recorded, exporting without a target writes there.
pub proof fn recorded_dirs_are_used(mod_dir: Seq<char>, export_dir: Seq<char>, stored: ConfigView, compile: bool, delete_nuts: bool)
    ensures
        ({
            let after_mod = saved_config(only_dir(DirField::Mod, mod_dir), false, stored);
            let after_both = saved_config(only_dir(DirField::Export, export_dir), false, after_mod);
            export_spec(None, None, compile, delete_nuts, after_both)
                == Ok::<(Seq<char>, (Seq<char>, Option<Seq<char>>), bool, bool), Seq<char>>(
                    (mod_dir, (export_dir, None), compile, delete_nuts),
                )
        }),
{
}

/// `update` exports into the `data` folder of the configured game directory, and
/// takes the same mod as `export` would.
pub proof fn update_targets_game_data_dir(mod_arg: Option<Seq<char>>, compile: bool, delete_nuts: bool, config: ConfigView)
    ensures
        update_spec(mod_arg, compile, delete_nuts, config) matches Ok(t) ==> {
            &&& config.game_dir matches Some(g) && t.1 == game_data_dir(g)
            &&& pick_dir(mod_arg, config.mod_dir) == Some(t.0)
        },
        config.game_dir is Some && pick_dir(mod_arg, config.mod_dir) is Some
            ==> update_spec(mod_arg, compile, delete_nuts, config) is Ok,
{
}

/// `delete` takes out of the game exactly what `update` (without `-m`) installed:
/// the same mod, from the same folder; and it can do so whenever `update` can.
pub proof fn delete_undoes_update(compile: bool, delete_nuts: bool, config: ConfigView)
    ensures
        update_spec(None, compile, delete_nuts, config) matches Ok(t) ==> {
            delete_spec(config) == Ok::<(Seq<char>, (Seq<char>, Option<Seq<char>>)), Seq<char>>((t.0, t.1))
        },
{
}

/// An import removes the compiled scripts it decompiles unless asked to keep them,
/// and never removes any other file.
pub proof fn import_removes_compiled_unless_kept(
    mod_arg: Option<Seq<char>>,
    work_arg: Option<Seq<char>>,
    keep_cnuts: bool,
    config: ConfigView,
    ext: Option<Seq<char>>,
)
    ensures
        import_spec(mod_arg, work_arg, keep_cnuts, config) matches Ok(t) ==> {
            let plan = import_entry_spec(ext, t.2);
            &&& plan.1 == (plan.0 && !keep_cnuts)
            &&& plan.1 ==> ext == Some("cnut"@)
        },
{
}


/// `export` packs the mod given with `-m` whenever one is given, and otherwise the
/// configured mod; it writes into the directory given with `-d` whenever one is
/// given, and otherwise into the configured export directory, never into a
/// subfolder; it passes both flags on unchanged; and it succeeds exactly when a mod
/// and a target are each given or configured.
pub proof fn export_takes_given_else_configured(
    mod_arg: Option<Seq<char>>,
    export_arg: Option<Seq<char>>,
    compile: bool,
    delete_nuts: bool,
    config: ConfigView,
)
    ensures
        export_spec(mod_arg, export_arg, compile, delete_nuts, config) is Ok
            <==> (mod_arg is Some || config.mod_dir is Some) && (export_arg is Some || config.export_dir is Some),
        export_spec(mod_arg, export_arg, compile, delete_nuts, config) matches Ok(t) ==> {
            &&& (mod_arg matches Some(m) ==> t.0 == m)
            &&& (mod_arg is None ==> config.mod_dir == Some(t.0))
            &&& (export_arg matches Some(e) ==> t.1 == (e, None::<Seq<char>>))
            &&& (export_arg is None ==> config.export_dir == Some(t.1.0) && t.1.1 is None)
            &&& t.2 == compile
            &&& t.3 == delete_nuts
        },
{
}

/// `update` packs the mod given with `-m`, else the configured one, into the `data`
/// folder of the configured game directory, passing both flags on unchanged; it
/// succeeds exactly when a game directory is configured and a mod is given or
/// configured.
pub proof fn update_takes_given_else_configured(
    mod_arg: Option<Seq<char>>,
    compile: bool,
    delete_nuts: bool,
    config: ConfigView,
)
    ensures
        update_spec(mod_arg, compile, delete_nuts, config) is Ok
            <==> config.game_dir is Some && (mod_arg is Some || config.mod_dir is Some),
        update_spec(mod_arg, compile, delete_nuts, config) matches Ok(t) ==> {
            &&& (mod_arg matches Some(m) ==> t.0 == m)
            &&& (mod_arg is None ==> config.mod_dir == Some(t.0))
            &&& config.game_dir == Some(t.1.0)
            &&& t.1.1 == Some("data"@)
            &&& t.2 == compile
            &&& t.3 == delete_nuts
        },
{
}

/// `import` unpacks the given archive into the directory given with `-d` whenever
/// one is given, whatever is configured, and otherwise into the configured working
/// directory; it removes decompiled scripts exactly when they are not to be kept; and
/// it succeeds exactly when an archive is given and a target is given or configured.
pub proof fn import_takes_given_else_configured(
    mod_arg: Option<Seq<char>>,
    work_arg: Option<Seq<char>>,
    keep_cnuts: bool,
    config: ConfigView,
)
    ensures
        import_spec(mod_arg, work_arg, keep_cnuts, config) is Ok
            <==> mod_arg is Some && (work_arg is Some || config.work_dir is Some),
        import_spec(mod_arg, work_arg, keep_cnuts, config) matches Ok(t) ==> {
            &&& mod_arg == Some(t.0)
            &&& (work_arg matches Some(w) ==> t.1 == w)
            &&& (work_arg is None ==> config.work_dir == Some(t.1))
            &&& t.2 == !keep_cnuts
        },
{
}

/// `delete` only ever takes the configured mod out of the `data` folder of the
/// configured game directory, and refuses when either is not configured.
pub proof fn delete_only_from_game_data(config: ConfigView)
    ensures
        delete_spec(config) is Ok <==> config.mod_dir is Some && config.game_dir is Some,
        delete_spec(config) matches Ok(t) ==> {
            &&& config.mod_dir == Some(t.0)
            &&& config.game_dir == Some(t.1.0)
            &&& t.1.1 == Some("data"@)
        },
{
}

/// On import, exactly the compiled scripts (`.cnut`) are decompiled, whatever the
/// keep flag; a file is removed exactly when it was decompiled and removal was asked.
pub proof fn import_decompiles_only_compiled(ext: Option<Seq<char>>, delete_cnuts: bool)
    ensures
        import_entry_spec(ext, delete_cnuts).0 <==> ext == Some("cnut"@),
        import_entry_spec(ext, delete_cnuts).1 <==> (ext == Some("cnut"@) && delete_cnuts),
{
}

/// On export, a file is left out of the archive exactly when it is a plain script
/// (`.nut`) and the export both compiles and drops plain scripts; a file is removed
/// exactly when it is a compiled script (`.cnut`) and the export compiles.
pub proof fn export_leaves_out_only_dropped_scripts(ext: Seq<char>, compile: bool, delete_nuts: bool)
    ensures
        !export_entry_spec(ext, compile, delete_nuts).0 <==> (ext == "nut"@ && compile && delete_nuts),
        export_entry_spec(ext, compile, delete_nuts).1 <==> (ext == "cnut"@ && compile),
{
}

} // verus!
