use vstd::prelude::*;
use vstd::string::*;
use crate::text::{debug_option, debug_option_text};

verus! {

/// The directories the modkit remembers between runs. Each one is absent until a
/// `set_*_dir` command records it.
pub struct Config {
    pub work_dir: Option<String>,
    pub mod_dir: Option<String>,
    pub export_dir: Option<String>,
    pub game_dir: Option<String>,
}

/// A configuration as values: each directory as its characters, or absent.
pub struct ConfigView {
    pub work_dir: Option<Seq<char>>,
    pub mod_dir: Option<Seq<char>>,
    pub export_dir: Option<Seq<char>>,
    pub game_dir: Option<Seq<char>>,
}

/// The characters of an optional string.
pub open spec fn opt_view(o: Option<String>) -> Option<Seq<char>> {
    match o {
        None => None,
        Some(s) => Some(s@),
    }
}

/// A newer setting replaces an older one; an absent newer setting keeps the older.
pub open spec fn prefer_newer(older: Option<Seq<char>>, newer: Option<Seq<char>>) -> Option<Seq<char>> {
    match newer {
        Some(v) => Some(v),
        None => older,
    }
}

impl ConfigView {
    /// The configuration with no directory recorded.
    pub open spec fn empty() -> ConfigView {
        ConfigView { work_dir: None, mod_dir: None, export_dir: None, game_dir: None }
    }

    /// `self` with every directory that `newer` records replaced by `newer`'s.
    pub open spec fn merge(self, newer: ConfigView) -> ConfigView {
        ConfigView {
            work_dir: prefer_newer(self.work_dir, newer.work_dir),
            mod_dir: prefer_newer(self.mod_dir, newer.mod_dir),
            export_dir: prefer_newer(self.export_dir, newer.export_dir),
            game_dir: prefer_newer(self.game_dir, newer.game_dir),
        }
    }

    /// The text that describes a configuration to the user, one directory a line.
    pub open spec fn describe(self) -> Seq<char> {
        "Working Directory: "@ + debug_option(self.work_dir)
            + "\nCurrent Mod Directory: "@ + debug_option(self.mod_dir)
            + "\nExport Directory: "@ + debug_option(self.export_dir)
            + "\nGame Directory: "@ + debug_option(self.game_dir)
    }
}

impl View for Config {
    type V = ConfigView;

    open spec fn view(&self) -> ConfigView {
        ConfigView {
            work_dir: opt_view(self.work_dir),
            mod_dir: opt_view(self.mod_dir),
            export_dir: opt_view(self.export_dir),
            game_dir: opt_view(self.game_dir),
        }
    }
}

/// Copies an optional string.
fn copy_opt(o: &Option<String>) -> (res: Option<String>)
    ensures
        opt_view(res) == opt_view(*o),
{
    match o {
        None => None,
        Some(s) => Some(s.clone()),
    }
}

/// `newer` where it is present, else `older`.
fn prefer_newer_exec(older: &Option<String>, newer: &Option<String>) -> (res: Option<String>)
    ensures
        opt_view(res) == prefer_newer(opt_view(*older), opt_view(*newer)),
{
    match newer {
        Some(_) => copy_opt(newer),
        None => copy_opt(older),
    }
}

impl Config {
    /// A configuration with no directory recorded.
    pub fn new() -> (res: Config)
        ensures
            res@ == ConfigView::empty(),
    {
        Config { work_dir: None, mod_dir: None, export_dir: None, game_dir: None }
    }

    /// A copy of this configuration.
    pub fn duplicate(&self) -> (res: Config)
        ensures
            res@ == self@,
    {
        Config {
            work_dir: copy_opt(&self.work_dir),
            mod_dir: copy_opt(&self.mod_dir),
            export_dir: copy_opt(&self.export_dir),
            game_dir: copy_opt(&self.game_dir),
        }
    }

    /// This configuration updated by `new_config`: each directory that `new_config`
    /// records replaces this one's, and each that it leaves absent is kept.
    pub fn merge(&self, new_config: &Config) -> (res: Config)
        ensures
            res@ == self@.merge(new_config@),
    {
        Config {
            work_dir: prefer_newer_exec(&self.work_dir, &new_config.work_dir),
            mod_dir: prefer_newer_exec(&self.mod_dir, &new_config.mod_dir),
            export_dir: prefer_newer_exec(&self.export_dir, &new_config.export_dir),
            game_dir: prefer_newer_exec(&self.game_dir, &new_config.game_dir),
        }
    }

    /// The text shown for this configuration (what `Display` writes):
    /// `Working Directory: ..`, `Current Mod Directory: ..`, `Export Directory: ..`
    /// and `Game Directory: ..` on four lines, each value as `Debug` writes it.
    pub fn to_text(&self) -> (res: String)
        ensures
            res@ == self@.describe(),
    {
        let mut out = String::from_str("Working Directory: ");
        let v = debug_option_text(&self.work_dir);
        out.append(v.as_str());
        out.append("\nCurrent Mod Directory: ");
        let v = debug_option_text(&self.mod_dir);
        out.append(v.as_str());
        out.append("\nExport Directory: ");
        let v = debug_option_text(&self.export_dir);
        out.append(v.as_str());
        out.append("\nGame Directory: ");
        let v = debug_option_text(&self.game_dir);
        out.append(v.as_str());
        out
    }
}


impl Clone for Config {
    /// A copy with the same directories.
    fn clone(&self) -> (res: Self)
        ensures
            res@ == self@,
    {
        self.duplicate()
    }
}

/// What was found where the configuration is stored.
pub enum StoredConfig {
    /// No configuration file exists yet.
    Absent,
    /// The file held a configuration.
    Parsed(Config),
    /// The file exists but does not hold a configuration.
    Corrupted,
}

/// The error reported for a configuration file that cannot be read as one.
pub open spec fn corrupted_message() -> Seq<char> {
    "Config file corrupted, delete/fix config.yml"@
}

/// The configuration in effect, given what was found where it is stored: the empty
/// configuration when nothing is stored, the stored one when it reads back, and an
/// error when the stored file is corrupted.
pub fn get_config(stored: StoredConfig) -> (res: Result<Config, String>)
    ensures
        match stored {
            StoredConfig::Absent => res matches Ok(c) && c@ == ConfigView::empty(),
            StoredConfig::Parsed(s) => res matches Ok(c) && c@ == s@,
            StoredConfig::Corrupted => res matches Err(e) && e@ == corrupted_message(),
        },
{
    match stored {
        StoredConfig::Absent => Ok(Config::new()),
        StoredConfig::Parsed(c) => Ok(c),
        StoredConfig::Corrupted => Err(String::from_str("Config file corrupted, delete/fix config.yml")),
    }
}

/// The configuration that saving `new_config` stores: with `force` it replaces
/// what was stored; without, it is merged into the stored configuration.
pub open spec fn saved_config(new_config: ConfigView, force: bool, stored: ConfigView) -> ConfigView {
    if force {
        new_config
    } else {
        stored.merge(new_config)
    }
}

/// The configuration to write when `new_config` is saved over `stored` (which is not
/// consulted when `force` is set).
pub fn set_config(new_config: &Config, force: bool, stored: &Config) -> (res: Config)
    ensures
        res@ == saved_config(new_config@, force, stored@),
{
    if force {
        new_config.duplicate()
    } else {
        stored.merge(new_config)
    }
}

/// Merging in the empty configuration changes nothing, and merging a configuration
/// into the empty one gives that configuration.
pub proof fn merge_empty_is_identity(c: ConfigView)
    ensures
        c.merge(ConfigView::empty()) == c,
        ConfigView::empty().merge(c) == c,
{
}

/// Merging is associative: applying `b` then `c` to `a` is applying `b` merged with `c`.
pub proof fn merge_associative(a: ConfigView, b: ConfigView, c: ConfigView)
    ensures
        a.merge(b).merge(c) == a.merge(b.merge(c)),
{
}

/// Saving the same update twice stores what saving it once stores.
pub proof fn merge_repeat_is_idempotent(a: ConfigView, b: ConfigView)
    ensures
        a.merge(b).merge(b) == a.merge(b),
        a.merge(a) == a,
{
}

/// A directory recorded by an update wins over the stored one; a directory the update
/// leaves absent keeps its stored value.
pub proof fn merge_newer_wins(a: ConfigView, b: ConfigView)
    ensures
        b.work_dir is Some ==> a.merge(b).work_dir == b.work_dir,
        b.mod_dir is Some ==> a.merge(b).mod_dir == b.mod_dir,
        b.export_dir is Some ==> a.merge(b).export_dir == b.export_dir,
        b.game_dir is Some ==> a.merge(b).game_dir == b.game_dir,
        b.work_dir is None ==> a.merge(b).work_dir == a.work_dir,
        b.mod_dir is None ==> a.merge(b).mod_dir == a.mod_dir,
        b.export_dir is None ==> a.merge(b).export_dir == a.export_dir,
        b.game_dir is None ==> a.merge(b).game_dir == a.game_dir,
{
}

} // verus!
