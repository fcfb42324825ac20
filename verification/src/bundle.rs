use vstd::prelude::*;
use vstd::string::*;
use crate::text::same_text;
use crate::cli::{DirSpec, dir_view};

verus! {

/// What happens to one file of a mod folder when the mod is exported: whether it
/// goes into the archive, and whether it is removed from the folder afterwards.
pub struct ExportEntryPlan {
    pub archive: bool,
    pub remove: bool,
}

/// The export rule for a file with extension `ext`: a plain script (`.nut`) is left
/// out of the archive only when compiling with `delete_nuts`; every other file goes
/// in; compiled scripts (`.cnut`) that compiling produced are removed afterwards.
pub open spec fn export_entry_spec(ext: Seq<char>, compile: bool, delete_nuts: bool) -> (bool, bool) {
    (ext != "nut"@ || !(compile && delete_nuts), compile && ext == "cnut"@)
}

/// The plan for one file, with extension `extension`, of a mod folder being exported.
pub fn export_entry_plan(extension: &str, compile: bool, delete_nuts: bool) -> (res: ExportEntryPlan)
    ensures
        (res.archive, res.remove) == export_entry_spec(extension@, compile, delete_nuts),
{
    let is_nut = same_text(extension, "nut");
    let is_cnut = same_text(extension, "cnut");
    let archive = if !is_nut {
        true
    } else {
        !compile || !delete_nuts
    };
    ExportEntryPlan { archive, remove: compile && is_cnut }
}

/// What happens to one unpacked file of an imported mod: whether it is decompiled
/// into a plain script beside it, and whether it is then removed.
pub struct ImportEntryPlan {
    pub decompile: bool,
    pub remove: bool,
}

/// The import rule for a file with extension `ext` (absent when the file has none):
/// compiled scripts (`.cnut`) are decompiled, and removed when `delete_cnuts` is set;
/// other files are left as they are.
pub open spec fn import_entry_spec(ext: Option<Seq<char>>, delete_cnuts: bool) -> (bool, bool) {
    let compiled = ext == Some("cnut"@);
    (compiled, compiled && delete_cnuts)
}

/// The plan for one unpacked file, with extension `extension`, of a mod being imported.
pub fn import_entry_plan(extension: Option<&str>, delete_cnuts: bool) -> (res: ImportEntryPlan)
    ensures
        (res.decompile, res.remove) == import_entry_spec(
            match extension {
                None => None,
                Some(e) => Some(e@),
            },
            delete_cnuts,
        ),
{
    let compiled = match extension {
        None => false,
        Some(e) => same_text(e, "cnut"),
    };
    ImportEntryPlan { decompile: compiled, remove: compiled && delete_cnuts }
}

/// Removing plain scripts does nothing unless they are compiled: without `compile`,
/// the plan for every file is the same whether or not `delete_nuts` is set.
pub proof fn remove_nuts_needs_compile(ext: Seq<char>, delete_nuts: bool)
    ensures
        export_entry_spec(ext, false, delete_nuts) == export_entry_spec(ext, false, false),
{
}

/// Without compiling, an export archives every file and removes none.
pub proof fn plain_export_keeps_everything(ext: Seq<char>, delete_nuts: bool)
    ensures
        export_entry_spec(ext, false, delete_nuts) == (true, false),
{
}


/// The position of the last `.` in `s`, or -1 when there is none.
pub open spec fn last_dot(s: Seq<char>) -> int
    decreases s.len(),
{
    if s.len() == 0 {
        -1
    } else if s.last() == '.' {
        s.len() - 1
    } else {
        last_dot(s.drop_last())
    }
}

/// The stem of a file name, as std's `Path::file_stem` documents it: the whole name
/// when it is `..`, holds no `.`, or starts with its only `.`; otherwise the part
/// before the last `.`.
pub open spec fn file_stem(name: Seq<char>) -> Seq<char> {
    if name == ".."@ || last_dot(name) <= 0 {
        name
    } else {
        name.take(last_dot(name))
    }
}

/// The archive file that an export of the mod folder named `folder_name` writes:
/// the folder's stem with its own extension replaced by `zip` (what std's
/// `set_extension("zip")` does to the stem). Absent when the stem is `.` or `..`,
/// which name no file inside the target folder (see `archive_path` for where the
/// archive goes then).
pub open spec fn archive_file_name_spec(folder_name: Seq<char>) -> Option<Seq<char>> {
    let stem = file_stem(folder_name);
    if stem == "."@ || stem == ".."@ {
        None
    } else {
        Some(file_stem(stem) + ".zip"@)
    }
}

fn last_dot_exec(s: &str) -> (res: Option<usize>)
    ensures
        match res {
            None => last_dot(s@) == -1,
            Some(i) => last_dot(s@) == i as int && i < s@.len(),
        },
{
    let n = s.unicode_len();
    let mut i = n;
    assert(s@.take(n as int) =~= s@);
    while i > 0
        invariant
            n == s@.len(),
            i <= n,
            last_dot(s@) == last_dot(s@.take(i as int)),
        decreases i,
    {
        assert(s@.take(i as int).drop_last() =~= s@.take(i - 1));
        assert(s@.take(i as int).last() == s@[i - 1]);
        if s.get_char(i - 1) == '.' {
            return Some(i - 1);
        }
        i = i - 1;
    }
    None
}

fn file_stem_exec(name: &str) -> (res: &str)
    ensures
        res@ == file_stem(name@),
{
    if same_text(name, "..") {
        return name;
    }
    match last_dot_exec(name) {
        None => name,
        Some(i) => {
            if i == 0 {
                name
            } else {
                name.substring_char(0, i)
            }
        },
    }
}

/// The archive file name for the mod folder named `folder_name` (its last path
/// component), or `None` when its stem is `.` or `..`.
pub fn archive_file_name(folder_name: &str) -> (res: Option<String>)
    ensures
        match res {
            None => archive_file_name_spec(folder_name@) is None,
            Some(n) => archive_file_name_spec(folder_name@) == Some(n@),
        },
{
    let stem = file_stem_exec(folder_name);
    if same_text(stem, ".") || same_text(stem, "..") {
        return None;
    }
    let mut out = String::from_str(file_stem_exec(stem));
    out.append(".zip");
    Some(out)
}

/// Where a mod's archive lives.
pub enum ArchivePath {
    /// The file `file_name` inside the folder `folder`.
    InFolder { folder: DirSpec, file_name: String },
    /// Beside the folder `folder`: the folder's own path with its extension set to
    /// `zip` (std's `set_extension("zip")`). This is where the archive lands when the
    /// mod folder's stem is `.`: joining `.` to the folder adds no component, so the
    /// extension is set on the folder's last component.
    BesideFolder { folder: DirSpec },
}

fn copy_dir(folder: &DirSpec) -> (res: DirSpec)
    ensures
        dir_view(res) == dir_view(*folder),
{
    DirSpec {
        base: folder.base.clone(),
        sub: match &folder.sub {
            None => None,
            Some(s) => Some(s.clone()),
        },
    }
}

/// The archive of the mod folder named `folder_name` (its last path component) for
/// the folder `folder`: what an export (or update) into `folder` writes, and what
/// `delete` removes. When the stem is `..` there is none: the path names the folder's
/// parent directory, which no archive can be written to.
pub fn archive_path(folder: &DirSpec, folder_name: &str) -> (res: Option<ArchivePath>)
    ensures
        file_stem(folder_name@) == ".."@ <==> res is None,
        file_stem(folder_name@) == "."@ ==> (res matches Some(ArchivePath::BesideFolder { folder: f })
            && dir_view(f) == dir_view(*folder)),
        archive_file_name_spec(folder_name@) matches Some(n) ==> (res matches Some(ArchivePath::InFolder { folder: f, file_name })
            && dir_view(f) == dir_view(*folder) && file_name@ == n),
{
    let stem = file_stem_exec(folder_name);
    proof {
        reveal_strlit(".");
        reveal_strlit("..");
        assert("."@.len() != ".."@.len());
    }
    if same_text(stem, "..") {
        return None;
    }
    if same_text(stem, ".") {
        return Some(ArchivePath::BesideFolder { folder: copy_dir(folder) });
    }
    let mut file_name = String::from_str(file_stem_exec(stem));
    file_name.append(".zip");
    Some(ArchivePath::InFolder { folder: copy_dir(folder), file_name })
}

/// The name of the folder an archive named `archive_name` (its last path component)
/// is unpacked into, inside the import's target directory: the archive's stem.
pub fn import_folder_name(archive_name: &str) -> (res: String)
    ensures
        res@ == file_stem(archive_name@),
{
    String::from_str(file_stem_exec(archive_name))
}

} // verus!
