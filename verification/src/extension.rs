use vstd::prelude::*;

use crate::errors::{FileSystemError, IoErrorKind};
use crate::naming::{extension_file_name, extension_file_name_spec, views, LUA_EXT, YAML_EXT};
use crate::text::{concat, concat3, decimal, decimal_spec, ends_with_spec, starts_with_spec};

verus! {

/// The Lua script that a new extension starts from.
pub open spec fn lua_template_spec(name: Seq<char>) -> Seq<char> {
    "-- "@ + name + "\n-- Write your extension logic here\n\nprint(\"Running "@ + name + "\")\n"@
}

/// The manifest that a new extension starts from.
pub open spec fn yaml_template_spec(name: Seq<char>) -> Seq<char> {
    "name: "@ + name + "\ndescription: \"\"\nargs: []\ncommands:\n  - lua "@ + name + ".lua\n"@
}

/// The Lua script of a new extension named `name`.
pub fn lua_template(name: &str) -> (res: String)
    ensures
        res@ == lua_template_spec(name@),
{
    let mut s = String::from_str("-- ");
    s.append(name);
    s.append("\n-- Write your extension logic here\n\nprint(\"Running ");
    s.append(name);
    s.append("\")\n");
    s
}

/// The manifest of a new extension named `name`.
pub fn yaml_template(name: &str) -> (res: String)
    ensures
        res@ == yaml_template_spec(name@),
{
    let mut s = String::from_str("name: ");
    s.append(name);
    s.append("\ndescription: \"\"\nargs: []\ncommands:\n  - lua ");
    s.append(name);
    s.append(".lua\n");
    s
}

/// The files that make up a new extension: their names within the
/// extensions directory and their contents.
#[derive(Debug)]
pub struct ExtensionFiles {
    pub lua_file: String,
    pub lua_contents: String,
    pub yaml_file: String,
    pub yaml_contents: String,
}

/// Decides what creating the extension `name` writes, given whether its Lua
/// script already exists: the two files of the new extension, or an
/// `AlreadyExists` error that leaves the existing extension untouched.
pub fn create_extension_files(name: &str, lua_exists: bool) -> (res: Result<
    ExtensionFiles,
    FileSystemError,
>)
    ensures
        lua_exists <==> res is Err,
        res matches Ok(f) ==> {
            &&& f.lua_file@ == extension_file_name_spec(name@, LUA_EXT@)
            &&& f.lua_contents@ == lua_template_spec(name@)
            &&& f.yaml_file@ == extension_file_name_spec(name@, YAML_EXT@)
            &&& f.yaml_contents@ == yaml_template_spec(name@)
            &&& ends_with_spec(f.yaml_contents@, "  - lua "@ + f.lua_file@ + "\n"@)
        },
        res matches Err(e) ==> e matches FileSystemError::IoError { kind, message } && kind
            == IoErrorKind::AlreadyExists && message@ == "extension already exists"@,
{
    if lua_exists {
        return Err(
            FileSystemError::IoError {
                kind: IoErrorKind::AlreadyExists,
                message: String::from_str("extension already exists"),
            },
        );
    }
    proof {
        lemma_manifest_runs_the_created_script(name@);
    }
    Ok(
        ExtensionFiles {
            lua_file: extension_file_name(name, LUA_EXT),
            lua_contents: lua_template(name),
            yaml_file: extension_file_name(name, YAML_EXT),
            yaml_contents: yaml_template(name),
        },
    )
}

/// Checks that an extension to update or remove exists: a `NotFound` error
/// exactly where its Lua script does not.
pub fn require_extension(lua_exists: bool) -> (res: Result<(), FileSystemError>)
    ensures
        lua_exists <==> res is Ok,
        res matches Err(e) ==> e matches FileSystemError::IoError { kind, message } && kind
            == IoErrorKind::NotFound && message@ == "extension not found"@,
{
    if lua_exists {
        Ok(())
    } else {
        Err(
            FileSystemError::IoError {
                kind: IoErrorKind::NotFound,
                message: String::from_str("extension not found"),
            },
        )
    }
}

/// The stems, in order, of the candidates whose manifest is present: each
/// candidate is a script's stem and whether `<stem>.yaml` exists beside it.
pub open spec fn bootstrap_pairs_spec(candidates: Seq<(String, bool)>) -> Seq<Seq<char>>
    decreases candidates.len(),
{
    if candidates.len() == 0 {
        Seq::empty()
    } else {
        let rest = bootstrap_pairs_spec(candidates.drop_last());
        if candidates.last().1 {
            rest.push(candidates.last().0@)
        } else {
            rest
        }
    }
}

/// The extensions that a bootstrap imports: the script stems whose manifest
/// is present, in the order of the candidates.
pub fn bootstrap_pairs(candidates: &Vec<(String, bool)>) -> (res: Vec<String>)
    ensures
        views(res@) == bootstrap_pairs_spec(candidates@),
{
    let mut res: Vec<String> = Vec::new();
    let n = candidates.len();
    let mut i: usize = 0;
    while i < n
        invariant
            n == candidates@.len(),
            i <= n,
            views(res@) == bootstrap_pairs_spec(candidates@.subrange(0, i as int)),
        decreases n - i,
    {
        let ghost pre = candidates@.subrange(0, i + 1);
        assert(pre.drop_last() =~= candidates@.subrange(0, i as int));
        if candidates[i].1 {
            res.push(candidates[i].0.clone());
            assert(views(res@) =~= bootstrap_pairs_spec(pre));
        }
        i = i + 1;
    }
    assert(candidates@.subrange(0, n as int) =~= candidates@);
    res
}

/// Where a bootstrap stands.
#[derive(Debug, Clone, Copy, PartialEq, Eq, Structural)]
pub enum BootstrapStep {
    /// The source is not a directory: report it and fail.
    NotADirectory,
    /// The source holds no extension: warn and stop.
    NothingFound,
    /// Show the extensions found and ask whether to import them.
    Confirm,
    /// The user declined: say so and import nothing.
    Aborted,
    /// The user agreed: import every extension found.
    Import,
}

/// The next step of a bootstrap, from whether the source is a directory, how
/// many extensions it holds, and the user's answer where one was given.
pub open spec fn bootstrap_step_spec(is_dir: bool, found: nat, confirmed: Option<bool>) -> BootstrapStep {
    if !is_dir {
        BootstrapStep::NotADirectory
    } else if found == 0 {
        BootstrapStep::NothingFound
    } else {
        match confirmed {
            None => BootstrapStep::Confirm,
            Some(false) => BootstrapStep::Aborted,
            Some(true) => BootstrapStep::Import,
        }
    }
}

/// Decides the next step of a bootstrap; see [`bootstrap_step_spec`].
/// Nothing is imported unless the user agreed.
pub fn bootstrap_step(is_dir: bool, found: usize, confirmed: Option<bool>) -> (res: BootstrapStep)
    ensures
        res == bootstrap_step_spec(is_dir, found as nat, confirmed),
        res == BootstrapStep::Import ==> confirmed == Some(true) && is_dir && found > 0,
        (res == BootstrapStep::NothingFound) <==> (is_dir && found == 0),
        (res == BootstrapStep::Confirm) <==> (is_dir && found >= 1 && confirmed is None),
{
    if !is_dir {
        BootstrapStep::NotADirectory
    } else if found == 0 {
        BootstrapStep::NothingFound
    } else {
        match confirmed {
            None => BootstrapStep::Confirm,
            Some(false) => BootstrapStep::Aborted,
            Some(true) => BootstrapStep::Import,
        }
    }
}

/// Where a clean of the extensions directory stands.
#[derive(Debug, Clone, Copy, PartialEq, Eq, Structural)]
pub enum CleanStep {
    /// There is no extensions directory: say so and stop.
    AlreadyEmpty,
    /// The directory holds no extension file: say so and stop.
    NothingToRemove,
    /// List the files and ask whether to remove them.
    Confirm,
    /// The user declined: say so and remove nothing.
    Aborted,
    /// The user agreed: remove every listed file.
    Remove,
}

/// The next step of a clean, from whether the directory exists, how many
/// extension files it holds, and the user's answer where one was given.
pub open spec fn clean_step_spec(dir_exists: bool, files: nat, confirmed: Option<bool>) -> CleanStep {
    if !dir_exists {
        CleanStep::AlreadyEmpty
    } else if files == 0 {
        CleanStep::NothingToRemove
    } else {
        match confirmed {
            None => CleanStep::Confirm,
            Some(false) => CleanStep::Aborted,
            Some(true) => CleanStep::Remove,
        }
    }
}

/// Decides the next step of a clean; see [`clean_step_spec`]. Nothing is
/// removed unless the user agreed.
pub fn clean_step(dir_exists: bool, files: usize, confirmed: Option<bool>) -> (res: CleanStep)
    ensures
        res == clean_step_spec(dir_exists, files as nat, confirmed),
        res == CleanStep::Remove ==> confirmed == Some(true) && dir_exists && files > 0,
        (res == CleanStep::NothingToRemove) <==> (dir_exists && files == 0),
        (res == CleanStep::Confirm) <==> (dir_exists && files >= 1 && confirmed is None),
{
    if !dir_exists {
        CleanStep::AlreadyEmpty
    } else if files == 0 {
        CleanStep::NothingToRemove
    } else {
        match confirmed {
            None => CleanStep::Confirm,
            Some(false) => CleanStep::Aborted,
            Some(true) => CleanStep::Remove,
        }
    }
}

/// The error for an extension whose files are missing:
/// `NotFound`, "no extension '<name>' found".
pub fn missing_extension_error(name: &str) -> (res: FileSystemError)
    ensures
        res matches FileSystemError::IoError { kind, message } && kind == IoErrorKind::NotFound
            && message@ == "no extension '"@ + name@ + "' found"@,
{
    FileSystemError::IoError {
        kind: IoErrorKind::NotFound,
        message: concat3("no extension '", name, "' found"),
    }
}

/// The error for a source of extensions that is not a directory.
pub fn not_a_directory_error() -> (res: FileSystemError)
    ensures
        res matches FileSystemError::IoError { kind, message } && kind == IoErrorKind::InvalidInput
            && message@ == "path is not a directory"@,
{
    FileSystemError::IoError {
        kind: IoErrorKind::InvalidInput,
        message: String::from_str("path is not a directory"),
    }
}

/// An `OperationError` whose message is `prefix` followed by `detail`.
pub fn operation_error(prefix: &str, detail: &str) -> (res: FileSystemError)
    ensures
        res matches FileSystemError::OperationError(m) && m@ == prefix@ + detail@,
{
    FileSystemError::OperationError(concat(prefix, detail))
}

/// The error of a failed parse of a manifest, with the parser's message.
pub fn manifest_parse_error(detail: &str) -> (res: FileSystemError)
    ensures
        res matches FileSystemError::OperationError(m) && m@ == "failed to parse extension manifest: "@
            + detail@,
{
    operation_error("failed to parse extension manifest: ", detail)
}

/// The error of a failed setup of the Lua state for the extension `name`.
pub fn lua_setup_error(name: &str, detail: &str) -> (res: FileSystemError)
    ensures
        res matches FileSystemError::OperationError(m) && m@ == "lua setup error in '"@ + name@
            + "': "@ + detail@,
{
    FileSystemError::OperationError(concat(concat3("lua setup error in '", name, "': ").as_str(), detail))
}

/// The error of a failed run of the extension `name`.
pub fn lua_run_error(name: &str, detail: &str) -> (res: FileSystemError)
    ensures
        res matches FileSystemError::OperationError(m) && m@ == "lua error in '"@ + name@ + "': "@
            + detail@,
{
    FileSystemError::OperationError(concat(concat3("lua error in '", name, "': ").as_str(), detail))
}

/// The error of a failed extraction of the embedded file `file`.
pub fn extract_error(file: &str, detail: &str) -> (res: FileSystemError)
    ensures
        res matches FileSystemError::OperationError(m) && m@ == "failed to extract '"@ + file@
            + "': "@ + detail@,
{
    FileSystemError::OperationError(concat(concat3("failed to extract '", file, "': ").as_str(), detail))
}

/// The error of a failed start of the editor `editor`.
pub fn editor_open_error(editor: &str, detail: &str) -> (res: FileSystemError)
    ensures
        res matches FileSystemError::OperationError(m) && m@ == "Failed to open editor '"@ + editor@
            + "': "@ + detail@,
{
    FileSystemError::OperationError(
        concat(concat3("Failed to open editor '", editor, "': ").as_str(), detail),
    )
}

/// The editors offered to open extensions in, in the order they are offered.
pub fn editor_names() -> (res: Vec<&'static str>)
    ensures
        res@.len() == 2,
        res@[0]@ == "Zed"@,
        res@[1]@ == "VS Code"@,
{
    let mut v: Vec<&'static str> = Vec::new();
    v.push("Zed");
    v.push("VS Code");
    v
}

/// The program that opens the editor offered at position `selection`: `zed`
/// for the first, `code` for any other.
pub fn editor_binary(selection: usize) -> (res: &'static str)
    ensures
        selection == 0 ==> res@ == "zed"@,
        selection != 0 ==> res@ == "code"@,
{
    if selection == 0 {
        "zed"
    } else {
        "code"
    }
}

/// "Extension '<name>' already exists".
pub fn already_exists_message(name: &str) -> (res: String)
    ensures
        res@ == "Extension '"@ + name@ + "' already exists"@,
{
    concat3("Extension '", name, "' already exists")
}

/// "Extension '<name>' not found".
pub fn not_found_message(name: &str) -> (res: String)
    ensures
        res@ == "Extension '"@ + name@ + "' not found"@,
{
    concat3("Extension '", name, "' not found")
}

/// "Created extension '<name>' at <location>".
pub fn created_message(name: &str, location: &str) -> (res: String)
    ensures
        res@ == "Created extension '"@ + name@ + "' at "@ + location@,
{
    concat(concat3("Created extension '", name, "' at ").as_str(), location)
}

/// "Removed extension '<name>'".
pub fn removed_message(name: &str) -> (res: String)
    ensures
        res@ == "Removed extension '"@ + name@ + "'"@,
{
    concat3("Removed extension '", name, "'")
}

/// "Imported extension '<name>'".
pub fn imported_message(name: &str) -> (res: String)
    ensures
        res@ == "Imported extension '"@ + name@ + "'"@,
{
    concat3("Imported extension '", name, "'")
}

/// "Found <count> extension pair(s):".
pub fn found_pairs_message(count: usize) -> (res: String)
    ensures
        res@ == "Found "@ + decimal_spec(count as nat) + " extension pair(s):"@,
{
    concat3("Found ", decimal(count).as_str(), " extension pair(s):")
}

/// "  • <name>.lua + <name>.yaml".
pub fn pair_line(name: &str) -> (res: String)
    ensures
        res@ == "  • "@ + name@ + ".lua + "@ + name@ + ".yaml"@,
{
    let mut s = String::from_str("  • ");
    s.append(name);
    s.append(".lua + ");
    s.append(name);
    s.append(".yaml");
    s
}

/// "  • <file>".
pub fn listed_file_line(file: &str) -> (res: String)
    ensures
        res@ == "  • "@ + file@,
{
    concat("  • ", file)
}

/// "Removed <count> extension file(s)".
pub fn removed_files_message(count: usize) -> (res: String)
    ensures
        res@ == "Removed "@ + decimal_spec(count as nat) + " extension file(s)"@,
{
    concat3("Removed ", decimal(count).as_str(), " extension file(s)")
}

/// "Unknown subcommand '<name>'".
pub fn unknown_subcommand_message(name: &str) -> (res: String)
    ensures
        res@ == "Unknown subcommand '"@ + name@ + "'"@,
{
    concat3("Unknown subcommand '", name, "'")
}

/// "no match: <detail>", shown when an extension cannot be run or explained.
pub fn no_match_message(detail: &str) -> (res: String)
    ensures
        res@ == "no match: "@ + detail@,
{
    concat("no match: ", detail)
}

/// "<id> is required", the complaint about a missing argument.
pub fn required_message(id: &str) -> (res: String)
    ensures
        res@ == id@ + " is required"@,
{
    concat(id, " is required")
}

/// Shown when the `extension` command is given no subcommand.
pub const NO_SUBCOMMAND: &'static str = "No subcommand provided. Use `--help` to see available options.";

/// Shown when Forge is given no command.
pub const NO_COMMAND: &'static str = "no command provided";

/// Shown when the source of a bootstrap is not a directory.
pub const NOT_A_DIRECTORY: &'static str = "Provided path is not a directory";

/// Shown when a source directory holds no extension.
pub const NO_PAIRS_FOUND: &'static str = "No matching .lua/.yaml pairs found in the provided directory";

/// The question asked before extensions are imported.
pub const CONFIRM_IMPORT: &'static str = "Add these extensions to the extensions directory?";

/// The question asked before every extension is removed.
pub const CONFIRM_CLEAN: &'static str = "Remove all extensions? This cannot be undone";

/// The question that offers the editors.
pub const CHOOSE_EDITOR: &'static str = "Choose your preferred editor";

/// Shown when the user declines.
pub const ABORTED: &'static str = "Aborted";

/// Shown when there is no extensions directory to clean.
pub const ALREADY_EMPTY: &'static str = "Extensions directory is already empty";

/// Shown when the extensions directory holds no extension file.
pub const NOTHING_TO_REMOVE: &'static str = "No extensions to remove";

/// The header of the files that a clean removes.
pub const FILES_TO_REMOVE: &'static str = "The following files will be removed:";

/// The prefix of the error of a failed creation of the extensions directory.
pub const DIR_CREATE_FAILED: &'static str = "failed to create extensions dir: ";

/// Law: the manifest of a new extension names the extension and runs the
/// script that is created with it: for every name, it begins with
/// `name: <name>` and its last line is `  - lua <name>.lua`; the script begins
/// with a comment that names the extension.
pub proof fn lemma_manifest_runs_the_created_script(name: Seq<char>)
    ensures
        starts_with_spec(yaml_template_spec(name), "name: "@ + name + "\n"@),
        ends_with_spec(
            yaml_template_spec(name),
            "  - lua "@ + extension_file_name_spec(name, LUA_EXT@) + "\n"@,
        ),
        starts_with_spec(lua_template_spec(name), "-- "@ + name + "\n"@),
{
    reveal_strlit("lua");
    reveal_strlit(".lua\n");
    reveal_strlit("\n");
    reveal_strlit(".");
    reveal_strlit("  - lua ");
    reveal_strlit("\ndescription: \"\"\nargs: []\ncommands:\n  - lua ");
    reveal_strlit("name: ");
    reveal_strlit("-- ");
    reveal_strlit("\n-- Write your extension logic here\n\nprint(\"Running ");
    let y = yaml_template_spec(name);
    let head = "name: "@ + name + "\n"@;
    let tail = "  - lua "@ + extension_file_name_spec(name, LUA_EXT@) + "\n"@;
    assert(y.subrange(0, head.len() as int) =~= head);
    assert(y.subrange(y.len() - tail.len(), y.len() as int) =~= tail);
    let l = lua_template_spec(name);
    let lhead = "-- "@ + name + "\n"@;
    assert(l.subrange(0, lhead.len() as int) =~= lhead);
}

/// Law: a bootstrap asks exactly when the source is a directory that holds at
/// least one extension and no answer is given yet; it reports "nothing found"
/// exactly when the directory holds none, fails exactly when the source is not
/// a directory, and imports exactly when, beyond that, the user agreed.
pub proof fn lemma_bootstrap_steps(is_dir: bool, found: nat, confirmed: Option<bool>)
    ensures
        (bootstrap_step_spec(is_dir, found, confirmed) == BootstrapStep::NotADirectory) <==> !is_dir,
        (bootstrap_step_spec(is_dir, found, confirmed) == BootstrapStep::NothingFound) <==> (is_dir
            && found == 0),
        (bootstrap_step_spec(is_dir, found, confirmed) == BootstrapStep::Confirm) <==> (is_dir && found
            >= 1 && confirmed is None),
        (bootstrap_step_spec(is_dir, found, confirmed) == BootstrapStep::Aborted) <==> (is_dir && found
            >= 1 && confirmed == Some(false)),
        (bootstrap_step_spec(is_dir, found, confirmed) == BootstrapStep::Import) <==> (is_dir && found
            >= 1 && confirmed == Some(true)),
{
}

/// Law: a clean asks exactly when the directory exists and holds at least one
/// extension file and no answer is given yet; it stops with "nothing to
/// remove" exactly when the directory holds none, and removes exactly when,
/// beyond that, the user agreed.
pub proof fn lemma_clean_steps(dir_exists: bool, files: nat, confirmed: Option<bool>)
    ensures
        (clean_step_spec(dir_exists, files, confirmed) == CleanStep::AlreadyEmpty) <==> !dir_exists,
        (clean_step_spec(dir_exists, files, confirmed) == CleanStep::NothingToRemove) <==> (dir_exists
            && files == 0),
        (clean_step_spec(dir_exists, files, confirmed) == CleanStep::Confirm) <==> (dir_exists && files
            >= 1 && confirmed is None),
        (clean_step_spec(dir_exists, files, confirmed) == CleanStep::Aborted) <==> (dir_exists && files
            >= 1 && confirmed == Some(false)),
        (clean_step_spec(dir_exists, files, confirmed) == CleanStep::Remove) <==> (dir_exists && files
            >= 1 && confirmed == Some(true)),
{
}

} // verus!
