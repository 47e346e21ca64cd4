use forge::cli::{extension_command, extension_command_spec, self_command, self_command_spec};
use forge::config::{ForgeConfig, DATABASE_URL, DEFAULT_RUNNER};
use forge::dispatch::{
    lookup, parse_commands, parse_extension_options, parse_self_options, CommandAction, ExtensionAction, Matches,
};
use forge::errors::{FileSystemError, IoErrorKind};
use forge::extension::{
    already_exists_message, bootstrap_pairs, bootstrap_step, clean_step, create_extension_files, BootstrapStep,
    CleanStep, created_message, editor_binary, editor_names,
    editor_open_error, extract_error, found_pairs_message, imported_message, listed_file_line,
    lua_run_error, lua_setup_error, lua_template, manifest_parse_error, missing_extension_error,
    no_match_message, not_a_directory_error, not_found_message, pair_line, removed_files_message,
    removed_message, require_extension, required_message, unknown_subcommand_message, yaml_template,
};
use forge::manifest::{arg_line, help_lines, ExtensionArg, ExtensionManifest, LineLevel};
use forge::naming::{extension_file_name, file_extension, file_stem, lua_stems, select_extension_files};
use forge::text::{decimal, pad_right, str_eq, strip_suffix};
use std::path::Path;

fn strings(v: &[&str]) -> Vec<String> {
    v.iter().map(|s| s.to_string()).collect()
}

fn leaf(values: &[(&str, &str)]) -> Matches {
    Matches {
        values: values.iter().map(|(k, v)| (k.to_string(), v.to_string())).collect(),
        subcommand: None,
    }
}

fn with_sub(name: &str, sub: Matches) -> Matches {
    Matches { values: Vec::new(), subcommand: Some((name.to_string(), Box::new(sub))) }
}

fn io_parts(e: &FileSystemError) -> (IoErrorKind, String) {
    match e {
        FileSystemError::IoError { kind, message } => (*kind, message.clone()),
        FileSystemError::OperationError(m) => panic!("unexpected operation error {}", m),
    }
}

fn op_message(e: &FileSystemError) -> String {
    match e {
        FileSystemError::OperationError(m) => m.clone(),
        FileSystemError::IoError { message, .. } => panic!("unexpected io error {}", message),
    }
}

#[test]
fn new_config_has_defaults() {
    let c = ForgeConfig::new();
    assert_eq!(c.scripts.runner, "python3");
    assert_eq!(c.scripts.runner, DEFAULT_RUNNER);
    assert_eq!(c.scripts.source, "");
    assert_eq!(c.env.database_url, DATABASE_URL);
    let d = ForgeConfig::default();
    assert_eq!(d.scripts.runner, c.scripts.runner);
    assert_eq!(d.env.database_url, c.env.database_url);
}

#[test]
fn create_config_reports_not_implemented() {
    let c = ForgeConfig::new();
    assert_eq!(op_message(&c.create().unwrap_err()), "not implemented");
}

#[test]
fn errors_describe_their_message() {
    let e = FileSystemError::IoError { kind: IoErrorKind::Other, message: "boom".to_string() };
    assert_eq!(e.describe(), "boom");
    assert_eq!(FileSystemError::OperationError("bad".to_string()).describe(), "bad");
}

#[test]
fn decimal_writes_numbers() {
    assert_eq!(decimal(0), "0");
    assert_eq!(decimal(7), "7");
    assert_eq!(decimal(42), "42");
    assert_eq!(decimal(1000), "1000");
    assert_eq!(decimal(usize::MAX), usize::MAX.to_string());
}

#[test]
fn pad_right_pads_like_format() {
    assert_eq!(pad_right("ab", 4), "ab  ");
    assert_eq!(pad_right("ab", 4), format!("{:<4}", "ab"));
    assert_eq!(pad_right("abcdef", 4), "abcdef");
    assert_eq!(pad_right("", 3), "   ");
    assert_eq!(pad_right("név", 5), format!("{:<5}", "név"));
}

#[test]
fn string_helpers() {
    assert!(str_eq("abc", "abc"));
    assert!(!str_eq("abc", "abd"));
    assert!(!str_eq("abc", "ab"));
    assert_eq!(strip_suffix("foo-help", "-help"), Some("foo"));
    assert_eq!(strip_suffix("-help", "-help"), Some(""));
    assert_eq!(strip_suffix("help", "-help"), None);
    assert_eq!(strip_suffix("foo", "-help"), None);
    assert_eq!(forge::text::concat("a", "b"), "ab");
    assert_eq!(forge::text::concat3("a", "b", "c"), "abc");
}

#[test]
fn file_extension_reads_like_path() {
    for name in ["a.lua", ".lua", "a", "a.", "..", "a.b.lua", ".a.yaml", "x.yaml", "lua"] {
        let expected = Path::new(name).extension().map(|e| e.to_str().unwrap());
        assert_eq!(file_extension(name), expected, "extension of {}", name);
    }
    for name in ["a.lua", ".lua", "a", "a.", "a.b.lua", ".a.yaml", "x.yaml"] {
        let expected = Path::new(name).file_stem().unwrap().to_str().unwrap();
        assert_eq!(file_stem(name), expected, "stem of {}", name);
    }
}

#[test]
fn extension_file_names() {
    assert_eq!(extension_file_name("x", "lua"), "x.lua");
    assert_eq!(extension_file_name("x", "yaml"), "x.yaml");
}

#[test]
fn file_names_round_trip() {
    for name in ["n", "a.b", ".", "hello-world"] {
        for ext in ["lua", "yaml"] {
            let file = extension_file_name(name, ext);
            assert_eq!(file_extension(&file), Some(ext));
            assert_eq!(file_stem(&file), name);
        }
    }
}

#[test]
fn lua_stems_keep_scripts_in_order() {
    let names = strings(&["a.lua", "b.yaml", "c.txt", ".lua", "d.lua", "e.LUA", "f.b.lua"]);
    assert_eq!(lua_stems(&names), strings(&["a", "d", "f.b"]));
    assert!(lua_stems(&Vec::new()).is_empty());
}

#[test]
fn listed_script_is_found() {
    let names = strings(&["other.txt", "tool.lua", "tool.yaml"]);
    assert!(lua_stems(&names).contains(&"tool".to_string()));
}

#[test]
fn select_extension_files_picks_scripts_and_manifests() {
    let names = strings(&["a.lua", "notes.txt", "a.yaml", ".yaml", "b.yml", "c.lua"]);
    assert_eq!(select_extension_files(&names), vec![0, 2, 5]);
    assert!(select_extension_files(&strings(&["x", "y.txt"])).is_empty());
}

#[test]
fn created_files_are_recognised() {
    let files = create_extension_files("tool", false).unwrap();
    let names = vec![files.lua_file.clone(), files.yaml_file.clone()];
    assert_eq!(select_extension_files(&names), vec![0, 1]);
    assert_eq!(lua_stems(&names), strings(&["tool"]));
}

#[test]
fn templates_are_exact() {
    assert_eq!(
        lua_template("greet"),
        "-- greet\n-- Write your extension logic here\n\nprint(\"Running greet\")\n"
    );
    assert_eq!(
        yaml_template("greet"),
        "name: greet\ndescription: \"\"\nargs: []\ncommands:\n  - lua greet.lua\n"
    );
}

#[test]
fn create_extension_files_plans_new_extension() {
    let f = create_extension_files("greet", false).unwrap();
    assert_eq!(f.lua_file, "greet.lua");
    assert_eq!(f.yaml_file, "greet.yaml");
    assert_eq!(f.lua_contents, lua_template("greet"));
    assert_eq!(f.yaml_contents, yaml_template("greet"));
}

#[test]
fn create_extension_files_refuses_existing() {
    let e = create_extension_files("greet", true).unwrap_err();
    assert_eq!(io_parts(&e), (IoErrorKind::AlreadyExists, "extension already exists".to_string()));
}

#[test]
fn require_extension_reports_missing() {
    assert!(require_extension(true).is_ok());
    let e = require_extension(false).unwrap_err();
    assert_eq!(io_parts(&e), (IoErrorKind::NotFound, "extension not found".to_string()));
}

#[test]
fn errors_have_exact_messages() {
    assert_eq!(
        io_parts(&missing_extension_error("x")),
        (IoErrorKind::NotFound, "no extension 'x' found".to_string())
    );
    assert_eq!(
        io_parts(&not_a_directory_error()),
        (IoErrorKind::InvalidInput, "path is not a directory".to_string())
    );
    assert_eq!(
        op_message(&manifest_parse_error("bad yaml")),
        "failed to parse extension manifest: bad yaml"
    );
    assert_eq!(op_message(&lua_setup_error("x", "oops")), "lua setup error in 'x': oops");
    assert_eq!(op_message(&lua_run_error("x", "oops")), "lua error in 'x': oops");
    assert_eq!(op_message(&extract_error("a.lua", "denied")), "failed to extract 'a.lua': denied");
    assert_eq!(op_message(&editor_open_error("zed", "gone")), "Failed to open editor 'zed': gone");
}

#[test]
fn messages_are_exact() {
    assert_eq!(already_exists_message("x"), "Extension 'x' already exists");
    assert_eq!(not_found_message("x"), "Extension 'x' not found");
    assert_eq!(created_message("x", "/tmp/x.lua"), "Created extension 'x' at /tmp/x.lua");
    assert_eq!(removed_message("x"), "Removed extension 'x'");
    assert_eq!(imported_message("x"), "Imported extension 'x'");
    assert_eq!(found_pairs_message(3), "Found 3 extension pair(s):");
    assert_eq!(found_pairs_message(12), "Found 12 extension pair(s):");
    assert_eq!(pair_line("x"), "  • x.lua + x.yaml");
    assert_eq!(listed_file_line("x.lua"), "  • x.lua");
    assert_eq!(removed_files_message(4), "Removed 4 extension file(s)");
    assert_eq!(unknown_subcommand_message("zap"), "Unknown subcommand 'zap'");
    assert_eq!(no_match_message("nope"), "no match: nope");
    assert_eq!(required_message("name"), "name is required");
}

#[test]
fn editors_are_offered_in_order() {
    assert_eq!(editor_names(), vec!["Zed", "VS Code"]);
    assert_eq!(editor_binary(0), "zed");
    assert_eq!(editor_binary(1), "code");
    assert_eq!(editor_binary(9), "code");
}

fn arg(name: &str, description: &str, required: bool, interactive: bool) -> ExtensionArg {
    ExtensionArg { name: name.to_string(), description: description.to_string(), required, interactive }
}

#[test]
fn arg_lines_show_flags() {
    assert_eq!(arg_line(&arg("file", "input", true, true)), "  file           input  [required, interactive]");
    assert_eq!(arg_line(&arg("file", "input", true, false)), "  file           input  [required]");
    assert_eq!(arg_line(&arg("file", "input", false, true)), "  file           input  [interactive]");
    assert_eq!(arg_line(&arg("file", "input", false, false)), "  file           input");
    assert_eq!(
        arg_line(&arg("a-very-long-argument", "d", false, false)),
        "  a-very-long-argument d"
    );
}

#[test]
fn help_lines_full_manifest() {
    let m = ExtensionManifest {
        name: "greet".to_string(),
        description: "says hello".to_string(),
        args: vec![arg("who", "whom to greet", true, false)],
        commands: strings(&["lua greet.lua"]),
    };
    let lines: Vec<(LineLevel, String)> = help_lines(&m).into_iter().map(|l| (l.level, l.text)).collect();
    let expected = vec![
        (LineLevel::Info, "Extension:   greet".to_string()),
        (LineLevel::Neutral, "Description: says hello".to_string()),
        (LineLevel::Plain, "\nArguments:".to_string()),
        (LineLevel::Neutral, format!("  {:<14} {}{}", "who", "whom to greet", "  [required]")),
        (LineLevel::Plain, "\nCommands:".to_string()),
        (LineLevel::Neutral, "  lua greet.lua".to_string()),
        (LineLevel::Neutral, "\nRun with: forge greet".to_string()),
    ];
    assert_eq!(lines, expected);
}

#[test]
fn help_lines_bare_manifest() {
    let m = ExtensionManifest {
        name: "x".to_string(),
        description: "".to_string(),
        args: Vec::new(),
        commands: Vec::new(),
    };
    let lines: Vec<String> = help_lines(&m).into_iter().map(|l| l.text).collect();
    assert_eq!(lines, strings(&["Extension:   x", "Description: ", "\nRun with: forge x"]));
}

#[test]
fn extension_command_layout() {
    let spec = extension_command_spec();
    assert_eq!(spec.name, "extension");
    assert_eq!(spec.about, "manage Lua extensions");
    assert_eq!(spec.visible_aliases, vec!["ext", "-ext"]);
    let names: Vec<&str> = spec.subcommands.iter().map(|s| s.name).collect();
    assert_eq!(names, vec!["create", "update", "remove", "open", "bootstrap"]);
    assert_eq!(spec.subcommands[2].aliases, vec!["r", "rm"]);
    assert_eq!(spec.subcommands[4].args[0].id, "path");
    assert!(spec.subcommands[4].args[0].required);
    assert!(spec.subcommands[3].args.is_empty());
}

#[test]
fn extension_spellings_are_distinct() {
    let spec = extension_command_spec();
    let mut all: Vec<&str> = Vec::new();
    for s in &spec.subcommands {
        all.push(s.name);
        all.extend(s.aliases.iter().copied());
    }
    let mut sorted = all.clone();
    sorted.sort();
    sorted.dedup();
    assert_eq!(sorted.len(), all.len());
}

#[test]
fn self_command_layout() {
    let spec = self_command_spec();
    assert_eq!(spec.name, "self");
    let names: Vec<&str> = spec.subcommands.iter().map(|s| s.name).collect();
    assert_eq!(names, vec!["uninstall", "upgrade", "configure"]);
    let cmd = self_command();
    assert_eq!(cmd.get_name(), "self");
    let sub: Vec<&str> = cmd.get_subcommands().map(|c| c.get_name()).collect();
    assert_eq!(sub, vec!["uninstall", "upgrade", "configure"]);
}

#[test]
fn extension_command_builds_clap_command() {
    let cmd = extension_command();
    assert_eq!(cmd.get_name(), "extension");
    assert_eq!(cmd.get_about().map(|a| a.to_string()), Some("manage Lua extensions".to_string()));
    let sub: Vec<&str> = cmd.get_subcommands().map(|c| c.get_name()).collect();
    assert_eq!(sub, vec!["create", "update", "remove", "open", "bootstrap"]);
    let remove = cmd.find_subcommand("rm").expect("alias rm");
    assert_eq!(remove.get_name(), "remove");
    let create = cmd.find_subcommand("create").unwrap();
    let arg = create.get_arguments().next().unwrap();
    assert_eq!(arg.get_id().as_str(), "name");
    assert!(arg.is_required_set());
}

#[test]
fn clap_matches_route_to_actions() {
    let m = extension_command().try_get_matches_from(["extension", "c", "tool"]).unwrap();
    let (name, sub) = m.subcommand().unwrap();
    let value = sub.get_one::<String>("name").unwrap().clone();
    let ours = with_sub(name, leaf(&[("name", &value)]));
    assert!(matches!(parse_extension_options(&ours), ExtensionAction::Create(n) if n == "tool"));
    assert!(extension_command().try_get_matches_from(["extension", "create"]).is_err());
}

#[test]
fn parse_extension_options_actions() {
    let p = |name: &str, values: &[(&str, &str)]| parse_extension_options(&with_sub(name, leaf(values)));
    assert!(matches!(p("create", &[("name", "a")]), ExtensionAction::Create(n) if n == "a"));
    assert!(matches!(p("update", &[("name", "a")]), ExtensionAction::Update(n) if n == "a"));
    assert!(matches!(p("remove", &[("name", "a")]), ExtensionAction::Remove(n) if n == "a"));
    assert!(matches!(p("bootstrap", &[("path", "/x")]), ExtensionAction::Bootstrap(n) if n == "/x"));
    assert!(matches!(p("open", &[]), ExtensionAction::Open));
    assert!(matches!(p("zap", &[]), ExtensionAction::Unknown(n) if n == "zap"));
    assert!(matches!(p("create", &[]), ExtensionAction::MissingArgument(n) if n == "name"));
    assert!(matches!(p("bootstrap", &[("name", "a")]), ExtensionAction::MissingArgument(n) if n == "path"));
    assert!(matches!(parse_extension_options(&leaf(&[])), ExtensionAction::NoSubcommand));
}

#[test]
fn lookup_takes_first_value() {
    let values = vec![
        ("name".to_string(), "first".to_string()),
        ("name".to_string(), "second".to_string()),
    ];
    assert_eq!(lookup(&values, "name"), Some("first".to_string()));
    assert_eq!(lookup(&values, "path"), None);
}

#[test]
fn parse_commands_routes() {
    let p = |name: &str| parse_commands(&with_sub(name, leaf(&[])));
    assert!(matches!(p("uninstall"), CommandAction::Uninstall));
    assert!(matches!(p("upgrade"), CommandAction::Upgrade));
    assert!(matches!(p("generate"), CommandAction::Generate));
    assert!(matches!(p("bookmarks"), CommandAction::Bookmarks));
    assert!(matches!(p("extension"), CommandAction::Extension(ExtensionAction::NoSubcommand)));
    assert!(matches!(p("greet-help"), CommandAction::ShowExtensionHelp(n) if n == "greet"));
    assert!(matches!(p("-help"), CommandAction::ShowExtensionHelp(n) if n.is_empty()));
    assert!(matches!(p("greet"), CommandAction::RunExtension(n) if n == "greet"));
    assert!(matches!(p("help"), CommandAction::RunExtension(n) if n == "help"));
    assert!(matches!(parse_commands(&leaf(&[])), CommandAction::NoCommand));
}

#[test]
fn parse_commands_nested_extension() {
    let m = with_sub("extension", with_sub("remove", leaf(&[("name", "old")])));
    assert!(matches!(parse_commands(&m), CommandAction::Extension(ExtensionAction::Remove(n)) if n == "old"));
}

#[test]
fn help_suffix_law_on_builtins() {
    for name in ["uninstall", "upgrade", "generate", "extension", "bookmarks"] {
        let m = with_sub(&format!("{}-help", name), leaf(&[]));
        assert!(matches!(parse_commands(&m), CommandAction::ShowExtensionHelp(n) if n == name));
    }
}

#[test]
fn clap_command_holds_aliases_and_help() {
    let cmd = extension_command();
    let visible: Vec<&str> = cmd.get_visible_aliases().collect();
    assert_eq!(visible, vec!["ext", "-ext"]);
    let create = cmd.find_subcommand("create").unwrap();
    let hidden: Vec<&str> = create.get_all_aliases().collect();
    assert_eq!(hidden, vec!["c", "-c"]);
    assert!(create.get_visible_aliases().next().is_none());
    assert_eq!(create.get_about().map(|a| a.to_string()), Some("create a new Lua extension".to_string()));
    let arg = create.get_arguments().next().unwrap();
    assert_eq!(arg.get_help().map(|h| h.to_string()), Some("name of the extension".to_string()));
    let open = cmd.find_subcommand("open").unwrap();
    assert_eq!(open.get_arguments().count(), 0);
    let me = self_command();
    assert_eq!(me.get_about().map(|a| a.to_string()), Some("manage and configure forge".to_string()));
    assert_eq!(me.get_all_aliases().count(), 0);
}

#[test]
fn self_subcommands_route_to_their_actions() {
    let p = |sub: &str| parse_commands(&with_sub("self", with_sub(sub, leaf(&[]))));
    assert!(matches!(p("uninstall"), CommandAction::Uninstall));
    assert!(matches!(p("upgrade"), CommandAction::Upgrade));
    assert!(matches!(p("configure"), CommandAction::Configure));
    assert!(matches!(p("zap"), CommandAction::UnknownSelfSubcommand(n) if n == "zap"));
    assert!(matches!(parse_commands(&with_sub("self", leaf(&[]))), CommandAction::NoSelfSubcommand));
    assert!(matches!(parse_self_options(&leaf(&[])), CommandAction::NoSelfSubcommand));
    assert!(matches!(parse_commands(&with_sub("self-help", leaf(&[]))), CommandAction::ShowExtensionHelp(n) if n == "self"));
}

#[test]
fn clap_self_command_routes_uninstall() {
    let m = self_command().try_get_matches_from(["self", "uninstall"]).unwrap();
    let (name, _) = m.subcommand().unwrap();
    let ours = with_sub("self", with_sub(name, leaf(&[])));
    assert!(matches!(parse_commands(&ours), CommandAction::Uninstall));
}

#[test]
fn bootstrap_pairs_keep_stems_with_manifest() {
    let candidates = vec![
        ("a".to_string(), true),
        ("b".to_string(), false),
        ("c".to_string(), true),
    ];
    assert_eq!(bootstrap_pairs(&candidates), strings(&["a", "c"]));
    assert!(bootstrap_pairs(&Vec::new()).is_empty());
}

#[test]
fn bootstrap_steps() {
    assert_eq!(bootstrap_step(false, 3, Some(true)), BootstrapStep::NotADirectory);
    assert_eq!(bootstrap_step(true, 0, None), BootstrapStep::NothingFound);
    assert_eq!(bootstrap_step(true, 0, Some(true)), BootstrapStep::NothingFound);
    assert_eq!(bootstrap_step(true, 2, None), BootstrapStep::Confirm);
    assert_eq!(bootstrap_step(true, 2, Some(false)), BootstrapStep::Aborted);
    assert_eq!(bootstrap_step(true, 2, Some(true)), BootstrapStep::Import);
}

#[test]
fn clean_steps() {
    assert_eq!(clean_step(false, 3, Some(true)), CleanStep::AlreadyEmpty);
    assert_eq!(clean_step(true, 0, None), CleanStep::NothingToRemove);
    assert_eq!(clean_step(true, 2, None), CleanStep::Confirm);
    assert_eq!(clean_step(true, 2, Some(false)), CleanStep::Aborted);
    assert_eq!(clean_step(true, 2, Some(true)), CleanStep::Remove);
}
