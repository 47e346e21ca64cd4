use vstd::prelude::*;

use crate::cli::{extension_command_model, self_command_model, SubcommandModel};
use crate::text::{str_eq, strip_suffix, strip_suffix_spec};

verus! {

/// A parsed command line, as plain values: the values of its arguments, by
/// id, and the subcommand it selected with that subcommand's own matches.
#[derive(Debug)]
pub struct Matches {
    pub values: Vec<(String, String)>,
    pub subcommand: Option<(String, Box<Matches>)>,
}

/// The value of the first argument with the id `id`.
pub open spec fn lookup_spec(values: Seq<(String, String)>, id: Seq<char>) -> Option<Seq<char>>
    decreases values.len(),
{
    if values.len() == 0 {
        None
    } else if values[0].0@ == id {
        Some(values[0].1@)
    } else {
        lookup_spec(values.drop_first(), id)
    }
}

/// Looks up the value of the argument `id`.
pub fn lookup(values: &Vec<(String, String)>, id: &str) -> (res: Option<String>)
    ensures
        match (res, lookup_spec(values@, id@)) {
            (Some(r), Some(v)) => r@ == v,
            (None, None) => true,
            _ => false,
        },
{
    let n = values.len();
    let mut i: usize = 0;
    assert(values@.skip(0) =~= values@);
    while i < n
        invariant
            n == values@.len(),
            i <= n,
            lookup_spec(values@, id@) == lookup_spec(values@.skip(i as int), id@),
        decreases n - i,
    {
        assert(values@.skip(i as int).drop_first() =~= values@.skip(i + 1));
        assert(values@.skip(i as int)[0] == values@[i as int]);
        if str_eq(values[i].0.as_str(), id) {
            return Some(values[i].1.clone());
        }
        i = i + 1;
    }
    None
}

/// What the `extension` command asks for.
#[derive(Debug)]
pub enum ExtensionAction {
    Create(String),
    Update(String),
    Remove(String),
    Bootstrap(String),
    Open,
    /// A subcommand that the command does not know.
    Unknown(String),
    /// A known subcommand whose required argument, named here, is missing.
    MissingArgument(String),
    /// No subcommand at all.
    NoSubcommand,
}

/// [`ExtensionAction`] with characters in place of strings.
pub enum ExtensionActionModel {
    Create(Seq<char>),
    Update(Seq<char>),
    Remove(Seq<char>),
    Bootstrap(Seq<char>),
    Open,
    Unknown(Seq<char>),
    MissingArgument(Seq<char>),
    NoSubcommand,
}

impl View for ExtensionAction {
    type V = ExtensionActionModel;

    open spec fn view(&self) -> ExtensionActionModel {
        match self {
            ExtensionAction::Create(s) => ExtensionActionModel::Create(s@),
            ExtensionAction::Update(s) => ExtensionActionModel::Update(s@),
            ExtensionAction::Remove(s) => ExtensionActionModel::Remove(s@),
            ExtensionAction::Bootstrap(s) => ExtensionActionModel::Bootstrap(s@),
            ExtensionAction::Open => ExtensionActionModel::Open,
            ExtensionAction::Unknown(s) => ExtensionActionModel::Unknown(s@),
            ExtensionAction::MissingArgument(s) => ExtensionActionModel::MissingArgument(s@),
            ExtensionAction::NoSubcommand => ExtensionActionModel::NoSubcommand,
        }
    }
}

/// The action of the `extension` subcommand `name` with the argument values
/// `values`.
pub open spec fn extension_action_spec(
    name: Seq<char>,
    values: Seq<(String, String)>,
) -> ExtensionActionModel {
    if name == "create"@ {
        match lookup_spec(values, "name"@) {
            Some(v) => ExtensionActionModel::Create(v),
            None => ExtensionActionModel::MissingArgument("name"@),
        }
    } else if name == "update"@ {
        match lookup_spec(values, "name"@) {
            Some(v) => ExtensionActionModel::Update(v),
            None => ExtensionActionModel::MissingArgument("name"@),
        }
    } else if name == "remove"@ {
        match lookup_spec(values, "name"@) {
            Some(v) => ExtensionActionModel::Remove(v),
            None => ExtensionActionModel::MissingArgument("name"@),
        }
    } else if name == "bootstrap"@ {
        match lookup_spec(values, "path"@) {
            Some(v) => ExtensionActionModel::Bootstrap(v),
            None => ExtensionActionModel::MissingArgument("path"@),
        }
    } else if name == "open"@ {
        ExtensionActionModel::Open
    } else {
        ExtensionActionModel::Unknown(name)
    }
}

/// The action that the matches of the `extension` command ask for.
pub open spec fn parse_extension_spec(m: Matches) -> ExtensionActionModel {
    match m.subcommand {
        Some((name, sub)) => extension_action_spec(name@, sub.values@),
        None => ExtensionActionModel::NoSubcommand,
    }
}

fn required_value(
    values: &Vec<(String, String)>,
    id: &str,
) -> (res: Result<String, String>)
    ensures
        match (res, lookup_spec(values@, id@)) {
            (Ok(r), Some(v)) => r@ == v,
            (Err(e), None) => e@ == id@,
            _ => false,
        },
{
    match lookup(values, id) {
        Some(v) => Ok(v),
        None => Err(String::from_str(id)),
    }
}

/// Decides what the `extension` command asks for: which subcommand, with
/// which name or path, or why nothing can be done.
pub fn parse_extension_options(sub_matches: &Matches) -> (res: ExtensionAction)
    ensures
        res@ == parse_extension_spec(*sub_matches),
{
    match &sub_matches.subcommand {
        None => ExtensionAction::NoSubcommand,
        Some((name, args)) => {
            let name = name.as_str();
            let values = &args.values;
            if str_eq(name, "create") {
                match required_value(values, "name") {
                    Ok(v) => ExtensionAction::Create(v),
                    Err(e) => ExtensionAction::MissingArgument(e),
                }
            } else if str_eq(name, "update") {
                match required_value(values, "name") {
                    Ok(v) => ExtensionAction::Update(v),
                    Err(e) => ExtensionAction::MissingArgument(e),
                }
            } else if str_eq(name, "remove") {
                match required_value(values, "name") {
                    Ok(v) => ExtensionAction::Remove(v),
                    Err(e) => ExtensionAction::MissingArgument(e),
                }
            } else if str_eq(name, "bootstrap") {
                match required_value(values, "path") {
                    Ok(v) => ExtensionAction::Bootstrap(v),
                    Err(e) => ExtensionAction::MissingArgument(e),
                }
            } else if str_eq(name, "open") {
                ExtensionAction::Open
            } else {
                ExtensionAction::Unknown(String::from_str(name))
            }
        },
    }
}

/// What the top-level command line asks for.
#[derive(Debug)]
pub enum CommandAction {
    Uninstall,
    Upgrade,
    /// Configure Forge (`self configure`).
    Configure,
    /// `self` with a subcommand that it does not know, named here.
    UnknownSelfSubcommand(String),
    /// `self` with no subcommand.
    NoSelfSubcommand,
    Generate,
    Extension(ExtensionAction),
    Bookmarks,
    /// Show the help of the extension named here.
    ShowExtensionHelp(String),
    /// Run the extension named here.
    RunExtension(String),
    /// No command at all.
    NoCommand,
}

/// [`CommandAction`] with characters in place of strings.
pub enum CommandActionModel {
    Uninstall,
    Upgrade,
    Configure,
    UnknownSelfSubcommand(Seq<char>),
    NoSelfSubcommand,
    Generate,
    Extension(ExtensionActionModel),
    Bookmarks,
    ShowExtensionHelp(Seq<char>),
    RunExtension(Seq<char>),
    NoCommand,
}

impl View for CommandAction {
    type V = CommandActionModel;

    open spec fn view(&self) -> CommandActionModel {
        match self {
            CommandAction::Uninstall => CommandActionModel::Uninstall,
            CommandAction::Upgrade => CommandActionModel::Upgrade,
            CommandAction::Configure => CommandActionModel::Configure,
            CommandAction::UnknownSelfSubcommand(s) => CommandActionModel::UnknownSelfSubcommand(s@),
            CommandAction::NoSelfSubcommand => CommandActionModel::NoSelfSubcommand,
            CommandAction::Generate => CommandActionModel::Generate,
            CommandAction::Extension(a) => CommandActionModel::Extension(a@),
            CommandAction::Bookmarks => CommandActionModel::Bookmarks,
            CommandAction::ShowExtensionHelp(s) => CommandActionModel::ShowExtensionHelp(s@),
            CommandAction::RunExtension(s) => CommandActionModel::RunExtension(s@),
            CommandAction::NoCommand => CommandActionModel::NoCommand,
        }
    }
}

/// The suffix that asks for an extension's help in place of running it.
pub const HELP_SUFFIX: &'static str = "-help";

/// Where a command that is not built in goes: `<name>-help` shows the help of
/// the extension `<name>`; any other name runs the extension of that name.
pub open spec fn external_command_spec(name: Seq<char>) -> CommandActionModel {
    match strip_suffix_spec(name, HELP_SUFFIX@) {
        Some(base) => CommandActionModel::ShowExtensionHelp(base),
        None => CommandActionModel::RunExtension(name),
    }
}

/// Whether `name` is a built-in command.
pub open spec fn is_builtin_command(name: Seq<char>) -> bool {
    name == "uninstall"@ || name == "upgrade"@ || name == "generate"@ || name == "extension"@
        || name == "bookmarks"@ || name == "self"@
}

/// The action that the matches of the `self` command ask for: its
/// subcommands `uninstall`, `upgrade` and `configure`.
pub open spec fn self_action_spec(m: Matches) -> CommandActionModel {
    match m.subcommand {
        Some((name, _)) => if name@ == "uninstall"@ {
            CommandActionModel::Uninstall
        } else if name@ == "upgrade"@ {
            CommandActionModel::Upgrade
        } else if name@ == "configure"@ {
            CommandActionModel::Configure
        } else {
            CommandActionModel::UnknownSelfSubcommand(name@)
        },
        None => CommandActionModel::NoSelfSubcommand,
    }
}

/// Decides what the `self` command asks for.
pub fn parse_self_options(sub_matches: &Matches) -> (res: CommandAction)
    ensures
        res@ == self_action_spec(*sub_matches),
{
    match &sub_matches.subcommand {
        None => CommandAction::NoSelfSubcommand,
        Some((name, _)) => {
            let name = name.as_str();
            if str_eq(name, "uninstall") {
                CommandAction::Uninstall
            } else if str_eq(name, "upgrade") {
                CommandAction::Upgrade
            } else if str_eq(name, "configure") {
                CommandAction::Configure
            } else {
                CommandAction::UnknownSelfSubcommand(String::from_str(name))
            }
        },
    }
}

/// The action that the subcommand `name`, with its own matches `sub`, asks for.
pub open spec fn command_action_spec(name: Seq<char>, sub: Matches) -> CommandActionModel {
    if name == "uninstall"@ {
        CommandActionModel::Uninstall
    } else if name == "upgrade"@ {
        CommandActionModel::Upgrade
    } else if name == "generate"@ {
        CommandActionModel::Generate
    } else if name == "extension"@ {
        CommandActionModel::Extension(parse_extension_spec(sub))
    } else if name == "bookmarks"@ {
        CommandActionModel::Bookmarks
    } else if name == "self"@ {
        self_action_spec(sub)
    } else {
        external_command_spec(name)
    }
}

/// The action that the top-level matches ask for.
pub open spec fn parse_commands_spec(m: Matches) -> CommandActionModel {
    match m.subcommand {
        Some((name, sub)) => command_action_spec(name@, *sub),
        None => CommandActionModel::NoCommand,
    }
}

/// Decides what the top-level command line asks for.
pub fn parse_commands(matches: &Matches) -> (res: CommandAction)
    ensures
        res@ == parse_commands_spec(*matches),
{
    match &matches.subcommand {
        None => CommandAction::NoCommand,
        Some((name, sub)) => {
            let name = name.as_str();
            if str_eq(name, "uninstall") {
                CommandAction::Uninstall
            } else if str_eq(name, "upgrade") {
                CommandAction::Upgrade
            } else if str_eq(name, "generate") {
                CommandAction::Generate
            } else if str_eq(name, "extension") {
                CommandAction::Extension(parse_extension_options(sub))
            } else if str_eq(name, "bookmarks") {
                CommandAction::Bookmarks
            } else if str_eq(name, "self") {
                parse_self_options(sub)
            } else {
                match strip_suffix(name, HELP_SUFFIX) {
                    Some(base) => CommandAction::ShowExtensionHelp(String::from_str(base)),
                    None => CommandAction::RunExtension(String::from_str(name)),
                }
            }
        },
    }
}

proof fn lemma_builtin_names()
    ensures
        "uninstall"@ == seq!['u', 'n', 'i', 'n', 's', 't', 'a', 'l', 'l'],
        "upgrade"@ == seq!['u', 'p', 'g', 'r', 'a', 'd', 'e'],
        "generate"@ == seq!['g', 'e', 'n', 'e', 'r', 'a', 't', 'e'],
        "extension"@ == seq!['e', 'x', 't', 'e', 'n', 's', 'i', 'o', 'n'],
        "bookmarks"@ == seq!['b', 'o', 'o', 'k', 'm', 'a', 'r', 'k', 's'],
        "self"@ == seq!['s', 'e', 'l', 'f'],
        HELP_SUFFIX@ == seq!['-', 'h', 'e', 'l', 'p'],
{
    reveal_strlit("uninstall");
    reveal_strlit("upgrade");
    reveal_strlit("generate");
    reveal_strlit("extension");
    reveal_strlit("bookmarks");
    reveal_strlit("self");
    assert("self"@ =~= seq!['s', 'e', 'l', 'f']);
    reveal_strlit("-help");
    assert("uninstall"@ =~= seq!['u', 'n', 'i', 'n', 's', 't', 'a', 'l', 'l']);
    assert("upgrade"@ =~= seq!['u', 'p', 'g', 'r', 'a', 'd', 'e']);
    assert("generate"@ =~= seq!['g', 'e', 'n', 'e', 'r', 'a', 't', 'e']);
    assert("extension"@ =~= seq!['e', 'x', 't', 'e', 'n', 's', 'i', 'o', 'n']);
    assert("bookmarks"@ =~= seq!['b', 'o', 'o', 'k', 'm', 'a', 'r', 'k', 's']);
    assert(HELP_SUFFIX@ =~= seq!['-', 'h', 'e', 'l', 'p']);
}

/// Law: for every name `n`, the command `<n>-help` shows the help of the
/// extension `n`, whatever its matches; no built-in command ends in `-help`.
pub proof fn lemma_help_suffix_shows_help(n: Seq<char>, sub: Matches)
    ensures
        !is_builtin_command(n + HELP_SUFFIX@),
        command_action_spec(n + HELP_SUFFIX@, sub) == CommandActionModel::ShowExtensionHelp(n),
{
    lemma_builtin_names();
    let full = n + HELP_SUFFIX@;
    let k = full.len() - 1;
    assert(full[k] == 'p');
    assert(full.subrange(full.len() - HELP_SUFFIX@.len(), full.len() as int) =~= HELP_SUFFIX@);
    assert(full.subrange(0, full.len() - HELP_SUFFIX@.len()) =~= n);
}

/// Law: a name that is neither built in nor ends in `-help` runs the
/// extension of that name.
pub proof fn lemma_other_names_run(n: Seq<char>, sub: Matches)
    requires
        !is_builtin_command(n),
        strip_suffix_spec(n, HELP_SUFFIX@) is None,
    ensures
        command_action_spec(n, sub) == CommandActionModel::RunExtension(n),
{
}

/// Whether `values` carries a value for every required argument of `s`.
pub open spec fn carries_required(s: SubcommandModel, values: Seq<(String, String)>) -> bool {
    forall|k: int|
        0 <= k < s.args.len() && s.args[k].required ==> (#[trigger] lookup_spec(values, s.args[k].id)) is Some
}

/// Law: the command line and its reading agree. Every subcommand that the
/// `extension` command declares, given the arguments that it declares as
/// required, is understood: it is neither unknown nor short of an argument.
pub proof fn lemma_declared_subcommands_are_understood(i: int, values: Seq<(String, String)>)
    requires
        0 <= i < extension_command_model().subcommands.len(),
        carries_required(extension_command_model().subcommands[i], values),
    ensures
        !(extension_action_spec(extension_command_model().subcommands[i].name, values) is Unknown),
        !(extension_action_spec(
            extension_command_model().subcommands[i].name,
            values,
        ) is MissingArgument),
{
    let s = extension_command_model().subcommands[i];
    reveal_strlit("create");
    reveal_strlit("update");
    reveal_strlit("remove");
    reveal_strlit("open");
    reveal_strlit("bootstrap");
    assert("bootstrap"@.len() != "create"@.len());
    assert("open"@.len() != "create"@.len());
    assert("bootstrap"@ != "update"@);
    assert("bootstrap"@ != "remove"@);
    assert("open"@ != "update"@);
    assert("open"@ != "remove"@);
    assert("open"@ != "bootstrap"@);
    if s.args.len() > 0 {
        assert(s.args[0].required);
        assert(lookup_spec(values, s.args[0].id) is Some);
    }
}

/// Law: every subcommand that the `self` command declares is routed to its
/// own action: `uninstall` uninstalls, `upgrade` upgrades, `configure`
/// configures; none of them runs an extension.
pub proof fn lemma_self_subcommands_are_routed(i: int, m: Matches)
    requires
        0 <= i < self_command_model().subcommands.len(),
        m.subcommand matches Some((n, _)) && n@ == self_command_model().subcommands[i].name,
    ensures
        command_action_spec("self"@, m) == (if i == 0 {
            CommandActionModel::Uninstall
        } else if i == 1 {
            CommandActionModel::Upgrade
        } else {
            CommandActionModel::Configure
        }),
        !(command_action_spec("self"@, m) is RunExtension),
{
    lemma_builtin_names();
    reveal_strlit("configure");
    assert("configure"@.len() == 9);
    assert("uninstall"@ != "configure"@) by {
        assert("uninstall"@[0] != "configure"@[0]);
    }
    assert("upgrade"@.len() != "configure"@.len());
}

proof fn lemma_lookup_first(values: Seq<(String, String)>, id: Seq<char>, j: int)
    requires
        0 <= j < values.len(),
        values[j].0@ == id,
        forall|k: int| 0 <= k < j ==> values[k].0@ != id,
    ensures
        lookup_spec(values, id) == Some(values[j].1@),
    decreases j,
{
    if j > 0 {
        let rest = values.drop_first();
        assert forall|k: int| 0 <= k < j - 1 implies rest[k].0@ != id by {
            assert(rest[k] == values[k + 1]);
        }
        assert(values[0].0@ != id);
        lemma_lookup_first(rest, id, j - 1);
    }
}

proof fn lemma_lookup_absent(values: Seq<(String, String)>, id: Seq<char>)
    requires
        forall|k: int| 0 <= k < values.len() ==> values[k].0@ != id,
    ensures
        lookup_spec(values, id) is None,
    decreases values.len(),
{
    if values.len() > 0 {
        let rest = values.drop_first();
        assert forall|k: int| 0 <= k < rest.len() implies rest[k].0@ != id by {
            assert(rest[k] == values[k + 1]);
        }
        assert(values[0].0@ != id);
        lemma_lookup_absent(rest, id);
    }
}

proof fn lemma_subcommand_names_distinct()
    ensures
        "create"@ != "update"@,
        "create"@ != "remove"@,
        "create"@ != "bootstrap"@,
        "create"@ != "open"@,
        "update"@ != "remove"@,
        "update"@ != "bootstrap"@,
        "update"@ != "open"@,
        "remove"@ != "bootstrap"@,
        "remove"@ != "open"@,
        "bootstrap"@ != "open"@,
        "name"@ != "path"@,
{
    reveal_strlit("create");
    reveal_strlit("update");
    reveal_strlit("remove");
    reveal_strlit("open");
    reveal_strlit("bootstrap");
    reveal_strlit("name");
    reveal_strlit("path");
    assert("create"@[0] != "update"@[0]);
    assert("create"@[0] != "remove"@[0]);
    assert("update"@[0] != "remove"@[0]);
    assert("create"@.len() != "bootstrap"@.len());
    assert("create"@.len() != "open"@.len());
    assert("update"@.len() != "bootstrap"@.len());
    assert("update"@.len() != "open"@.len());
    assert("remove"@.len() != "bootstrap"@.len());
    assert("remove"@.len() != "open"@.len());
    assert("bootstrap"@.len() != "open"@.len());
    assert("name"@[0] != "path"@[0]);
}

/// Law: the subcommands of `extension` pass on the value of their argument
/// exactly as it was given. Where the first argument with the id `name` has
/// the value `v`, `create`, `update` and `remove` act on `v`; where the first
/// argument with the id `path` has the value `v`, `bootstrap` acts on `v`.
/// Where no argument has that id, the subcommand reports it missing.
pub proof fn lemma_actions_carry_the_given_value(values: Seq<(String, String)>, j: int)
    requires
        0 <= j < values.len(),
        forall|k: int| 0 <= k < j ==> values[k].0@ != values[j].0@,
    ensures
        values[j].0@ == "name"@ ==> {
            &&& extension_action_spec("create"@, values) == ExtensionActionModel::Create(values[j].1@)
            &&& extension_action_spec("update"@, values) == ExtensionActionModel::Update(values[j].1@)
            &&& extension_action_spec("remove"@, values) == ExtensionActionModel::Remove(values[j].1@)
        },
        values[j].0@ == "path"@ ==> extension_action_spec("bootstrap"@, values)
            == ExtensionActionModel::Bootstrap(values[j].1@),
{
    lemma_subcommand_names_distinct();
    lemma_lookup_first(values, values[j].0@, j);
}

/// Law: a subcommand of `extension` given no value for its argument reports
/// that argument missing, and does nothing else.
pub proof fn lemma_missing_value_is_reported(values: Seq<(String, String)>)
    ensures
        (forall|k: int| 0 <= k < values.len() ==> values[k].0@ != "name"@) ==> {
            &&& extension_action_spec("create"@, values) == ExtensionActionModel::MissingArgument("name"@)
            &&& extension_action_spec("update"@, values) == ExtensionActionModel::MissingArgument("name"@)
            &&& extension_action_spec("remove"@, values) == ExtensionActionModel::MissingArgument("name"@)
        },
        (forall|k: int| 0 <= k < values.len() ==> values[k].0@ != "path"@) ==> extension_action_spec(
            "bootstrap"@,
            values,
        ) == ExtensionActionModel::MissingArgument("path"@),
{
    lemma_subcommand_names_distinct();
    if forall|k: int| 0 <= k < values.len() ==> values[k].0@ != "name"@ {
        lemma_lookup_absent(values, "name"@);
    }
    if forall|k: int| 0 <= k < values.len() ==> values[k].0@ != "path"@ {
        lemma_lookup_absent(values, "path"@);
    }
}

} // verus!
