use vstd::prelude::*;

verus! {

#[verifier::external_type_specification]
#[verifier::external_body]
pub struct ExClapCommand(clap::Command);

#[verifier::external_type_specification]
#[verifier::external_body]
pub struct ExClapArg(clap::Arg);

/// A positional argument of a command.
#[derive(Debug)]
pub struct ArgSpec {
    pub id: &'static str,
    pub help: &'static str,
    pub required: bool,
}

/// A subcommand, with its hidden aliases and its arguments.
#[derive(Debug)]
pub struct SubcommandSpec {
    pub name: &'static str,
    pub about: &'static str,
    pub aliases: Vec<&'static str>,
    pub args: Vec<ArgSpec>,
}

/// A command, with its visible aliases and its subcommands.
#[derive(Debug)]
pub struct CommandSpec {
    pub name: &'static str,
    pub about: &'static str,
    pub visible_aliases: Vec<&'static str>,
    pub subcommands: Vec<SubcommandSpec>,
}

/// What an argument is, as characters.
#[verifier::ext_equal]
pub struct ArgModel {
    pub id: Seq<char>,
    pub help: Seq<char>,
    pub required: bool,
}

/// What a subcommand is, as characters.
#[verifier::ext_equal]
pub struct SubcommandModel {
    pub name: Seq<char>,
    pub about: Seq<char>,
    pub aliases: Seq<Seq<char>>,
    pub args: Seq<ArgModel>,
}

/// What a command is, as characters.
#[verifier::ext_equal]
pub struct CommandModel {
    pub name: Seq<char>,
    pub about: Seq<char>,
    pub visible_aliases: Seq<Seq<char>>,
    pub subcommands: Seq<SubcommandModel>,
}

/// The characters of each word.
pub open spec fn word_views(v: Seq<&'static str>) -> Seq<Seq<char>> {
    v.map_values(|s: &'static str| s@)
}

impl View for ArgSpec {
    type V = ArgModel;

    open spec fn view(&self) -> ArgModel {
        ArgModel { id: self.id@, help: self.help@, required: self.required }
    }
}

impl View for SubcommandSpec {
    type V = SubcommandModel;

    open spec fn view(&self) -> SubcommandModel {
        SubcommandModel {
            name: self.name@,
            about: self.about@,
            aliases: word_views(self.aliases@),
            args: self.args@.map_values(|a: ArgSpec| a@),
        }
    }
}

impl View for CommandSpec {
    type V = CommandModel;

    open spec fn view(&self) -> CommandModel {
        CommandModel {
            name: self.name@,
            about: self.about@,
            visible_aliases: word_views(self.visible_aliases@),
            subcommands: self.subcommands@.map_values(|s: SubcommandSpec| s@),
        }
    }
}

/// A subcommand that takes the single required argument `id`.
pub open spec fn with_required_arg(
    name: Seq<char>,
    about: Seq<char>,
    aliases: Seq<Seq<char>>,
    id: Seq<char>,
    help: Seq<char>,
) -> SubcommandModel {
    SubcommandModel { name, about, aliases, args: seq![ArgModel { id, help, required: true }] }
}

/// The `extension` command: managing Lua extensions.
pub open spec fn extension_command_model() -> CommandModel {
    CommandModel {
        name: "extension"@,
        about: "manage Lua extensions"@,
        visible_aliases: seq!["ext"@, "-ext"@],
        subcommands: seq![
            with_required_arg(
                "create"@,
                "create a new Lua extension"@,
                seq!["c"@, "-c"@],
                "name"@,
                "name of the extension"@,
            ),
            with_required_arg(
                "update"@,
                "open an extension in your preferred editor"@,
                seq!["u"@, "-u"@],
                "name"@,
                "name of the extension"@,
            ),
            with_required_arg(
                "remove"@,
                "remove an extension"@,
                seq!["r"@, "rm"@],
                "name"@,
                "name of the extension"@,
            ),
            SubcommandModel {
                name: "open"@,
                about: "open the extensions directory in your preferred editor"@,
                aliases: seq!["o"@, "-o"@],
                args: Seq::empty(),
            },
            with_required_arg(
                "bootstrap"@,
                "import Lua/YAML extension pairs from a folder into the extensions directory"@,
                seq!["bs"@, "-bs"@],
                "path"@,
                "path to the folder containing extensions"@,
            ),
        ],
    }
}

/// A subcommand with neither aliases nor arguments.
pub open spec fn plain_subcommand(name: Seq<char>, about: Seq<char>) -> SubcommandModel {
    SubcommandModel { name, about, aliases: Seq::empty(), args: Seq::empty() }
}

/// The `self` command: managing Forge itself.
pub open spec fn self_command_model() -> CommandModel {
    CommandModel {
        name: "self"@,
        about: "manage and configure forge"@,
        visible_aliases: Seq::empty(),
        subcommands: seq![
            plain_subcommand("uninstall"@, "uninstall forge"@),
            plain_subcommand("upgrade"@, "upgrade forge"@),
            plain_subcommand("configure"@, "configure forge"@),
        ],
    }
}

fn words2(a: &'static str, b: &'static str) -> (res: Vec<&'static str>)
    ensures
        word_views(res@) == seq![a@, b@],
{
    let mut v: Vec<&'static str> = Vec::new();
    v.push(a);
    v.push(b);
    assert(word_views(v@) =~= seq![a@, b@]);
    v
}

fn required_subcommand(
    name: &'static str,
    about: &'static str,
    alias1: &'static str,
    alias2: &'static str,
    id: &'static str,
    help: &'static str,
) -> (res: SubcommandSpec)
    ensures
        res@ =~~= with_required_arg(name@, about@, seq![alias1@, alias2@], id@, help@),
{
    let mut args: Vec<ArgSpec> = Vec::new();
    args.push(ArgSpec { id, help, required: true });
    let res = SubcommandSpec { name, about, aliases: words2(alias1, alias2), args };
    assert(res@.args =~~= seq![ArgModel { id: id@, help: help@, required: true }]);
    res
}

/// The layout of the `extension` command.
pub fn extension_command_spec() -> (res: CommandSpec)
    ensures
        res@ =~~= extension_command_model(),
{
    let mut subcommands: Vec<SubcommandSpec> = Vec::new();
    subcommands.push(
        required_subcommand(
            "create",
            "create a new Lua extension",
            "c",
            "-c",
            "name",
            "name of the extension",
        ),
    );
    subcommands.push(
        required_subcommand(
            "update",
            "open an extension in your preferred editor",
            "u",
            "-u",
            "name",
            "name of the extension",
        ),
    );
    subcommands.push(
        required_subcommand("remove", "remove an extension", "r", "rm", "name", "name of the extension"),
    );
    let open = SubcommandSpec {
        name: "open",
        about: "open the extensions directory in your preferred editor",
        aliases: words2("o", "-o"),
        args: Vec::new(),
    };
    assert(open@.args =~= Seq::<ArgModel>::empty());
    subcommands.push(open);
    subcommands.push(
        required_subcommand(
            "bootstrap",
            "import Lua/YAML extension pairs from a folder into the extensions directory",
            "bs",
            "-bs",
            "path",
            "path to the folder containing extensions",
        ),
    );
    let res = CommandSpec {
        name: "extension",
        about: "manage Lua extensions",
        visible_aliases: words2("ext", "-ext"),
        subcommands,
    };
    assert(res@.subcommands =~~= extension_command_model().subcommands);
    res
}

fn plain(name: &'static str, about: &'static str) -> (res: SubcommandSpec)
    ensures
        res@ =~~= plain_subcommand(name@, about@),
{
    let res = SubcommandSpec { name, about, aliases: Vec::new(), args: Vec::new() };
    assert(res@.aliases =~= Seq::<Seq<char>>::empty());
    assert(res@.args =~= Seq::<ArgModel>::empty());
    res
}

/// The layout of the `self` command.
pub fn self_command_spec() -> (res: CommandSpec)
    ensures
        res@ =~~= self_command_model(),
{
    let mut subcommands: Vec<SubcommandSpec> = Vec::new();
    subcommands.push(plain("uninstall", "uninstall forge"));
    subcommands.push(plain("upgrade", "upgrade forge"));
    subcommands.push(plain("configure", "configure forge"));
    let res = CommandSpec {
        name: "self",
        about: "manage and configure forge",
        visible_aliases: Vec::new(),
        subcommands,
    };
    assert(res@.visible_aliases =~= Seq::<Seq<char>>::empty());
    assert(res@.subcommands =~~= self_command_model().subcommands);
    res
}

/// What a clap argument holds that Forge sets: its id, its description
/// (`None` where none is set) and whether it is required.
#[verifier::ext_equal]
pub struct ClapArgContents {
    pub id: Seq<char>,
    pub help: Option<Seq<char>>,
    pub required: bool,
}

/// What a clap command holds that Forge sets: its name, its description
/// (`None` where none is set), its aliases in the order they were added, each
/// with whether it is visible, its arguments and its subcommands, in order.
#[verifier::ext_equal]
pub struct ClapCommandContents {
    pub name: Seq<char>,
    pub about: Option<Seq<char>>,
    pub aliases: Seq<(Seq<char>, bool)>,
    pub args: Seq<ClapArgContents>,
    pub subcommands: Seq<ClapCommandContents>,
}

/// What the clap argument `arg` holds.
pub uninterp spec fn clap_arg_contents(arg: clap::Arg) -> ClapArgContents;

/// What the clap command `cmd` holds.
pub uninterp spec fn clap_command_contents(cmd: clap::Command) -> ClapCommandContents;

/// The aliases `names`, each marked visible or not.
pub open spec fn marked_aliases(names: Seq<Seq<char>>, visible: bool) -> Seq<(Seq<char>, bool)> {
    names.map_values(|n: Seq<char>| (n, visible))
}

/// The clap argument that an argument of the model stands for.
pub open spec fn arg_contents(a: ArgModel) -> ClapArgContents {
    ClapArgContents { id: a.id, help: Some(a.help), required: a.required }
}

/// The clap subcommand that a subcommand of the model stands for: its aliases
/// are hidden.
pub open spec fn subcommand_contents(s: SubcommandModel) -> ClapCommandContents {
    ClapCommandContents {
        name: s.name,
        about: Some(s.about),
        aliases: marked_aliases(s.aliases, false),
        args: s.args.map_values(|a: ArgModel| arg_contents(a)),
        subcommands: Seq::empty(),
    }
}

/// The clap command that a command of the model stands for: its aliases are
/// visible, and it takes no argument of its own.
pub open spec fn command_contents(c: CommandModel) -> ClapCommandContents {
    ClapCommandContents {
        name: c.name,
        about: Some(c.about),
        aliases: marked_aliases(c.visible_aliases, true),
        args: Seq::empty(),
        subcommands: c.subcommands.map_values(|s: SubcommandModel| subcommand_contents(s)),
    }
}

/// Calls `clap::Command::new`: a command named `name` with no description,
/// alias, argument or subcommand.
#[verifier::external_body]
fn clap_command_new(name: &'static str) -> (res: clap::Command)
    ensures
        clap_command_contents(res) == (ClapCommandContents {
            name: name@,
            about: None,
            aliases: Seq::empty(),
            args: Seq::empty(),
            subcommands: Seq::empty(),
        }),
{
    clap::Command::new(name)
}

/// Calls `clap::Command::about`: the command with its description set to
/// `about`, all else as it was.
#[verifier::external_body]
fn clap_command_about(cmd: clap::Command, about: &'static str) -> (res: clap::Command)
    ensures
        clap_command_contents(res) == (ClapCommandContents {
            about: Some(about@),
            ..clap_command_contents(cmd)
        }),
{
    cmd.about(about)
}

/// Calls `clap::Command::aliases`: the command with the hidden aliases
/// `names` added after its aliases, all else as it was.
#[verifier::external_body]
fn clap_command_aliases(cmd: clap::Command, names: Vec<&'static str>) -> (res: clap::Command)
    ensures
        clap_command_contents(res) == (ClapCommandContents {
            aliases: clap_command_contents(cmd).aliases + marked_aliases(word_views(names@), false),
            ..clap_command_contents(cmd)
        }),
{
    cmd.aliases(names)
}

/// Calls `clap::Command::visible_aliases`: the command with the visible
/// aliases `names` added after its aliases, all else as it was.
#[verifier::external_body]
fn clap_command_visible_aliases(cmd: clap::Command, names: Vec<&'static str>) -> (res:
    clap::Command)
    ensures
        clap_command_contents(res) == (ClapCommandContents {
            aliases: clap_command_contents(cmd).aliases + marked_aliases(word_views(names@), true),
            ..clap_command_contents(cmd)
        }),
{
    cmd.visible_aliases(names)
}

/// Calls `clap::Command::arg`: the command with `arg` added after its
/// arguments, all else as it was.
#[verifier::external_body]
fn clap_command_arg(cmd: clap::Command, arg: clap::Arg) -> (res: clap::Command)
    ensures
        clap_command_contents(res) == (ClapCommandContents {
            args: clap_command_contents(cmd).args.push(clap_arg_contents(arg)),
            ..clap_command_contents(cmd)
        }),
{
    cmd.arg(arg)
}

/// Calls `clap::Command::subcommand`: the command with `sub` added after its
/// subcommands, all else as it was.
#[verifier::external_body]
fn clap_command_subcommand(cmd: clap::Command, sub: clap::Command) -> (res: clap::Command)
    ensures
        clap_command_contents(res) == (ClapCommandContents {
            subcommands: clap_command_contents(cmd).subcommands.push(clap_command_contents(sub)),
            ..clap_command_contents(cmd)
        }),
{
    cmd.subcommand(sub)
}

/// Calls `clap::Arg::new`: an argument with the id `id`, no description, not
/// required.
#[verifier::external_body]
fn clap_arg_new(id: &'static str) -> (res: clap::Arg)
    ensures
        clap_arg_contents(res) == (ClapArgContents { id: id@, help: None, required: false }),
{
    clap::Arg::new(id)
}

/// Calls `clap::Arg::help`: the argument with its description set to `help`,
/// all else as it was.
#[verifier::external_body]
fn clap_arg_help(arg: clap::Arg, help: &'static str) -> (res: clap::Arg)
    ensures
        clap_arg_contents(res) == (ClapArgContents { help: Some(help@), ..clap_arg_contents(arg) }),
{
    arg.help(help)
}

/// Calls `clap::Arg::required`: the argument, required exactly where `yes`
/// holds, all else as it was.
#[verifier::external_body]
fn clap_arg_required(arg: clap::Arg, yes: bool) -> (res: clap::Arg)
    ensures
        clap_arg_contents(res) == (ClapArgContents { required: yes, ..clap_arg_contents(arg) }),
{
    arg.required(yes)
}

fn copy_words(v: &Vec<&'static str>) -> (res: Vec<&'static str>)
    ensures
        res@ == v@,
{
    let mut out: Vec<&'static str> = Vec::new();
    let n = v.len();
    let mut i: usize = 0;
    while i < n
        invariant
            n == v@.len(),
            i <= n,
            out@ == v@.subrange(0, i as int),
        decreases n - i,
    {
        out.push(v[i]);
        assert(out@ =~= v@.subrange(0, i + 1));
        i = i + 1;
    }
    assert(v@.subrange(0, n as int) =~= v@);
    out
}

/// The clap argument that `spec` describes.
fn build_arg(spec: &ArgSpec) -> (res: clap::Arg)
    ensures
        clap_arg_contents(res) == arg_contents(spec@),
{
    let arg = clap_arg_new(spec.id);
    let arg = clap_arg_help(arg, spec.help);
    clap_arg_required(arg, spec.required)
}

/// The clap subcommand that `spec` describes.
fn build_subcommand(spec: &SubcommandSpec) -> (res: clap::Command)
    ensures
        clap_command_contents(res) =~~= subcommand_contents(spec@),
{
    let mut cmd = clap_command_new(spec.name);
    cmd = clap_command_about(cmd, spec.about);
    if spec.aliases.len() > 0 {
        cmd = clap_command_aliases(cmd, copy_words(&spec.aliases));
    }
    assert(clap_command_contents(cmd).aliases =~= marked_aliases(word_views(spec.aliases@), false));
    let ghost arg_list = spec.args@.map_values(|a: ArgSpec| arg_contents(a@));
    let n = spec.args.len();
    let mut i: usize = 0;
    while i < n
        invariant
            n == spec.args@.len(),
            i <= n,
            arg_list == spec.args@.map_values(|a: ArgSpec| arg_contents(a@)),
            clap_command_contents(cmd) == (ClapCommandContents {
                name: spec.name@,
                about: Some(spec.about@),
                aliases: marked_aliases(word_views(spec.aliases@), false),
                args: arg_list.subrange(0, i as int),
                subcommands: Seq::empty(),
            }),
        decreases n - i,
    {
        cmd = clap_command_arg(cmd, build_arg(&spec.args[i]));
        assert(arg_list.subrange(0, i + 1) =~= arg_list.subrange(0, i as int).push(
            arg_contents(spec.args@[i as int]@),
        ));
        i = i + 1;
    }
    assert(arg_list.subrange(0, n as int) =~= arg_list);
    assert(arg_list =~= spec@.args.map_values(|a: ArgModel| arg_contents(a)));
    cmd
}

/// The clap command that `spec` describes, with its subcommands in order.
pub fn build_command(spec: &CommandSpec) -> (res: clap::Command)
    ensures
        clap_command_contents(res) =~~= command_contents(spec@),
{
    let mut cmd = clap_command_new(spec.name);
    if spec.visible_aliases.len() > 0 {
        cmd = clap_command_visible_aliases(cmd, copy_words(&spec.visible_aliases));
    }
    assert(clap_command_contents(cmd).aliases =~= marked_aliases(
        word_views(spec.visible_aliases@),
        true,
    ));
    cmd = clap_command_about(cmd, spec.about);
    let ghost sub_list = spec.subcommands@.map_values(
        |s: SubcommandSpec| subcommand_contents(s@),
    );
    let n = spec.subcommands.len();
    let mut i: usize = 0;
    assert(sub_list.subrange(0, 0) =~= Seq::<ClapCommandContents>::empty());
    while i < n
        invariant
            n == spec.subcommands@.len(),
            i <= n,
            sub_list == spec.subcommands@.map_values(|s: SubcommandSpec| subcommand_contents(s@)),
            clap_command_contents(cmd) =~~= (ClapCommandContents {
                name: spec.name@,
                about: Some(spec.about@),
                aliases: marked_aliases(word_views(spec.visible_aliases@), true),
                args: Seq::empty(),
                subcommands: sub_list.subrange(0, i as int),
            }),
        decreases n - i,
    {
        let sub = build_subcommand(&spec.subcommands[i]);
        cmd = clap_command_subcommand(cmd, sub);
        assert(sub_list.subrange(0, i + 1) =~~= sub_list.subrange(0, i as int).push(
            subcommand_contents(spec.subcommands@[i as int]@),
        ));
        i = i + 1;
    }
    assert(sub_list.subrange(0, n as int) =~= sub_list);
    assert(sub_list =~= spec@.subcommands.map_values(|s: SubcommandModel| subcommand_contents(s)));
    cmd
}

/// The `extension` command line: create, update, remove, open and bootstrap
/// Lua extensions (see [`extension_command_model`]).
pub fn extension_command() -> (res: clap::Command)
    ensures
        clap_command_contents(res) =~~= command_contents(extension_command_model()),
{
    let spec = extension_command_spec();
    let res = build_command(&spec);
    assert(spec@ =~~= extension_command_model());
    res
}

/// The `self` command line: uninstall, upgrade and configure Forge (see
/// [`self_command_model`]).
pub fn self_command() -> (res: clap::Command)
    ensures
        clap_command_contents(res) =~~= command_contents(self_command_model()),
{
    let spec = self_command_spec();
    let res = build_command(&spec);
    assert(spec@ =~~= self_command_model());
    res
}

/// Every way of spelling the subcommands: each one's name, then its aliases.
pub open spec fn subcommand_spellings(subs: Seq<SubcommandModel>) -> Seq<Seq<char>>
    decreases subs.len(),
{
    if subs.len() == 0 {
        Seq::empty()
    } else {
        subcommand_spellings(subs.drop_last()) + seq![subs.last().name] + subs.last().aliases
    }
}

/// Law: the subcommands of the `extension` command can be told apart: no two
/// of their names and aliases are spelled the same.
pub proof fn lemma_extension_spellings_distinct()
    ensures
        subcommand_spellings(extension_command_model().subcommands).no_duplicates(),
{
    let subs = extension_command_model().subcommands;
    reveal_with_fuel(subcommand_spellings, 6);
    assert(subs.drop_last().drop_last().drop_last().drop_last().drop_last() =~= Seq::<
        SubcommandModel,
    >::empty());
    let all = subcommand_spellings(subs);
    assert(all =~= seq![
        "create"@, "c"@, "-c"@,
        "update"@, "u"@, "-u"@,
        "remove"@, "r"@, "rm"@,
        "open"@, "o"@, "-o"@,
        "bootstrap"@, "bs"@, "-bs"@,
    ]);
    reveal_strlit("create");
    reveal_strlit("c");
    reveal_strlit("-c");
    reveal_strlit("update");
    reveal_strlit("u");
    reveal_strlit("-u");
    reveal_strlit("remove");
    reveal_strlit("r");
    reveal_strlit("rm");
    reveal_strlit("open");
    reveal_strlit("o");
    reveal_strlit("-o");
    reveal_strlit("bootstrap");
    reveal_strlit("bs");
    reveal_strlit("-bs");
    assert forall|i: int, j: int| 0 <= i < all.len() && 0 <= j < all.len() && i != j implies all[i]
        != all[j] by {
        if all[i] == all[j] {
            assert(all[i].len() == all[j].len());
            assert(all[i][0] == all[j][0]);
            if all[i].len() >= 2 {
                assert(all[i][1] == all[j][1]);
            }
        }
    }
}

/// Law: the clap command built from a model keeps every spelling and every
/// argument of it, in order: the command's name and its aliases, visible;
/// each subcommand's name and all of its aliases, hidden, whether or not it
/// takes arguments; and each argument's id and whether it is required.
pub proof fn lemma_built_commands_keep_names_and_aliases(c: CommandModel)
    ensures
        command_contents(c).name == c.name,
        command_contents(c).aliases.len() == c.visible_aliases.len(),
        forall|k: int|
            0 <= k < c.visible_aliases.len() ==> #[trigger] command_contents(c).aliases[k] == (
                c.visible_aliases[k],
                true,
            ),
        command_contents(c).subcommands.len() == c.subcommands.len(),
        forall|i: int|
            0 <= i < c.subcommands.len() ==> {
                &&& (#[trigger] command_contents(c).subcommands[i]).name == c.subcommands[i].name
                &&& command_contents(c).subcommands[i].aliases.len() == c.subcommands[i].aliases.len()
                &&& forall|k: int|
                    0 <= k < c.subcommands[i].aliases.len() ==> #[trigger] command_contents(
                        c,
                    ).subcommands[i].aliases[k] == (c.subcommands[i].aliases[k], false)
                &&& command_contents(c).subcommands[i].args.len() == c.subcommands[i].args.len()
                &&& forall|k: int|
                    0 <= k < c.subcommands[i].args.len() ==> {
                        &&& (#[trigger] command_contents(c).subcommands[i].args[k]).id
                            == c.subcommands[i].args[k].id
                        &&& command_contents(c).subcommands[i].args[k].required
                            == c.subcommands[i].args[k].required
                    }
            },
{
}

/// The aliases of the `open` subcommand reach clap: `o` and `-o` select it.
pub proof fn lemma_open_keeps_its_aliases()
    ensures
        command_contents(extension_command_model()).subcommands[3].name == "open"@,
        command_contents(extension_command_model()).subcommands[3].aliases == seq![
            ("o"@, false),
            ("-o"@, false),
        ],
{
    lemma_built_commands_keep_names_and_aliases(extension_command_model());
    assert(command_contents(extension_command_model()).subcommands[3].aliases =~= seq![
        ("o"@, false),
        ("-o"@, false),
    ]);
}

} // verus!
