use vstd::prelude::*;

use crate::text::{pad_right, pad_right_spec, starts_with_spec};

verus! {

/// An argument that an extension declares in its manifest.
#[derive(Debug)]
pub struct ExtensionArg {
    pub name: String,
    pub description: String,
    pub required: bool,
    pub interactive: bool,
}

/// The manifest of an extension: what `<name>.yaml` declares.
#[derive(Debug)]
pub struct ExtensionManifest {
    pub name: String,
    pub description: String,
    pub args: Vec<ExtensionArg>,
    pub commands: Vec<String>,
}

/// How a line of output is shown.
#[derive(Debug, Clone, Copy, PartialEq, Eq, Structural)]
pub enum LineLevel {
    /// Highlighted as information.
    Info,
    /// Shown in the neutral style.
    Neutral,
    /// Printed as it is.
    Plain,
}

/// A line of the help that an extension's manifest gives.
#[derive(Debug)]
pub struct HelpLine {
    pub level: LineLevel,
    pub text: String,
}

/// The width that argument names are padded to in the help.
pub const ARG_NAME_WIDTH: usize = 14;

/// The level and the characters of each line.
pub open spec fn line_views(lines: Seq<HelpLine>) -> Seq<(LineLevel, Seq<char>)> {
    lines.map_values(|l: HelpLine| (l.level, l.text@))
}

/// The marks that follow an argument's description: `  [required, interactive]`,
/// `  [required]`, `  [interactive]`, or nothing.
pub open spec fn arg_flags_spec(required: bool, interactive: bool) -> Seq<char> {
    if required && interactive {
        "  [required, interactive]"@
    } else if required {
        "  [required]"@
    } else if interactive {
        "  [interactive]"@
    } else {
        Seq::empty()
    }
}

/// The help line of an argument: its name padded to [`ARG_NAME_WIDTH`], its
/// description and its marks.
pub open spec fn arg_line_spec(a: ExtensionArg) -> Seq<char> {
    "  "@ + pad_right_spec(a.name@, ARG_NAME_WIDTH as nat) + " "@ + a.description@ + arg_flags_spec(
        a.required,
        a.interactive,
    )
}

/// The help lines of the arguments, from the header on.
pub open spec fn argument_section_spec(args: Seq<ExtensionArg>) -> Seq<(LineLevel, Seq<char>)> {
    if args.len() == 0 {
        Seq::empty()
    } else {
        seq![(LineLevel::Plain, "\nArguments:"@)] + args.map_values(
            |a: ExtensionArg| (LineLevel::Neutral, arg_line_spec(a)),
        )
    }
}

/// The help lines of the commands, from the header on.
pub open spec fn command_section_spec(commands: Seq<String>) -> Seq<(LineLevel, Seq<char>)> {
    if commands.len() == 0 {
        Seq::empty()
    } else {
        seq![(LineLevel::Plain, "\nCommands:"@)] + commands.map_values(
            |c: String| (LineLevel::Neutral, "  "@ + c@),
        )
    }
}

/// The help that a manifest gives, line by line.
pub open spec fn help_lines_spec(m: ExtensionManifest) -> Seq<(LineLevel, Seq<char>)> {
    seq![
        (LineLevel::Info, "Extension:   "@ + m.name@),
        (LineLevel::Neutral, "Description: "@ + m.description@),
    ] + argument_section_spec(m.args@) + command_section_spec(m.commands@) + seq![
        (LineLevel::Neutral, "\nRun with: forge "@ + m.name@),
    ]
}

fn concat2(a: &str, b: &str) -> (res: String)
    ensures
        res@ == a@ + b@,
{
    let mut s = String::from_str(a);
    s.append(b);
    s
}

fn arg_flags(required: bool, interactive: bool) -> (res: &'static str)
    ensures
        res@ == arg_flags_spec(required, interactive),
{
    if required && interactive {
        "  [required, interactive]"
    } else if required {
        "  [required]"
    } else if interactive {
        "  [interactive]"
    } else {
        proof {
            reveal_strlit("");
        }
        ""
    }
}

/// The help line of one argument.
pub fn arg_line(a: &ExtensionArg) -> (res: String)
    ensures
        res@ == arg_line_spec(*a),
{
    let mut s = String::from_str("  ");
    let padded = pad_right(a.name.as_str(), ARG_NAME_WIDTH);
    s.append(padded.as_str());
    s.append(" ");
    s.append(a.description.as_str());
    s.append(arg_flags(a.required, a.interactive));
    s
}

/// The lines that `show_extension_help` shows for a manifest, in order.
pub fn help_lines(m: &ExtensionManifest) -> (res: Vec<HelpLine>)
    ensures
        line_views(res@) == help_lines_spec(*m),
{
    let mut lines: Vec<HelpLine> = Vec::new();
    lines.push(
        HelpLine { level: LineLevel::Info, text: concat2("Extension:   ", m.name.as_str()) },
    );
    lines.push(
        HelpLine { level: LineLevel::Neutral, text: concat2("Description: ", m.description.as_str()) },
    );
    let ghost head = seq![
        (LineLevel::Info, "Extension:   "@ + m.name@),
        (LineLevel::Neutral, "Description: "@ + m.description@),
    ];
    assert(line_views(lines@) =~= head);
    if m.args.len() > 0 {
        lines.push(HelpLine { level: LineLevel::Plain, text: String::from_str("\nArguments:") });
        let n = m.args.len();
        let mut i: usize = 0;
        while i < n
            invariant
                n == m.args@.len(),
                i <= n,
                line_views(lines@) =~= head + seq![(LineLevel::Plain, "\nArguments:"@)]
                    + m.args@.subrange(0, i as int).map_values(
                    |a: ExtensionArg| (LineLevel::Neutral, arg_line_spec(a)),
                ),
            decreases n - i,
        {
            let ghost prev = lines@;
            let text = arg_line(&m.args[i]);
            lines.push(HelpLine { level: LineLevel::Neutral, text });
            assert(line_views(lines@) =~= line_views(prev).push(
                (LineLevel::Neutral, arg_line_spec(m.args@[i as int])),
            ));
            assert(m.args@.subrange(0, i + 1).map_values(
                |a: ExtensionArg| (LineLevel::Neutral, arg_line_spec(a)),
            ) =~= m.args@.subrange(0, i as int).map_values(
                |a: ExtensionArg| (LineLevel::Neutral, arg_line_spec(a)),
            ).push((LineLevel::Neutral, arg_line_spec(m.args@[i as int]))));
            i = i + 1;
        }
        assert(m.args@.subrange(0, n as int) =~= m.args@);
    }
    let ghost with_args = head + argument_section_spec(m.args@);
    assert(line_views(lines@) =~= with_args);
    if m.commands.len() > 0 {
        lines.push(HelpLine { level: LineLevel::Plain, text: String::from_str("\nCommands:") });
        let n = m.commands.len();
        let mut i: usize = 0;
        while i < n
            invariant
                n == m.commands@.len(),
                i <= n,
                line_views(lines@) =~= with_args + seq![(LineLevel::Plain, "\nCommands:"@)]
                    + m.commands@.subrange(0, i as int).map_values(
                    |c: String| (LineLevel::Neutral, "  "@ + c@),
                ),
            decreases n - i,
        {
            let ghost prev = lines@;
            let text = concat2("  ", m.commands[i].as_str());
            lines.push(HelpLine { level: LineLevel::Neutral, text });
            assert(line_views(lines@) =~= line_views(prev).push(
                (LineLevel::Neutral, "  "@ + m.commands@[i as int]@),
            ));
            assert(m.commands@.subrange(0, i + 1).map_values(
                |c: String| (LineLevel::Neutral, "  "@ + c@),
            ) =~= m.commands@.subrange(0, i as int).map_values(
                |c: String| (LineLevel::Neutral, "  "@ + c@),
            ).push((LineLevel::Neutral, "  "@ + m.commands@[i as int]@)));
            i = i + 1;
        }
        assert(m.commands@.subrange(0, n as int) =~= m.commands@);
    }
    let ghost with_commands = with_args + command_section_spec(m.commands@);
    assert(line_views(lines@) =~= with_commands);
    lines.push(
        HelpLine { level: LineLevel::Neutral, text: concat2("\nRun with: forge ", m.name.as_str()) },
    );
    assert(line_views(lines@) =~= help_lines_spec(*m));
    lines
}

/// How many lines the help of the arguments `args` takes: a header and a line
/// for each argument, or nothing where there is no argument.
pub open spec fn section_len(n: nat) -> nat {
    if n == 0 {
        0
    } else {
        n + 1
    }
}

/// Law: the help lists every argument and every command, each on a line of
/// its own, in order. It has `3 + section(args) + section(commands)` lines:
/// the name, the description, the arguments (a header, then one line per
/// argument), the commands (a header, then one line per command), and the
/// closing line. The `k`-th argument line shows the `k`-th argument and begins
/// with its name; the `k`-th command line shows the `k`-th command.
pub proof fn lemma_help_lists_every_argument_and_command(m: ExtensionManifest)
    ensures
        help_lines_spec(m).len() == 3 + section_len(m.args@.len()) + section_len(m.commands@.len()),
        help_lines_spec(m)[0] == (LineLevel::Info, "Extension:   "@ + m.name@),
        help_lines_spec(m)[1] == (LineLevel::Neutral, "Description: "@ + m.description@),
        m.args@.len() > 0 ==> help_lines_spec(m)[2] == (LineLevel::Plain, "\nArguments:"@),
        forall|k: int|
            0 <= k < m.args@.len() ==> #[trigger] help_lines_spec(m)[3 + k] == (
                LineLevel::Neutral,
                arg_line_spec(m.args@[k]),
            ) && starts_with_spec(arg_line_spec(m.args@[k]), "  "@ + m.args@[k].name@),
        m.commands@.len() > 0 ==> help_lines_spec(m)[2 + section_len(m.args@.len()) as int] == (
            LineLevel::Plain,
            "\nCommands:"@,
        ),
        forall|k: int|
            0 <= k < m.commands@.len() ==> #[trigger] help_lines_spec(m)[3 + section_len(
                m.args@.len(),
            ) + k] == (LineLevel::Neutral, "  "@ + m.commands@[k]@),
        help_lines_spec(m).last() == (LineLevel::Neutral, "\nRun with: forge "@ + m.name@),
{
    let args = argument_section_spec(m.args@);
    let cmds = command_section_spec(m.commands@);
    let head = seq![
        (LineLevel::Info, "Extension:   "@ + m.name@),
        (LineLevel::Neutral, "Description: "@ + m.description@),
    ];
    let tail = seq![(LineLevel::Neutral, "\nRun with: forge "@ + m.name@)];
    assert(args.len() == section_len(m.args@.len()));
    assert(cmds.len() == section_len(m.commands@.len()));
    let all = help_lines_spec(m);
    assert(all =~= head + args + cmds + tail);
    assert forall|k: int| 0 <= k < m.args@.len() implies #[trigger] all[3 + k] == (
        LineLevel::Neutral,
        arg_line_spec(m.args@[k]),
    ) && starts_with_spec(arg_line_spec(m.args@[k]), "  "@ + m.args@[k].name@) by {
        assert(all[3 + k] == args[1 + k]);
        let a = m.args@[k];
        let line = arg_line_spec(a);
        let p = "  "@ + a.name@;
        reveal_strlit("  ");
        assert(pad_right_spec(a.name@, ARG_NAME_WIDTH as nat).subrange(0, a.name@.len() as int)
            =~= a.name@);
        assert(line.subrange(0, p.len() as int) =~= p);
    }
    assert forall|k: int| 0 <= k < m.commands@.len() implies #[trigger] all[3 + section_len(
        m.args@.len(),
    ) + k] == (LineLevel::Neutral, "  "@ + m.commands@[k]@) by {
        assert(all[3 + section_len(m.args@.len()) + k] == cmds[1 + k]);
    }
}

} // verus!
