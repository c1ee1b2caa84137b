//! Capture pipeline: reformats a captured list of installed packages
//! into configuration text that the config parser accepts back.
//!
//! Running the list command and writing the output file are input/output
//! and live with the caller; everything between — splitting the captured
//! text into lines, quoting them, and assembling the document — is here.
use crate::config::{
    resolve, spec_confirm_flags, spec_list_args, spec_list_invocation, spec_resolve, ConfigError,
};
use vstd::prelude::*;
use vstd::string::{StrSliceExecFns, StringExecFns};

verus! {

/// The lines of `s`: split at each newline, with the empty line after a
/// trailing newline dropped.
pub open spec fn spec_split_lines(s: Seq<char>) -> Seq<Seq<char>>
    decreases s.len(),
{
    if s.len() == 0 {
        Seq::empty()
    } else if s[0] == '\n' {
        seq![Seq::<char>::empty()] + spec_split_lines(s.drop_first())
    } else {
        let rest = spec_split_lines(s.drop_first());
        if rest.len() == 0 {
            seq![seq![s[0]]]
        } else {
            seq![seq![s[0]] + rest[0]] + rest.drop_first()
        }
    }
}

proof fn lemma_split_lines_newline_free(c: Seq<char>)
    requires
        forall|k: int| 0 <= k < c.len() ==> c[k] != '\n',
    ensures
        c.len() == 0 ==> spec_split_lines(c) == Seq::<Seq<char>>::empty(),
        c.len() > 0 ==> spec_split_lines(c) == seq![c],
    decreases c.len(),
{
    if c.len() > 0 {
        lemma_split_lines_newline_free(c.drop_first());
        if c.len() == 1 {
            assert(seq![c[0]] =~= c);
            assert(spec_split_lines(c) =~~= seq![c]);
        } else {
            assert(seq![c[0]] + c.drop_first() =~= c);
            assert(spec_split_lines(c) =~~= seq![c]);
        }
    }
}

proof fn lemma_split_lines_first(c: Seq<char>, t: Seq<char>)
    requires
        forall|k: int| 0 <= k < c.len() ==> c[k] != '\n',
    ensures
        spec_split_lines(c + seq!['\n'] + t) == seq![c] + spec_split_lines(t),
    decreases c.len(),
{
    let s = c + seq!['\n'] + t;
    if c.len() == 0 {
        assert(s[0] == '\n');
        assert(s.drop_first() =~= t);
        assert(spec_split_lines(s) =~~= seq![c] + spec_split_lines(t));
    } else {
        lemma_split_lines_first(c.drop_first(), t);
        assert(s[0] == c[0]);
        assert(s[0] != '\n');
        assert(s.drop_first() =~= c.drop_first() + seq!['\n'] + t);
        let rest = spec_split_lines(s.drop_first());
        assert(rest == seq![c.drop_first()] + spec_split_lines(t));
        assert(rest.len() > 0);
        assert(rest[0] == c.drop_first());
        assert(seq![c[0]] + c.drop_first() =~= c);
        assert(rest.drop_first() =~= spec_split_lines(t));
        assert(spec_split_lines(s) =~~= seq![c] + spec_split_lines(t));
    }
}

/// Splits captured text into its lines, one string per line, dropping
/// the empty line after a trailing newline.
pub fn split_lines(s: &str) -> (r: Vec<String>)
    ensures
        r.deep_view() == spec_split_lines(s@),
{
    let n = s.unicode_len();
    let mut lines: Vec<String> = Vec::new();
    let mut cur = String::new();
    let mut i: usize = 0;
    proof {
        assert(cur@ + s@.skip(0) =~= s@);
        assert(lines.deep_view() =~= Seq::<Seq<char>>::empty());
    }
    while i < n
        invariant
            i <= n,
            n == s@.len(),
            forall|k: int| 0 <= k < cur@.len() ==> cur@[k] != '\n',
            spec_split_lines(s@) == lines.deep_view() + spec_split_lines(
                cur@ + s@.skip(i as int),
            ),
        decreases n - i,
    {
        let ghost cur0 = cur@;
        let ghost lines0 = lines.deep_view();
        let c = s.get_char(i);
        if c == '\n' {
            proof {
                assert(cur0 + s@.skip(i as int) =~= cur0 + seq!['\n'] + s@.skip(i as int + 1));
                lemma_split_lines_first(cur0, s@.skip(i as int + 1));
            }
            lines.push(cur);
            cur = String::new();
            proof {
                assert(lines.deep_view() =~= lines0.push(cur0));
                assert(lines0.push(cur0) =~= lines0 + seq![cur0]);
                assert(cur@ + s@.skip(i as int + 1) =~= s@.skip(i as int + 1));
                assert(lines.deep_view() + spec_split_lines(cur@ + s@.skip(i as int + 1)) =~~= lines0
                    + (seq![cur0] + spec_split_lines(s@.skip(i as int + 1))));
            }
        } else {
            let piece = s.substring_char(i, i + 1);
            cur.append(piece);
            proof {
                assert(piece@ =~= seq![s@[i as int]]);
                assert(cur@ + s@.skip(i as int + 1) =~= cur0 + s@.skip(i as int));
            }
        }
        i = i + 1;
    }
    proof {
        assert(cur@ + s@.skip(n as int) =~= cur@);
        lemma_split_lines_newline_free(cur@);
    }
    if cur.as_str().is_empty() {
        proof {
            assert(spec_split_lines(cur@) =~= Seq::<Seq<char>>::empty());
            assert(lines.deep_view() + Seq::<Seq<char>>::empty() =~= lines.deep_view());
        }
        lines
    } else {
        let ghost lines0 = lines.deep_view();
        let ghost cur0 = cur@;
        lines.push(cur);
        proof {
            assert(lines.deep_view() =~= lines0.push(cur0));
            assert(lines0.push(cur0) =~= lines0 + seq![cur0]);
        }
        lines
    }
}

/// One element of generated list text: the line quoted, tab-indented,
/// with a trailing comma and newline.
pub open spec fn spec_quoted_line(l: Seq<char>) -> Seq<char> {
    "\t\""@ + l + "\",\n"@
}

pub open spec fn spec_quoted_lines(ls: Seq<Seq<char>>) -> Seq<char>
    decreases ls.len(),
{
    if ls.len() == 0 {
        Seq::empty()
    } else {
        spec_quoted_lines(ls.drop_last()) + spec_quoted_line(ls.last())
    }
}

/// The `install` field text generated from captured output `s`.
pub open spec fn spec_package_list_text(s: Seq<char>) -> Seq<char> {
    "install = [\n"@ + spec_quoted_lines(spec_split_lines(s)) + "]"@
}

/// Formats a captured package list as the `install` field of a
/// configuration document: one quoted, indented element per source
/// line, in source order.
pub fn format_package_list(package_list: String) -> (r: String)
    ensures
        r@ == spec_package_list_text(package_list@),
{
    let lines = split_lines(package_list.as_str());
    let mut out: String = "install = [\n".to_owned();
    let mut i: usize = 0;
    proof {
        assert(lines.deep_view().take(0) =~= Seq::<Seq<char>>::empty());
        assert(out@ =~= "install = [\n"@ + spec_quoted_lines(lines.deep_view().take(0)));
    }
    while i < lines.len()
        invariant
            i <= lines.len(),
            lines.deep_view().len() == lines@.len(),
            out@ == "install = [\n"@ + spec_quoted_lines(lines.deep_view().take(i as int)),
        decreases lines.len() - i,
    {
        out.append("\t\"");
        out.append(lines[i].as_str());
        out.append("\",\n");
        i = i + 1;
        proof {
            assert(lines.deep_view().take(i as int).drop_last() =~= lines.deep_view().take(
                i as int - 1,
            ));
            assert(lines.deep_view().take(i as int).last() == lines.deep_view()[i as int - 1]);
            assert(out@ =~= "install = [\n"@ + spec_quoted_lines(
                lines.deep_view().take(i as int),
            ));
        }
    }
    out.append("]");
    proof {
        assert(lines.deep_view().take(lines@.len() as int) =~= lines.deep_view());
        assert(out@ =~= spec_package_list_text(package_list@));
    }
    out
}

/// One element of a generated `args` field: the argument quoted.
pub open spec fn spec_quoted_arg(a: Seq<char>) -> Seq<char> {
    "\""@ + a + "\""@
}

/// The arguments quoted and joined with commas.
pub open spec fn spec_joined_args(args: Seq<Seq<char>>) -> Seq<char>
    decreases args.len(),
{
    if args.len() == 0 {
        Seq::empty()
    } else if args.len() == 1 {
        spec_quoted_arg(args[0])
    } else {
        spec_joined_args(args.drop_last()) + ", "@ + spec_quoted_arg(args.last())
    }
}

/// The text of a generated `args` field.
pub open spec fn spec_args_field_text(args: Seq<Seq<char>>) -> Seq<char> {
    "args = ["@ + spec_joined_args(args) + "]"@
}

/// Takes the args and returns the string of the args field for the
/// config file: a quoted, comma-separated array.
pub fn format_args_field(args: Vec<String>) -> (r: String)
    ensures
        r@ == spec_args_field_text(args.deep_view()),
{
    let mut out: String = "args = [".to_owned();
    let mut i: usize = 0;
    proof {
        assert(args.deep_view().take(0) =~= Seq::<Seq<char>>::empty());
        assert(out@ =~= "args = ["@ + spec_joined_args(args.deep_view().take(0)));
    }
    while i < args.len()
        invariant
            i <= args.len(),
            args.deep_view().len() == args@.len(),
            out@ == "args = ["@ + spec_joined_args(args.deep_view().take(i as int)),
        decreases args.len() - i,
    {
        if i > 0 {
            out.append(", ");
        }
        out.append("\"");
        out.append(args[i].as_str());
        out.append("\"");
        i = i + 1;
        proof {
            assert(args.deep_view().take(i as int).drop_last() =~= args.deep_view().take(
                i as int - 1,
            ));
            assert(args.deep_view().take(i as int).last() == args.deep_view()[i as int - 1]);
            assert(out@ =~= "args = ["@ + spec_joined_args(args.deep_view().take(i as int)));
        }
    }
    out.append("]");
    proof {
        assert(args.deep_view().take(args@.len() as int) =~= args.deep_view());
        assert(out@ =~= spec_args_field_text(args.deep_view()));
    }
    out
}

/// The whole generated configuration text: the manager's name line, the
/// optional `args` line (omitted when there are no flags to record), and
/// the `install` list built from the captured output.
pub open spec fn spec_config_text(
    name: Seq<char>,
    config_args: Option<Seq<Seq<char>>>,
    captured: Seq<char>,
) -> Seq<char> {
    "[package_manager]\nname = \""@ + name + "\""@ + (match config_args {
        Option::None => Seq::<char>::empty(),
        Option::Some(a) => "\n"@ + spec_args_field_text(a),
    }) + "\n\n[pkgs]\n"@ + spec_package_list_text(captured)
}

/// Renders the whole configuration document for a captured package
/// list. Parsing the result yields the manager key under `name` and the
/// captured lines under `install`.
pub fn render_config_text(name: &str, config_args: Option<Vec<String>>, package_list: String) -> (r:
    String)
    ensures
        r@ == spec_config_text(name@, config_args.deep_view(), package_list@),
{
    let mut out: String = "[package_manager]\nname = \"".to_owned();
    out.append(name);
    out.append("\"");
    match config_args {
        Option::Some(a) => {
            out.append("\n");
            let f = format_args_field(a);
            out.append(f.as_str());
        },
        Option::None => {},
    }
    out.append("\n\n[pkgs]\n");
    let pl = format_package_list(package_list);
    out.append(pl.as_str());
    proof {
        assert(out@ =~= spec_config_text(name@, config_args.deep_view(), package_list@));
    }
    out
}

/// Command-line input for the generate path: which manager to capture
/// and where to write the result.
pub struct Generate {
    pub package_manager: String,
    pub output_file: String,
}

/// The capture invocation for one manager, with the flags the generated
/// configuration should carry.
#[derive(Clone, Debug)]
pub struct CaptureCommand {
    /// The program that lists explicitly installed packages.
    pub program: String,
    /// Its arguments.
    pub args: Vec<String>,
    /// The content of the generated `args` line; `None` when the manager
    /// has no confirmation flags to record.
    pub config_args: Option<Vec<String>>,
}

impl Generate {
    /// Resolves this manager key to its capture invocation; fails for a
    /// key outside the registry.
    pub fn capture_command(&self) -> (r: Result<CaptureCommand, ConfigError>)
        ensures
            match spec_resolve(self.package_manager@) {
                Option::None => r == Err::<CaptureCommand, ConfigError>(
                    ConfigError::UnsupportedManager,
                ),
                Option::Some(m) => r matches Ok(cc) && cc.program@ == spec_list_invocation(m)
                    && cc.args.deep_view() == spec_list_args(m) && cc.config_args.deep_view() == (
                if spec_confirm_flags(m).len() == 0 {
                    Option::<Seq<Seq<char>>>::None
                } else {
                    Option::Some(spec_confirm_flags(m))
                }),
            },
    {
        let m = match resolve(self.package_manager.as_str()) {
            Ok(m) => m,
            Err(e) => return Err(e),
        };
        let d = m.descriptor();
        let config_args = if d.confirm_flags.len() == 0 {
            None
        } else {
            Some(d.confirm_flags)
        };
        Ok(CaptureCommand { program: d.list_invocation, args: d.list_args, config_args })
    }

    /// Generates the configuration text for this manager key from the
    /// captured package list and the flags to record.
    pub fn gen(&self, config_args: Option<Vec<String>>, package_list: String) -> (r: String)
        ensures
            r@ == spec_config_text(
                self.package_manager@,
                config_args.deep_view(),
                package_list@,
            ),
    {
        render_config_text(self.package_manager.as_str(), config_args, package_list)
    }
}

} // verus!
