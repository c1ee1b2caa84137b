//! Install pipeline: from a manager, configured arguments and a package
//! list to the exact command line that installs the packages.
//!
//! The pipeline only assembles the invocation. Spawning the process and
//! waiting on it is input/output and lives with the caller, which reports
//! success when the command ran, whatever the manager's own exit code.
use crate::config::{
    spec_install_flag, spec_invocation, spec_needs_sudo, PkgMgrDescriptor, PkgMgrs,
};
use crate::util::{append_all, contains_string};
use vstd::prelude::*;

verus! {

/// Command-line input for the install path: the configuration file to
/// read packages from.
pub struct Install {
    /// Sets the configuration toml file.
    pub config: String,
}

/// A fully assembled invocation: the program to spawn and its arguments.
#[derive(Clone, Debug)]
pub struct InstallCommand {
    pub program: String,
    pub args: Vec<String>,
}

/// The configured arguments with the install flag appended, unless they
/// already contain it.
pub open spec fn spec_with_flag(args: Seq<Seq<char>>, flag: Seq<char>) -> Seq<Seq<char>> {
    if args.contains(flag) {
        args
    } else {
        args.push(flag)
    }
}

/// The program to spawn: the escalation tool when escalation is needed,
/// else the manager's own executable.
pub open spec fn spec_program(sudo: bool, invocation: Seq<char>) -> Seq<char> {
    if sudo {
        "sudo"@
    } else {
        invocation
    }
}

/// The argument vector handed to the spawned program: under escalation
/// the manager's executable comes first, then the flags, then the
/// packages.
pub open spec fn spec_argv(
    sudo: bool,
    invocation: Seq<char>,
    flags: Seq<Seq<char>>,
    pkgs: Seq<Seq<char>>,
) -> Seq<Seq<char>> {
    if sudo {
        seq![invocation] + flags + pkgs
    } else {
        flags + pkgs
    }
}

/// The program that installs via manager `m`.
pub open spec fn spec_install_program(m: PkgMgrs) -> Seq<char> {
    spec_program(spec_needs_sudo(m), spec_invocation(m))
}

/// The full argument vector that installs `pkgs` via manager `m` with the
/// configured arguments `args`.
pub open spec fn spec_install_argv(m: PkgMgrs, args: Seq<Seq<char>>, pkgs: Seq<Seq<char>>) -> Seq<
    Seq<char>,
> {
    spec_argv(
        spec_needs_sudo(m),
        spec_invocation(m),
        spec_with_flag(args, spec_install_flag(m)),
        pkgs,
    )
}

/// Assembles the invocation of `pkg_mgr_string` with the given arguments
/// and packages, wrapped with privilege escalation when `sudo` holds.
pub fn run_install_command(
    sudo: bool,
    pkg_mgr_string: &str,
    args: Vec<String>,
    packages: Vec<String>,
) -> (c: InstallCommand)
    ensures
        c.program@ == spec_program(sudo, pkg_mgr_string@),
        c.args.deep_view() == spec_argv(
            sudo,
            pkg_mgr_string@,
            args.deep_view(),
            packages.deep_view(),
        ),
{
    let program: String = if sudo {
        "sudo".to_owned()
    } else {
        pkg_mgr_string.to_owned()
    };
    let mut argv: Vec<String> = Vec::new();
    if sudo {
        argv.push(pkg_mgr_string.to_owned());
        proof {
            assert(argv.deep_view() =~= seq![pkg_mgr_string@]);
        }
    } else {
        proof {
            assert(argv.deep_view() =~= Seq::<Seq<char>>::empty());
        }
    }
    append_all(&mut argv, args);
    append_all(&mut argv, packages);
    proof {
        assert(argv.deep_view() =~= spec_argv(
            sudo,
            pkg_mgr_string@,
            args.deep_view(),
            packages.deep_view(),
        ));
    }
    InstallCommand { program, args: argv }
}

/// Appends the descriptor's install flag to `args` unless already
/// present, then assembles the invocation the descriptor calls for.
pub fn build_install_command(
    d: &PkgMgrDescriptor,
    args: Vec<String>,
    packages: Vec<String>,
) -> (c: InstallCommand)
    ensures
        c.program@ == spec_program(d.needs_sudo, d.invocation@),
        c.args.deep_view() == spec_argv(
            d.needs_sudo,
            d.invocation@,
            spec_with_flag(args.deep_view(), d.install_flag@),
            packages.deep_view(),
        ),
{
    let mut flags = args;
    if !contains_string(&flags, d.install_flag.as_str()) {
        flags.push(d.install_flag.clone());
        proof {
            assert(flags.deep_view() =~= args.deep_view().push(d.install_flag@));
        }
    }
    run_install_command(d.needs_sudo, d.invocation.as_str(), flags, packages)
}

/// Builds the apt invocation for the packages list.
pub fn apt(packages: Vec<String>, args: Vec<String>) -> (c: InstallCommand)
    ensures
        c.program@ == spec_install_program(PkgMgrs::Apt),
        c.args.deep_view() == spec_install_argv(
            PkgMgrs::Apt,
            args.deep_view(),
            packages.deep_view(),
        ),
{
    build_install_command(&PkgMgrs::Apt.descriptor(), args, packages)
}

/// Builds the brew invocation for the packages list.
pub fn brew(packages: Vec<String>, args: Vec<String>) -> (c: InstallCommand)
    ensures
        c.program@ == spec_install_program(PkgMgrs::Brew),
        c.args.deep_view() == spec_install_argv(
            PkgMgrs::Brew,
            args.deep_view(),
            packages.deep_view(),
        ),
{
    build_install_command(&PkgMgrs::Brew.descriptor(), args, packages)
}

/// Builds the pacman invocation for the packages list.
pub fn pacman(packages: Vec<String>, args: Vec<String>) -> (c: InstallCommand)
    ensures
        c.program@ == spec_install_program(PkgMgrs::Pacman),
        c.args.deep_view() == spec_install_argv(
            PkgMgrs::Pacman,
            args.deep_view(),
            packages.deep_view(),
        ),
{
    build_install_command(&PkgMgrs::Pacman.descriptor(), args, packages)
}

/// Builds the paru invocation for the packages list.
pub fn paru(packages: Vec<String>, args: Vec<String>) -> (c: InstallCommand)
    ensures
        c.program@ == spec_install_program(PkgMgrs::Paru),
        c.args.deep_view() == spec_install_argv(
            PkgMgrs::Paru,
            args.deep_view(),
            packages.deep_view(),
        ),
{
    build_install_command(&PkgMgrs::Paru.descriptor(), args, packages)
}

/// Builds the yay invocation for the packages list.
pub fn yay(packages: Vec<String>, args: Vec<String>) -> (c: InstallCommand)
    ensures
        c.program@ == spec_install_program(PkgMgrs::Yay),
        c.args.deep_view() == spec_install_argv(
            PkgMgrs::Yay,
            args.deep_view(),
            packages.deep_view(),
        ),
{
    build_install_command(&PkgMgrs::Yay.descriptor(), args, packages)
}

/// Used to build the command that installs the packages in the packages
/// list using a given supported package manager.
pub fn install_pkgs(package_manager: &PkgMgrs, args: Vec<String>, packages: Vec<String>) -> (c:
    InstallCommand)
    ensures
        c.program@ == spec_install_program(*package_manager),
        c.args.deep_view() == spec_install_argv(
            *package_manager,
            args.deep_view(),
            packages.deep_view(),
        ),
{
    match package_manager {
        PkgMgrs::Apt => apt(packages, args),
        PkgMgrs::Brew => brew(packages, args),
        PkgMgrs::Pacman => pacman(packages, args),
        PkgMgrs::Paru => paru(packages, args),
        PkgMgrs::Yay => yay(packages, args),
    }
}

/// How many elements of `s` equal `x`.
pub open spec fn count_matches(s: Seq<Seq<char>>, x: Seq<char>) -> nat
    decreases s.len(),
{
    if s.len() == 0 {
        0
    } else {
        count_matches(s.drop_last(), x) + (if s.last() == x {
            1nat
        } else {
            0nat
        })
    }
}

proof fn lemma_count_contains(s: Seq<Seq<char>>, x: Seq<char>)
    ensures
        s.contains(x) <==> count_matches(s, x) >= 1,
    decreases s.len(),
{
    if s.len() == 0 {
        assert(!s.contains(x));
    } else {
        lemma_count_contains(s.drop_last(), x);
        if s.contains(x) {
            let i = choose|i: int| 0 <= i < s.len() && s[i] == x;
            if i < s.len() - 1 {
                assert(s.drop_last()[i] == x);
                assert(s.drop_last().contains(x));
            }
        }
        if count_matches(s, x) >= 1 && s.last() != x {
            let j = choose|j: int| 0 <= j < s.drop_last().len() && s.drop_last()[j] == x;
            assert(s[j] == x);
        }
    }
}

proof fn lemma_count_concat(a: Seq<Seq<char>>, b: Seq<Seq<char>>, x: Seq<char>)
    ensures
        count_matches(a + b, x) == count_matches(a, x) + count_matches(b, x),
    decreases b.len(),
{
    if b.len() == 0 {
        assert(a + b =~= a);
    } else {
        lemma_count_concat(a, b.drop_last(), x);
        assert((a + b).drop_last() =~= a + b.drop_last());
        assert((a + b).last() == b.last());
    }
}

/// Law: assembling the flag list appends the install flag exactly when it
/// is absent — configured arguments that already hold the flag pass
/// through unchanged, so their occurrence count is kept.
pub proof fn lemma_with_flag_count(args: Seq<Seq<char>>, flag: Seq<char>)
    ensures
        count_matches(spec_with_flag(args, flag), flag) == if count_matches(args, flag) == 0 {
            1nat
        } else {
            count_matches(args, flag)
        },
{
    lemma_count_contains(args, flag);
    if !args.contains(flag) {
        assert(args.push(flag).drop_last() =~= args);
        assert(args.push(flag).last() == flag);
    }
}

/// Law (idempotence): when the configured arguments already hold the
/// manager's install flag — once, and no package name equals the flag —
/// the assembled install argument vector holds that flag exactly once:
/// no duplicate is appended.
pub proof fn lemma_install_flag_once(m: PkgMgrs, args: Seq<Seq<char>>, pkgs: Seq<Seq<char>>)
    requires
        count_matches(args, spec_install_flag(m)) == 1,
        count_matches(pkgs, spec_install_flag(m)) == 0,
    ensures
        count_matches(spec_install_argv(m, args, pkgs), spec_install_flag(m)) == 1,
{
    let flag = spec_install_flag(m);
    lemma_count_contains(args, flag);
    assert(spec_with_flag(args, flag) == args);
    if spec_needs_sudo(m) {
        reveal_strlit("apt");
        reveal_strlit("pacman");
        reveal_strlit("install");
        reveal_strlit("-S");
        match m {
            PkgMgrs::Apt => {
                assert(("apt"@).len() != ("install"@).len());
            },
            PkgMgrs::Pacman => {
                assert(("pacman"@).len() != ("-S"@).len());
            },
            _ => {
            },
        }
        assert(spec_invocation(m) != flag);
        let head = seq![spec_invocation(m)];
        assert(head.drop_last() =~= Seq::<Seq<char>>::empty());
        assert(count_matches(Seq::<Seq<char>>::empty(), flag) == 0);
        assert(head.last() == spec_invocation(m));
        assert(count_matches(head, flag) == 0);
        lemma_count_concat(head, args, flag);
        lemma_count_concat(head + args, pkgs, flag);
        assert(spec_install_argv(m, args, pkgs) == head + args + pkgs);
    } else {
        lemma_count_concat(args, pkgs, flag);
        assert(spec_install_argv(m, args, pkgs) == args + pkgs);
    }
}

} // verus!
