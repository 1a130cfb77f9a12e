//! The pipeline's stages as command plans. Each function here produces the
//! exact external commands one stage runs, in order; predicates alongside
//! them pin every program name, argument, environment override and working
//! directory, so a caller knows precisely what it has been asked to run.

use vstd::prelude::*;
use vstd::string::StringExecFns;
use crate::invocation::Invocation;
use crate::invocation::push_arg;
use crate::numfmt::jobs_flag_spec;
use crate::numfmt::jobs_flag;

verus! {

/// A command with no environment override: `prog` run with `args` in `dir`.
pub open spec fn is_plain_command(
    c: Invocation,
    prog: Seq<char>,
    args: Seq<Seq<char>>,
    dir: Option<Seq<char>>,
) -> bool {
    &&& c.program@ == prog
    &&& c.args_view() == args
    &&& c.env_view() is None
    &&& c.dir_view() == dir
}

/// The packages the dependency installer asks the system package manager for.
pub open spec fn dependency_packages() -> Seq<Seq<char>> {
    seq![
        "autoconf"@,
        "automake"@,
        "build-essential"@,
        "cmake"@,
        "git-core"@,
        "libass-dev"@,
        "libfreetype6-dev"@,
        "libgnutls28-dev"@,
        "libmp3lame-dev"@,
        "libnuma-dev"@,
        "libopus-dev"@,
        "libtheora-dev"@,
        "libtool"@,
        "libvorbis-dev"@,
        "libvpx-dev"@,
        "pkg-config"@,
        "texinfo"@,
        "wget"@,
        "yasm"@,
        "zlib1g-dev"@,
        "libunistring-dev"@,
        "libfdk-aac-dev"@,
        "libx264-dev"@,
        "libx265-dev"@,
    ]
}

/// The dependency installer's single command: the package manager, elevated,
/// in auto-confirm mode, with the fixed package list.
pub open spec fn is_install_dependencies(c: Invocation) -> bool {
    is_plain_command(
        c,
        "sudo"@,
        seq!["apt-get"@, "install"@, "-y"@] + dependency_packages(),
        None,
    )
}

/// Builds the dependency installer's command.
pub fn install_dependencies_command() -> (c: Invocation)
    ensures
        is_install_dependencies(c),
{
    let mut args: Vec<String> = Vec::new();
    push_arg(&mut args, "apt-get");
    push_arg(&mut args, "install");
    push_arg(&mut args, "-y");
    push_arg(&mut args, "autoconf");
    push_arg(&mut args, "automake");
    push_arg(&mut args, "build-essential");
    push_arg(&mut args, "cmake");
    push_arg(&mut args, "git-core");
    push_arg(&mut args, "libass-dev");
    push_arg(&mut args, "libfreetype6-dev");
    push_arg(&mut args, "libgnutls28-dev");
    push_arg(&mut args, "libmp3lame-dev");
    push_arg(&mut args, "libnuma-dev");
    push_arg(&mut args, "libopus-dev");
    push_arg(&mut args, "libtheora-dev");
    push_arg(&mut args, "libtool");
    push_arg(&mut args, "libvorbis-dev");
    push_arg(&mut args, "libvpx-dev");
    push_arg(&mut args, "pkg-config");
    push_arg(&mut args, "texinfo");
    push_arg(&mut args, "wget");
    push_arg(&mut args, "yasm");
    push_arg(&mut args, "zlib1g-dev");
    push_arg(&mut args, "libunistring-dev");
    push_arg(&mut args, "libfdk-aac-dev");
    push_arg(&mut args, "libx264-dev");
    push_arg(&mut args, "libx265-dev");
    let c = Invocation {
        program: String::from_str("sudo"),
        args,
        env: None,
        dir: None,
    };
    proof {
        assert(c.args_view() =~= seq!["apt-get"@, "install"@, "-y"@] + dependency_packages());
    }
    c
}

/// The directory the noise-suppression library is cloned into.
pub open spec fn library_dir() -> Seq<char> {
    "rnnoise"@
}

/// The clone of the noise-suppression library's repository.
pub open spec fn is_library_clone(c: Invocation) -> bool {
    is_plain_command(
        c,
        "git"@,
        seq!["clone"@, "https://github.com/xiph/rnnoise.git"@],
        None,
    )
}

/// The library's bootstrap script, run inside its directory.
pub open spec fn is_library_autogen(c: Invocation) -> bool {
    is_plain_command(c, "./autogen.sh"@, Seq::empty(), Some(library_dir()))
}

/// The library's configure script, run inside its directory.
pub open spec fn is_library_configure(c: Invocation) -> bool {
    is_plain_command(c, "./configure"@, Seq::empty(), Some(library_dir()))
}

/// The library's build, run inside its directory.
pub open spec fn is_library_make(c: Invocation) -> bool {
    is_plain_command(c, "make"@, Seq::empty(), Some(library_dir()))
}

/// The library's elevated install step.
pub open spec fn is_library_install(c: Invocation) -> bool {
    is_plain_command(c, "sudo"@, seq!["make"@, "install"@], Some(library_dir()))
}

/// The shared-library-cache refresh after the install.
pub open spec fn is_library_ldconfig(c: Invocation) -> bool {
    is_plain_command(c, "sudo"@, seq!["ldconfig"@], Some(library_dir()))
}

/// The library stage's full command sequence, in its strict order.
pub open spec fn is_library_build_sequence(cs: Seq<Invocation>) -> bool {
    &&& cs.len() == 6
    &&& is_library_clone(cs[0])
    &&& is_library_autogen(cs[1])
    &&& is_library_configure(cs[2])
    &&& is_library_make(cs[3])
    &&& is_library_install(cs[4])
    &&& is_library_ldconfig(cs[5])
}

fn plain_command(prog: &str, args: Vec<String>, dir_name: Option<&str>) -> (c: Invocation)
    ensures
        is_plain_command(
            c,
            prog@,
            args.deep_view(),
            match dir_name {
                Some(d) => Some(d@),
                None => None,
            },
        ),
{
    Invocation {
        program: String::from_str(prog),
        args,
        env: None,
        dir: match dir_name {
            Some(d) => Some(String::from_str(d)),
            None => None,
        },
    }
}

fn no_args() -> (args: Vec<String>)
    ensures
        args.deep_view() == Seq::<Seq<char>>::empty(),
{
    let args: Vec<String> = Vec::new();
    proof {
        assert(args.deep_view() =~= Seq::<Seq<char>>::empty());
    }
    args
}

/// Builds the noise-suppression library stage's commands. If the library's
/// directory already exists the whole stage is skipped: no command at all,
/// in particular no clone.
pub fn library_build_commands(dir_exists: bool) -> (cs: Vec<Invocation>)
    ensures
        dir_exists ==> cs@.len() == 0,
        !dir_exists ==> is_library_build_sequence(cs@),
{
    let mut cs: Vec<Invocation> = Vec::new();
    if dir_exists {
        return cs;
    }
    let mut clone_args: Vec<String> = Vec::new();
    push_arg(&mut clone_args, "clone");
    push_arg(&mut clone_args, "https://github.com/xiph/rnnoise.git");
    proof {
        assert(clone_args.deep_view() =~= seq!["clone"@, "https://github.com/xiph/rnnoise.git"@]);
    }
    cs.push(plain_command("git", clone_args, None));
    cs.push(plain_command("./autogen.sh", no_args(), Some("rnnoise")));
    cs.push(plain_command("./configure", no_args(), Some("rnnoise")));
    cs.push(plain_command("make", no_args(), Some("rnnoise")));
    let mut install_args: Vec<String> = Vec::new();
    push_arg(&mut install_args, "make");
    push_arg(&mut install_args, "install");
    proof {
        assert(install_args.deep_view() =~= seq!["make"@, "install"@]);
    }
    cs.push(plain_command("sudo", install_args, Some("rnnoise")));
    let mut ldconfig_args: Vec<String> = Vec::new();
    push_arg(&mut ldconfig_args, "ldconfig");
    proof {
        assert(ldconfig_args.deep_view() =~= seq!["ldconfig"@]);
    }
    cs.push(plain_command("sudo", ldconfig_args, Some("rnnoise")));
    cs
}

/// The directory the toolkit is cloned into.
pub open spec fn toolkit_dir() -> Seq<char> {
    "ffmpeg"@
}

/// The clone of the toolkit's repository.
pub open spec fn is_toolkit_clone(c: Invocation) -> bool {
    is_plain_command(
        c,
        "git"@,
        seq!["clone"@, "https://git.ffmpeg.org/ffmpeg.git"@, "ffmpeg"@],
        None,
    )
}

/// Builds the toolkit's clone step. If the toolkit's directory already
/// exists, no command is produced.
pub fn toolkit_clone_commands(dir_exists: bool) -> (cs: Vec<Invocation>)
    ensures
        dir_exists ==> cs@.len() == 0,
        !dir_exists ==> cs@.len() == 1 && is_toolkit_clone(cs@[0]),
{
    let mut cs: Vec<Invocation> = Vec::new();
    if dir_exists {
        return cs;
    }
    let mut clone_args: Vec<String> = Vec::new();
    push_arg(&mut clone_args, "clone");
    push_arg(&mut clone_args, "https://git.ffmpeg.org/ffmpeg.git");
    push_arg(&mut clone_args, "ffmpeg");
    proof {
        assert(clone_args.deep_view() =~= seq![
            "clone"@,
            "https://git.ffmpeg.org/ffmpeg.git"@,
            "ffmpeg"@,
        ]);
    }
    cs.push(plain_command("git", clone_args, None));
    cs
}

/// The complete fixed flag set the toolkit's configure script is given.
pub open spec fn toolkit_configure_flags() -> Seq<Seq<char>> {
    seq![
        "--enable-gpl"@,
        "--enable-libx264"@,
        "--enable-libx265"@,
        "--enable-nonfree"@,
        "--enable-libfreetype"@,
        "--enable-libmp3lame"@,
        "--enable-libopus"@,
        "--enable-libvpx"@,
        "--enable-libvorbis"@,
        "--enable-libass"@,
        "--enable-libfdk-aac"@,
    ]
}

/// The toolkit's configure step: the configure script in the toolkit's
/// directory, with the complete fixed flag set and the package-config
/// search path pointed at the installed library's metadata.
pub open spec fn is_toolkit_configure(c: Invocation) -> bool {
    &&& c.program@ == "./configure"@
    &&& c.args_view() == toolkit_configure_flags()
    &&& c.env_view() == Some(("PKG_CONFIG_PATH"@, "/usr/local/lib/pkgconfig"@))
    &&& c.dir_view() == Some(toolkit_dir())
}

/// The toolkit's compile step: the build tool in the toolkit's directory
/// with parallelism equal to the given logical CPU count.
pub open spec fn is_toolkit_make(c: Invocation, cpus: nat) -> bool {
    is_plain_command(c, "make"@, seq![jobs_flag_spec(cpus)], Some(toolkit_dir()))
}

/// The toolkit's elevated install step, in the toolkit's directory.
pub open spec fn is_toolkit_install(c: Invocation) -> bool {
    is_plain_command(c, "sudo"@, seq!["make"@, "install"@], Some(toolkit_dir()))
}

/// The toolkit build stage's full command sequence: configure, compile
/// with `cpus`-way parallelism, install.
pub open spec fn is_toolkit_build_sequence(cs: Seq<Invocation>, cpus: nat) -> bool {
    &&& cs.len() == 3
    &&& is_toolkit_configure(cs[0])
    &&& is_toolkit_make(cs[1], cpus)
    &&& is_toolkit_install(cs[2])
}

/// Builds the toolkit build stage's commands for `cpus` logical CPUs.
pub fn toolkit_build_commands(cpus: u64) -> (cs: Vec<Invocation>)
    ensures
        is_toolkit_build_sequence(cs@, cpus as nat),
{
    let mut cs: Vec<Invocation> = Vec::new();
    let mut configure_args: Vec<String> = Vec::new();
    push_arg(&mut configure_args, "--enable-gpl");
    push_arg(&mut configure_args, "--enable-libx264");
    push_arg(&mut configure_args, "--enable-libx265");
    push_arg(&mut configure_args, "--enable-nonfree");
    push_arg(&mut configure_args, "--enable-libfreetype");
    push_arg(&mut configure_args, "--enable-libmp3lame");
    push_arg(&mut configure_args, "--enable-libopus");
    push_arg(&mut configure_args, "--enable-libvpx");
    push_arg(&mut configure_args, "--enable-libvorbis");
    push_arg(&mut configure_args, "--enable-libass");
    push_arg(&mut configure_args, "--enable-libfdk-aac");
    proof {
        assert(configure_args.deep_view() =~= toolkit_configure_flags());
    }
    let configure = Invocation {
        program: String::from_str("./configure"),
        args: configure_args,
        env: Some((
            String::from_str("PKG_CONFIG_PATH"),
            String::from_str("/usr/local/lib/pkgconfig"),
        )),
        dir: Some(String::from_str("ffmpeg")),
    };
    cs.push(configure);
    let mut make_args: Vec<String> = Vec::new();
    let flag = jobs_flag(cpus);
    make_args.push(flag);
    proof {
        assert(make_args.deep_view() =~= seq![jobs_flag_spec(cpus as nat)]);
    }
    cs.push(plain_command("make", make_args, Some("ffmpeg")));
    let mut install_args: Vec<String> = Vec::new();
    push_arg(&mut install_args, "make");
    push_arg(&mut install_args, "install");
    proof {
        assert(install_args.deep_view() =~= seq!["make"@, "install"@]);
    }
    cs.push(plain_command("sudo", install_args, Some("ffmpeg")));
    cs
}

/// The version-report check on the installed toolkit.
pub open spec fn is_toolkit_version_check(c: Invocation) -> bool {
    is_plain_command(c, "ffmpeg"@, seq!["-version"@], None)
}

/// The filter-listing check on the installed toolkit.
pub open spec fn is_toolkit_filter_check(c: Invocation) -> bool {
    is_plain_command(c, "ffmpeg"@, seq!["-filters"@], None)
}

/// The verifier stage's command sequence: version report, then filter
/// listing.
pub open spec fn is_verification_sequence(cs: Seq<Invocation>) -> bool {
    &&& cs.len() == 2
    &&& is_toolkit_version_check(cs[0])
    &&& is_toolkit_filter_check(cs[1])
}

/// Builds the verifier stage's commands.
pub fn verification_commands() -> (cs: Vec<Invocation>)
    ensures
        is_verification_sequence(cs@),
{
    let mut cs: Vec<Invocation> = Vec::new();
    let mut version_args: Vec<String> = Vec::new();
    push_arg(&mut version_args, "-version");
    proof {
        assert(version_args.deep_view() =~= seq!["-version"@]);
    }
    cs.push(plain_command("ffmpeg", version_args, None));
    let mut filter_args: Vec<String> = Vec::new();
    push_arg(&mut filter_args, "-filters");
    proof {
        assert(filter_args.deep_view() =~= seq!["-filters"@]);
    }
    cs.push(plain_command("ffmpeg", filter_args, None));
    cs
}

/// The whole pipeline's command list, in the order the stages run:
/// dependency install; the library stage (skipped when its directory
/// exists); the toolkit clone (skipped when its directory exists); the
/// toolkit build with `cpus`-way parallelism; the verification checks.
pub open spec fn is_full_plan(
    cs: Seq<Invocation>,
    library_exists: bool,
    toolkit_exists: bool,
    cpus: nat,
) -> bool {
    let lib: int = if library_exists { 0 } else { 6 };
    let cl: int = if toolkit_exists { 0 } else { 1 };
    &&& cs.len() == 6 + lib + cl
    &&& is_install_dependencies(cs[0])
    &&& (!library_exists ==> is_library_build_sequence(cs.subrange(1, 7)))
    &&& (!toolkit_exists ==> is_toolkit_clone(cs[1 + lib]))
    &&& is_toolkit_build_sequence(cs.subrange(1 + lib + cl, 4 + lib + cl), cpus)
    &&& is_verification_sequence(cs.subrange(4 + lib + cl, 6 + lib + cl))
}

/// An existing clone target is never cloned again: in a full plan built
/// with both target directories present, no command is a clone of either
/// repository.
pub proof fn lemma_existing_targets_not_cloned(cs: Seq<Invocation>, cpus: nat)
    requires
        is_full_plan(cs, true, true, cpus),
    ensures
        forall|k: int|
            0 <= k < cs.len() ==> !is_library_clone(cs[k]) && !is_toolkit_clone(cs[k]),
{
    reveal_strlit("git");
    reveal_strlit("sudo");
    reveal_strlit("make");
    reveal_strlit("ffmpeg");
    reveal_strlit("./configure");
    assert forall|k: int| 0 <= k < cs.len() implies !is_library_clone(cs[k]) && !is_toolkit_clone(
        cs[k],
    ) by {
        assert(cs.len() == 6);
        let build = cs.subrange(1, 4);
        let checks = cs.subrange(4, 6);
        assert(is_toolkit_configure(build[0]) && is_toolkit_make(build[1], cpus)
            && is_toolkit_install(build[2]));
        assert(is_toolkit_version_check(checks[0]) && is_toolkit_filter_check(checks[1]));
        assert(build[0] == cs[1] && build[1] == cs[2] && build[2] == cs[3]);
        assert(checks[0] == cs[4] && checks[1] == cs[5]);
        assert("git"@.len() == 3 && "sudo"@.len() == 4 && "make"@.len() == 4 && "ffmpeg"@.len()
            == 6 && "./configure"@.len() == 11);
    }
}

/// Builds the whole pipeline's command list. `library_exists` and
/// `toolkit_exists` say whether the two clone targets are already present;
/// an existing target's clone (for the library, its whole stage) is
/// skipped.
pub fn full_plan(library_exists: bool, toolkit_exists: bool, cpus: u64) -> (cs: Vec<Invocation>)
    ensures
        is_full_plan(cs@, library_exists, toolkit_exists, cpus as nat),
{
    let mut cs: Vec<Invocation> = Vec::new();
    cs.push(install_dependencies_command());
    let mut lib_cmds = library_build_commands(library_exists);
    let ghost lib_part = lib_cmds@;
    cs.append(&mut lib_cmds);
    let mut clone_cmds = toolkit_clone_commands(toolkit_exists);
    cs.append(&mut clone_cmds);
    let mut build_cmds = toolkit_build_commands(cpus);
    let ghost build_part = build_cmds@;
    cs.append(&mut build_cmds);
    let mut check_cmds = verification_commands();
    let ghost check_part = check_cmds@;
    cs.append(&mut check_cmds);
    proof {
        let lib: int = if library_exists { 0int } else { 6int };
        let cl: int = if toolkit_exists { 0int } else { 1int };
        if !library_exists {
            assert(cs@.subrange(1, 7) =~= lib_part);
        }
        assert(cs@.subrange(1 + lib + cl, 4 + lib + cl) =~= build_part);
        assert(cs@.subrange(4 + lib + cl, 6 + lib + cl) =~= check_part);
    }
    cs
}

} // verus!
