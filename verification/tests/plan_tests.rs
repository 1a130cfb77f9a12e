use ffmpeg_setup::invocation::Invocation;
use ffmpeg_setup::numfmt::jobs_flag;
use ffmpeg_setup::numfmt::u64_decimal;
use ffmpeg_setup::stages::full_plan;
use ffmpeg_setup::stages::install_dependencies_command;
use ffmpeg_setup::stages::library_build_commands;
use ffmpeg_setup::stages::toolkit_build_commands;
use ffmpeg_setup::stages::toolkit_clone_commands;
use ffmpeg_setup::stages::verification_commands;

fn args_of(c: &Invocation) -> Vec<&str> {
    c.args.iter().map(|s| s.as_str()).collect()
}

#[test]
fn decimal_rendering_exact() {
    assert_eq!(u64_decimal(0), "0");
    assert_eq!(u64_decimal(7), "7");
    assert_eq!(u64_decimal(10), "10");
    assert_eq!(u64_decimal(42), "42");
    assert_eq!(u64_decimal(1234567890), "1234567890");
    assert_eq!(u64_decimal(u64::MAX), "18446744073709551615");
}

#[test]
fn jobs_flag_exact() {
    assert_eq!(jobs_flag(1), "-j1");
    assert_eq!(jobs_flag(8), "-j8");
    assert_eq!(jobs_flag(64), "-j64");
}

#[test]
fn dependency_install_command_exact() {
    let c = install_dependencies_command();
    assert_eq!(c.program, "sudo");
    assert_eq!(
        args_of(&c),
        vec![
            "apt-get",
            "install",
            "-y",
            "autoconf",
            "automake",
            "build-essential",
            "cmake",
            "git-core",
            "libass-dev",
            "libfreetype6-dev",
            "libgnutls28-dev",
            "libmp3lame-dev",
            "libnuma-dev",
            "libopus-dev",
            "libtheora-dev",
            "libtool",
            "libvorbis-dev",
            "libvpx-dev",
            "pkg-config",
            "texinfo",
            "wget",
            "yasm",
            "zlib1g-dev",
            "libunistring-dev",
            "libfdk-aac-dev",
            "libx264-dev",
            "libx265-dev",
        ]
    );
    assert!(c.env.is_none());
    assert!(c.dir.is_none());
}

#[test]
fn library_stage_skipped_when_directory_exists() {
    let cs = library_build_commands(true);
    assert!(cs.is_empty());
}

#[test]
fn library_stage_commands_in_order() {
    let cs = library_build_commands(false);
    assert_eq!(cs.len(), 6);
    assert_eq!(cs[0].program, "git");
    assert_eq!(
        args_of(&cs[0]),
        vec!["clone", "https://github.com/xiph/rnnoise.git"]
    );
    assert!(cs[0].dir.is_none());
    assert_eq!(cs[1].program, "./autogen.sh");
    assert!(cs[1].args.is_empty());
    assert_eq!(cs[1].dir.as_deref(), Some("rnnoise"));
    assert_eq!(cs[2].program, "./configure");
    assert_eq!(cs[2].dir.as_deref(), Some("rnnoise"));
    assert_eq!(cs[3].program, "make");
    assert_eq!(cs[3].dir.as_deref(), Some("rnnoise"));
    assert_eq!(cs[4].program, "sudo");
    assert_eq!(args_of(&cs[4]), vec!["make", "install"]);
    assert_eq!(cs[5].program, "sudo");
    assert_eq!(args_of(&cs[5]), vec!["ldconfig"]);
}

#[test]
fn toolkit_clone_skipped_when_directory_exists() {
    let cs = toolkit_clone_commands(true);
    assert!(cs.is_empty());
}

#[test]
fn toolkit_clone_command_exact() {
    let cs = toolkit_clone_commands(false);
    assert_eq!(cs.len(), 1);
    assert_eq!(cs[0].program, "git");
    assert_eq!(
        args_of(&cs[0]),
        vec!["clone", "https://git.ffmpeg.org/ffmpeg.git", "ffmpeg"]
    );
}

#[test]
fn toolkit_configure_has_complete_flag_set_and_env() {
    let cs = toolkit_build_commands(4);
    let configure = &cs[0];
    assert_eq!(configure.program, "./configure");
    assert_eq!(
        args_of(configure),
        vec![
            "--enable-gpl",
            "--enable-libx264",
            "--enable-libx265",
            "--enable-nonfree",
            "--enable-libfreetype",
            "--enable-libmp3lame",
            "--enable-libopus",
            "--enable-libvpx",
            "--enable-libvorbis",
            "--enable-libass",
            "--enable-libfdk-aac",
        ]
    );
    let (name, value) = configure.env.as_ref().expect("configure sets the search path");
    assert_eq!(name, "PKG_CONFIG_PATH");
    assert_eq!(value, "/usr/local/lib/pkgconfig");
    assert_eq!(configure.dir.as_deref(), Some("ffmpeg"));
}

#[test]
fn toolkit_build_parallelism_matches_cpu_count() {
    for cpus in [1u64, 2, 4, 12, 96] {
        let cs = toolkit_build_commands(cpus);
        assert_eq!(cs[1].program, "make");
        assert_eq!(args_of(&cs[1]), vec![format!("-j{}", cpus).as_str()]);
        assert_eq!(cs[1].dir.as_deref(), Some("ffmpeg"));
    }
}

#[test]
fn toolkit_install_is_elevated() {
    let cs = toolkit_build_commands(2);
    assert_eq!(cs.len(), 3);
    assert_eq!(cs[2].program, "sudo");
    assert_eq!(args_of(&cs[2]), vec!["make", "install"]);
    assert_eq!(cs[2].dir.as_deref(), Some("ffmpeg"));
}

#[test]
fn verification_commands_exact() {
    let cs = verification_commands();
    assert_eq!(cs.len(), 2);
    assert_eq!(cs[0].program, "ffmpeg");
    assert_eq!(args_of(&cs[0]), vec!["-version"]);
    assert_eq!(cs[1].program, "ffmpeg");
    assert_eq!(args_of(&cs[1]), vec!["-filters"]);
}

#[test]
fn full_plan_fresh_host_order() {
    let cs = full_plan(false, false, 8);
    let programs: Vec<&str> = cs.iter().map(|c| c.program.as_str()).collect();
    assert_eq!(
        programs,
        vec![
            "sudo",
            "git",
            "./autogen.sh",
            "./configure",
            "make",
            "sudo",
            "sudo",
            "git",
            "./configure",
            "make",
            "sudo",
            "ffmpeg",
            "ffmpeg",
        ]
    );
    assert_eq!(cs[1].args[1], "https://github.com/xiph/rnnoise.git");
    assert_eq!(cs[7].args[1], "https://git.ffmpeg.org/ffmpeg.git");
    assert_eq!(args_of(&cs[9]), vec!["-j8"]);
    assert_eq!(args_of(&cs[11]), vec!["-version"]);
    assert_eq!(args_of(&cs[12]), vec!["-filters"]);
}

#[test]
fn full_plan_skips_existing_directories() {
    let cs = full_plan(true, true, 8);
    assert_eq!(cs.len(), 6);
    let programs: Vec<&str> = cs.iter().map(|c| c.program.as_str()).collect();
    assert_eq!(
        programs,
        vec!["sudo", "./configure", "make", "sudo", "ffmpeg", "ffmpeg"]
    );
    for c in &cs {
        assert!(c.program != "git");
    }
}

#[test]
fn full_plan_library_present_toolkit_absent() {
    let cs = full_plan(true, false, 2);
    assert_eq!(cs.len(), 7);
    assert_eq!(cs[1].program, "git");
    assert_eq!(
        args_of(&cs[1]),
        vec!["clone", "https://git.ffmpeg.org/ffmpeg.git", "ffmpeg"]
    );
}
