use mathvideo_shell::env_checker::{
    check_conda, check_ffmpeg, check_mathvideo_env, check_python_version, get_conda_envs,
    list_envs_command, parse_env_list, probe_command, CmdOutcome, EnvCheck, Probe,
};

fn ran(exit_ok: bool, stdout: &str) -> Option<CmdOutcome> {
    Some(CmdOutcome { exit_ok, stdout: String::from(stdout) })
}

#[test]
fn conda_envs_sample_listing() {
    let sample = "# conda environments:\n#\nbase                  /opt/conda\nmathvideo          *  /opt/conda/envs/mathvideo\n";
    let names = get_conda_envs(Ok(String::from(sample))).unwrap();
    assert_eq!(names, vec!["base", "mathvideo"]);
}

#[test]
fn conda_envs_filters_and_tokenizes() {
    // Blank lines, whitespace-only lines, comments, indentation, CRLF.
    let text = "\n   \n# comment\nalpha one two\n  beta\t/somewhere\r\ngamma\n";
    assert_eq!(parse_env_list(text), vec!["alpha", "beta", "gamma"]);
    assert_eq!(parse_env_list(""), Vec::<String>::new());
    assert_eq!(parse_env_list("# only a comment"), Vec::<String>::new());
    // A '#' after indentation is not a comment marker.
    assert_eq!(parse_env_list("  #indented"), vec!["#indented"]);
}

#[test]
fn conda_envs_spawn_failure_is_an_error() {
    let r = get_conda_envs(Err(String::from("permission denied (os error 13)")));
    assert_eq!(
        r,
        Err(String::from("cannot run conda: permission denied (os error 13)"))
    );
}

#[test]
fn check_conda_trims_version_even_on_failure() {
    let (ok, ver) = check_conda(&ran(true, "conda 24.1.2\n"));
    assert!(ok);
    assert_eq!(ver.as_deref(), Some("conda 24.1.2"));
    // Only the first line is the version text.
    let (_, ver) = check_conda(&ran(true, "conda 24.1.2\nwith a second line\n"));
    assert_eq!(ver.as_deref(), Some("conda 24.1.2"));
    // The command ran but exited non-zero: not installed, text still kept.
    let (ok, ver) = check_conda(&ran(false, " oops \n"));
    assert!(!ok);
    assert_eq!(ver.as_deref(), Some("oops"));
    // The binary could not be invoked at all.
    let (ok, ver) = check_conda(&None);
    assert!(!ok);
    assert_eq!(ver, None);
}

#[test]
fn check_env_and_python() {
    assert!(check_mathvideo_env(&ran(true, "")));
    assert!(!check_mathvideo_env(&ran(false, "")));
    assert!(!check_mathvideo_env(&None));

    assert_eq!(
        check_python_version(&ran(true, "Python 3.11.8\n")).as_deref(),
        Some("Python 3.11.8")
    );
    assert_eq!(
        check_python_version(&ran(true, "Python 3.11.8\r\ntrailing banner\n")).as_deref(),
        Some("Python 3.11.8")
    );
    assert_eq!(check_python_version(&ran(false, "Python 3.11.8\n")), None);
    assert_eq!(check_python_version(&None), None);
}

#[test]
fn check_ffmpeg_takes_first_line() {
    let out = "ffmpeg version 6.1.1 Copyright (c) 2000-2023\nbuilt with gcc 13\n";
    let (ok, ver) = check_ffmpeg(&ran(true, out));
    assert!(ok);
    assert_eq!(ver.as_deref(), Some("ffmpeg version 6.1.1 Copyright (c) 2000-2023"));
    let (ok, ver) = check_ffmpeg(&None);
    assert!(!ok);
    assert_eq!(ver, None);
    // Ran but printed nothing: the first line is the empty string.
    let (_, ver) = check_ffmpeg(&ran(true, ""));
    assert_eq!(ver.as_deref(), Some(""));
}

#[test]
fn pipeline_all_ready_when_every_check_passes() {
    let mut c = EnvCheck::new();
    assert_eq!(c.next_probe(), Some(Probe::CondaVersion));
    c.record(ran(true, "conda 24.1.2\n"));
    assert_eq!(c.next_probe(), Some(Probe::MathvideoEnv));
    c.record(ran(true, "Python 3.11.8\n"));
    assert_eq!(c.next_probe(), Some(Probe::PythonVersion));
    c.record(ran(true, "Python 3.11.8\n"));
    assert_eq!(c.next_probe(), Some(Probe::FfmpegVersion));
    c.record(ran(true, "ffmpeg version 6.1.1\nbuilt with gcc 13\n"));
    assert_eq!(c.next_probe(), None);
    let st = c.finish();
    assert!(st.conda_installed);
    assert_eq!(st.conda_version.as_deref(), Some("conda 24.1.2"));
    assert!(st.mathvideo_env_exists);
    assert_eq!(st.python_version.as_deref(), Some("Python 3.11.8"));
    assert!(st.ffmpeg_installed);
    assert_eq!(st.ffmpeg_version.as_deref(), Some("ffmpeg version 6.1.1"));
    assert!(st.all_ready);
}

#[test]
fn pipeline_skips_env_and_python_when_conda_is_absent() {
    let mut c = EnvCheck::new();
    assert_eq!(c.next_probe(), Some(Probe::CondaVersion));
    c.record(None);
    // Straight to ffmpeg: no environment probe, no interpreter probe.
    assert_eq!(c.next_probe(), Some(Probe::FfmpegVersion));
    c.record(ran(true, "ffmpeg version 6.1.1\n"));
    assert_eq!(c.next_probe(), None);
    let st = c.finish();
    assert!(!st.conda_installed);
    assert_eq!(st.conda_version, None);
    assert!(!st.mathvideo_env_exists);
    assert_eq!(st.python_version, None);
    assert!(st.ffmpeg_installed);
    assert!(!st.all_ready);
}

#[test]
fn pipeline_skips_python_when_env_is_missing() {
    let mut c = EnvCheck::new();
    c.record(ran(true, "conda 24.1.2\n"));
    assert_eq!(c.next_probe(), Some(Probe::MathvideoEnv));
    c.record(ran(false, ""));
    assert_eq!(c.next_probe(), Some(Probe::FfmpegVersion));
    c.record(ran(true, "ffmpeg version 6.1.1\n"));
    let st = c.finish();
    assert!(st.conda_installed);
    assert!(!st.mathvideo_env_exists);
    assert_eq!(st.python_version, None);
    assert!(!st.all_ready);
}

#[test]
fn pipeline_not_ready_without_ffmpeg() {
    let mut c = EnvCheck::new();
    c.record(ran(true, "conda 24.1.2\n"));
    c.record(ran(true, ""));
    c.record(ran(true, "Python 3.11.8\n"));
    c.record(None);
    let st = c.finish();
    assert!(st.conda_installed && st.mathvideo_env_exists);
    assert_eq!(st.python_version.as_deref(), Some("Python 3.11.8"));
    assert!(!st.ffmpeg_installed);
    assert_eq!(st.ffmpeg_version, None);
    assert!(!st.all_ready);
}

#[test]
fn probe_command_lines_are_fixed() {
    let (prog, args) = probe_command(Probe::CondaVersion);
    assert_eq!(prog, "conda");
    assert_eq!(args, vec!["--version"]);

    let env_cmd = probe_command(Probe::MathvideoEnv);
    let py_cmd = probe_command(Probe::PythonVersion);
    for (prog, args) in [&env_cmd, &py_cmd] {
        assert_eq!(prog, "conda");
        assert_eq!(
            args,
            &vec!["run", "-n", "mathvideo", "--no-banner", "python", "--version"]
        );
    }

    let (prog, args) = probe_command(Probe::FfmpegVersion);
    assert_eq!(prog, "ffmpeg");
    assert_eq!(args, vec!["-version"]);

    let (prog, args) = list_envs_command();
    assert_eq!(prog, "conda");
    assert_eq!(args, vec!["info", "--envs"]);
}
