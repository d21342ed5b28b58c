//! Dependency probing: reading the answers of the external tools (conda,
//! the mathvideo environment's Python, ffmpeg) and aggregating them into one
//! readiness report.
//!
//! Each probe is one external command; the shell runs it and hands in the
//! outcome as a plain value: `None` when the binary could not be invoked at
//! all, otherwise the exit flag and the captured stdout. A command that could
//! not be spawned and one that exited non-zero both count as "not available";
//! nothing here ever fails.

use vstd::prelude::*;
use crate::text::{
    first_line,
    spec_trim,
    first_line_str,
    trim_str,
    chars_of,
    chars_to_string,
    concat_strs,
    is_space,
    is_space_char,
    first_token,
    lemma_first_token_range,
};

verus! {

/// What running one external command produced: whether it exited with
/// success, and its captured stdout (decoded as text).
#[derive(Debug, Clone)]
pub struct CmdOutcome {
    pub exit_ok: bool,
    pub stdout: String,
}

/// The aggregated readiness report. Ephemeral: recomputed on every call.
#[derive(Debug, Clone, PartialEq)]
pub struct EnvStatus {
    pub conda_installed: bool,
    pub conda_version: Option<String>,
    pub mathvideo_env_exists: bool,
    pub python_version: Option<String>,
    pub ffmpeg_installed: bool,
    pub ffmpeg_version: Option<String>,
    pub all_ready: bool,
}

/// A probe found its tool when the command could be spawned and exited with
/// success.
pub open spec fn spec_present(outcome: Option<CmdOutcome>) -> bool {
    outcome matches Some(o) && o.exit_ok
}

/// Conda's presence and version: present iff `conda --version` ran and
/// succeeded; the version text is the trimmed first line of stdout whenever
/// the command ran at all (even when it exited non-zero).
pub fn check_conda(outcome: &Option<CmdOutcome>) -> (r: (bool, Option<String>))
    ensures
        r.0 == spec_present(*outcome),
        match *outcome {
            Some(o) => r.1 matches Some(v) && v@ == spec_trim(first_line(o.stdout@)),
            None => r.1 is None,
        },
{
    match outcome {
        Some(o) => (o.exit_ok, Some(trim_str(first_line_str(o.stdout.as_str()).as_str()))),
        None => (false, None),
    }
}

/// The named environment exists iff running Python inside it succeeded.
pub fn check_mathvideo_env(outcome: &Option<CmdOutcome>) -> (r: bool)
    ensures
        r == spec_present(*outcome),
{
    match outcome {
        Some(o) => o.exit_ok,
        None => false,
    }
}

/// The interpreter's version: the trimmed first line of a successful run's
/// stdout, `None` for a failed spawn or a non-zero exit.
pub fn check_python_version(outcome: &Option<CmdOutcome>) -> (r: Option<String>)
    ensures
        spec_present(*outcome) ==> (r matches Some(v) && v@ == spec_trim(
            first_line(outcome->Some_0.stdout@),
        )),
        !spec_present(*outcome) ==> r is None,
{
    match outcome {
        Some(o) => {
            if o.exit_ok {
                Some(trim_str(first_line_str(o.stdout.as_str()).as_str()))
            } else {
                None
            }
        },
        None => None,
    }
}

/// Ffmpeg's presence and version: present iff `ffmpeg -version` ran and
/// succeeded; the version text is the first line of stdout whenever the
/// command ran at all.
pub fn check_ffmpeg(outcome: &Option<CmdOutcome>) -> (r: (bool, Option<String>))
    ensures
        r.0 == spec_present(*outcome),
        match *outcome {
            Some(o) => r.1 matches Some(v) && v@ == first_line(o.stdout@),
            None => r.1 is None,
        },
{
    match outcome {
        Some(o) => (o.exit_ok, Some(first_line_str(o.stdout.as_str()))),
        None => (false, None),
    }
}

/// The probes the pipeline can ask the shell to run, in pipeline order.
#[derive(Debug, Clone, Copy, PartialEq, Eq, Structural)]
pub enum Probe {
    CondaVersion,
    MathvideoEnv,
    PythonVersion,
    FfmpegVersion,
}

/// Where the pipeline stands: which probe comes next, or done.
#[derive(Debug, Clone, Copy, PartialEq, Eq, Structural)]
pub enum Stage {
    AtConda,
    AtEnv,
    AtPython,
    AtFfmpeg,
    Done,
}

/// A command outcome as the specifications see it: `None` when the binary
/// could not be invoked, else the exit flag and the stdout text.
pub open spec fn outcome_view(o: Option<CmdOutcome>) -> Option<(bool, Seq<char>)> {
    match o {
        Some(c) => Some((c.exit_ok, c.stdout@)),
        None => None,
    }
}

/// Presence over the spec-level outcome.
pub open spec fn present_v(o: Option<(bool, Seq<char>)>) -> bool {
    o matches Some(p) && p.0
}

/// The pipeline state as the specifications see it.
#[verifier::ext_equal]
pub ghost struct EnvCheckV {
    pub stage: Stage,
    pub conda_installed: bool,
    pub conda_version: Option<Seq<char>>,
    pub mathvideo_env_exists: bool,
    pub python_version: Option<Seq<char>>,
    pub ffmpeg_installed: bool,
    pub ffmpeg_version: Option<Seq<char>>,
}

/// The readiness report as the specifications see it.
#[verifier::ext_equal]
pub ghost struct EnvStatusV {
    pub conda_installed: bool,
    pub conda_version: Option<Seq<char>>,
    pub mathvideo_env_exists: bool,
    pub python_version: Option<Seq<char>>,
    pub ffmpeg_installed: bool,
    pub ffmpeg_version: Option<Seq<char>>,
    pub all_ready: bool,
}

impl View for EnvStatus {
    type V = EnvStatusV;

    open spec fn view(&self) -> EnvStatusV {
        EnvStatusV {
            conda_installed: self.conda_installed,
            conda_version: self.conda_version.deep_view(),
            mathvideo_env_exists: self.mathvideo_env_exists,
            python_version: self.python_version.deep_view(),
            ffmpeg_installed: self.ffmpeg_installed,
            ffmpeg_version: self.ffmpeg_version.deep_view(),
            all_ready: self.all_ready,
        }
    }
}

/// The pipeline before any probe ran: nothing found, first probe pending.
pub open spec fn spec_init() -> EnvCheckV {
    EnvCheckV {
        stage: Stage::AtConda,
        conda_installed: false,
        conda_version: None,
        mathvideo_env_exists: false,
        python_version: None,
        ffmpeg_installed: false,
        ffmpeg_version: None,
    }
}

/// Which probe each stage asks for.
pub open spec fn spec_next_probe(stage: Stage) -> Option<Probe> {
    match stage {
        Stage::AtConda => Some(Probe::CondaVersion),
        Stage::AtEnv => Some(Probe::MathvideoEnv),
        Stage::AtPython => Some(Probe::PythonVersion),
        Stage::AtFfmpeg => Some(Probe::FfmpegVersion),
        Stage::Done => None,
    }
}

/// One pipeline step: fold the outcome of the pending probe into the state
/// and pick the next stage. A failed conda probe skips straight to the
/// ffmpeg probe; a missing named environment skips the interpreter probe.
pub open spec fn spec_record(pre: EnvCheckV, o: Option<(bool, Seq<char>)>) -> EnvCheckV {
    match pre.stage {
        Stage::AtConda => EnvCheckV {
            stage: if present_v(o) {
                Stage::AtEnv
            } else {
                Stage::AtFfmpeg
            },
            conda_installed: present_v(o),
            conda_version: match o {
                Some(p) => Some(spec_trim(first_line(p.1))),
                None => None,
            },
            ..pre
        },
        Stage::AtEnv => EnvCheckV {
            stage: if present_v(o) {
                Stage::AtPython
            } else {
                Stage::AtFfmpeg
            },
            mathvideo_env_exists: present_v(o),
            ..pre
        },
        Stage::AtPython => EnvCheckV {
            stage: Stage::AtFfmpeg,
            python_version: if present_v(o) {
                Some(spec_trim(first_line(o->Some_0.1)))
            } else {
                None
            },
            ..pre
        },
        Stage::AtFfmpeg => EnvCheckV {
            stage: Stage::Done,
            ffmpeg_installed: present_v(o),
            ffmpeg_version: match o {
                Some(p) => Some(first_line(p.1)),
                None => None,
            },
            ..pre
        },
        Stage::Done => pre,
    }
}

/// The report a finished pipeline gives: the collected findings, with
/// readiness exactly when all four checks succeeded.
pub open spec fn spec_report(m: EnvCheckV) -> EnvStatusV {
    EnvStatusV {
        conda_installed: m.conda_installed,
        conda_version: m.conda_version,
        mathvideo_env_exists: m.mathvideo_env_exists,
        python_version: m.python_version,
        ffmpeg_installed: m.ffmpeg_installed,
        ffmpeg_version: m.ffmpeg_version,
        all_ready: m.conda_installed && m.mathvideo_env_exists && m.python_version is Some
            && m.ffmpeg_installed,
    }
}

/// The ordered pipeline of dependency checks. The shell asks which probe is
/// pending, runs that one external command, and feeds the outcome back;
/// prerequisites that failed make the pipeline skip the checks that depend
/// on them, without running their commands.
#[derive(Debug, Clone)]
pub struct EnvCheck {
    pub stage: Stage,
    pub conda_installed: bool,
    pub conda_version: Option<String>,
    pub mathvideo_env_exists: bool,
    pub python_version: Option<String>,
    pub ffmpeg_installed: bool,
    pub ffmpeg_version: Option<String>,
}

impl View for EnvCheck {
    type V = EnvCheckV;

    open spec fn view(&self) -> EnvCheckV {
        EnvCheckV {
            stage: self.stage,
            conda_installed: self.conda_installed,
            conda_version: self.conda_version.deep_view(),
            mathvideo_env_exists: self.mathvideo_env_exists,
            python_version: self.python_version.deep_view(),
            ffmpeg_installed: self.ffmpeg_installed,
            ffmpeg_version: self.ffmpeg_version.deep_view(),
        }
    }
}

impl EnvCheck {
    /// A fresh pipeline, no probe run yet.
    pub fn new() -> (r: Self)
        ensures
            r@ == spec_init(),
    {
        EnvCheck {
            stage: Stage::AtConda,
            conda_installed: false,
            conda_version: None,
            mathvideo_env_exists: false,
            python_version: None,
            ffmpeg_installed: false,
            ffmpeg_version: None,
        }
    }

    /// The probe the shell should run next; `None` once the pipeline is done.
    pub fn next_probe(&self) -> (r: Option<Probe>)
        ensures
            r == spec_next_probe(self@.stage),
    {
        match self.stage {
            Stage::AtConda => Some(Probe::CondaVersion),
            Stage::AtEnv => Some(Probe::MathvideoEnv),
            Stage::AtPython => Some(Probe::PythonVersion),
            Stage::AtFfmpeg => Some(Probe::FfmpegVersion),
            Stage::Done => None,
        }
    }

    /// Fold the outcome of the pending probe into the pipeline state.
    pub fn record(&mut self, outcome: Option<CmdOutcome>)
        requires
            old(self)@.stage != Stage::Done,
        ensures
            final(self)@ == spec_record(old(self)@, outcome_view(outcome)),
    {
        match self.stage {
            Stage::AtConda => {
                let (ok, ver) = check_conda(&outcome);
                self.conda_installed = ok;
                self.conda_version = ver;
                self.stage = if ok {
                    Stage::AtEnv
                } else {
                    Stage::AtFfmpeg
                };
            },
            Stage::AtEnv => {
                let ok = check_mathvideo_env(&outcome);
                self.mathvideo_env_exists = ok;
                self.stage = if ok {
                    Stage::AtPython
                } else {
                    Stage::AtFfmpeg
                };
            },
            Stage::AtPython => {
                self.python_version = check_python_version(&outcome);
                self.stage = Stage::AtFfmpeg;
            },
            Stage::AtFfmpeg => {
                let (ok, ver) = check_ffmpeg(&outcome);
                self.ffmpeg_installed = ok;
                self.ffmpeg_version = ver;
                self.stage = Stage::Done;
            },
            Stage::Done => {
            },
        }
        proof {
            assert(self@ =~= spec_record(old(self)@, outcome_view(outcome)));
        }
    }

    /// The finished pipeline's report.
    pub fn finish(self) -> (r: EnvStatus)
        requires
            self@.stage == Stage::Done,
        ensures
            r@ == spec_report(self@),
    {
        let all_ready = self.conda_installed && self.mathvideo_env_exists
            && self.python_version.is_some() && self.ffmpeg_installed;
        EnvStatus {
            conda_installed: self.conda_installed,
            conda_version: self.conda_version,
            mathvideo_env_exists: self.mathvideo_env_exists,
            python_version: self.python_version,
            ffmpeg_installed: self.ffmpeg_installed,
            ffmpeg_version: self.ffmpeg_version,
            all_ready,
        }
    }
}

/// The fixed command line each probe runs: `conda --version` for conda's
/// presence, Python's version inside the named environment for both the
/// environment's existence and the interpreter version, `ffmpeg -version`
/// for the media tool.
pub fn probe_command(p: Probe) -> (r: (String, Vec<String>))
    ensures
        p == Probe::CondaVersion ==> r.0@ == "conda"@ && r.1.deep_view() == seq!["--version"@],
        p == Probe::MathvideoEnv || p == Probe::PythonVersion ==> r.0@ == "conda"@
            && r.1.deep_view() == seq![
            "run"@,
            "-n"@,
            "mathvideo"@,
            "--no-banner"@,
            "python"@,
            "--version"@,
        ],
        p == Probe::FfmpegVersion ==> r.0@ == "ffmpeg"@ && r.1.deep_view() == seq!["-version"@],
{
    match p {
        Probe::CondaVersion => {
            let mut args: Vec<String> = Vec::new();
            args.push("--version".to_owned());
            proof {
                assert(args.deep_view() =~~= seq!["--version"@]);
            }
            ("conda".to_owned(), args)
        },
        Probe::MathvideoEnv | Probe::PythonVersion => {
            let mut args: Vec<String> = Vec::new();
            args.push("run".to_owned());
            args.push("-n".to_owned());
            args.push("mathvideo".to_owned());
            args.push("--no-banner".to_owned());
            args.push("python".to_owned());
            args.push("--version".to_owned());
            proof {
                assert(args.deep_view() =~~= seq![
                    "run"@,
                    "-n"@,
                    "mathvideo"@,
                    "--no-banner"@,
                    "python"@,
                    "--version"@,
                ]);
            }
            ("conda".to_owned(), args)
        },
        Probe::FfmpegVersion => {
            let mut args: Vec<String> = Vec::new();
            args.push("-version".to_owned());
            proof {
                assert(args.deep_view() =~~= seq!["-version"@]);
            }
            ("ffmpeg".to_owned(), args)
        },
    }
}

/// The fixed command line that lists the conda environments.
pub fn list_envs_command() -> (r: (String, Vec<String>))
    ensures
        r.0@ == "conda"@,
        r.1.deep_view() == seq!["info"@, "--envs"@],
{
    let mut args: Vec<String> = Vec::new();
    args.push("info".to_owned());
    args.push("--envs".to_owned());
    proof {
        assert(args.deep_view() =~~= seq!["info"@, "--envs"@]);
    }
    ("conda".to_owned(), args)
}

/// The report is ready exactly when all four findings are positive: conda
/// present, the named environment present, an interpreter version resolved,
/// and ffmpeg present.
pub proof fn lemma_all_ready_iff(m: EnvCheckV)
    ensures
        spec_report(m).all_ready == (m.conda_installed && m.mathvideo_env_exists
            && m.python_version is Some && m.ffmpeg_installed),
{
}

/// When the conda probe fails (no spawn or non-zero exit), the pipeline asks
/// for no named-environment probe and no interpreter probe: it steps straight
/// to the ffmpeg probe, finishes after it, and reports the named environment
/// absent and the interpreter version unknown.
pub proof fn lemma_conda_absent_short_circuit(
    conda: Option<(bool, Seq<char>)>,
    ffmpeg: Option<(bool, Seq<char>)>,
)
    requires
        !present_v(conda),
    ensures
        ({
            let m1 = spec_record(spec_init(), conda);
            let m2 = spec_record(m1, ffmpeg);
            &&& spec_next_probe(m1.stage) != Some(Probe::MathvideoEnv)
            &&& spec_next_probe(m1.stage) != Some(Probe::PythonVersion)
            &&& m2.stage == Stage::Done
            &&& spec_report(m2).mathvideo_env_exists == false
            &&& spec_report(m2).python_version is None
            &&& spec_report(m2).all_ready == false
        }),
{
}

/// A comment line in conda's environment listing: a leading marker char.
pub open spec fn is_comment(l: Seq<char>) -> bool {
    l.len() > 0 && l[0] == '#'
}

/// A line with nothing but whitespace on it.
pub open spec fn is_blank(l: Seq<char>) -> bool {
    forall|k: int| 0 <= k < l.len() ==> is_space(l[k])
}

/// The listing's lines that name an environment: neither comments nor blank.
pub open spec fn keeps_line(l: Seq<char>) -> bool {
    !is_comment(l) && !is_blank(l)
}

/// The input split at newlines. Always at least one (possibly empty) line.
pub open spec fn split_lines(s: Seq<char>) -> Seq<Seq<char>>
    decreases s.len(),
{
    if s.len() == 0 {
        seq![s]
    } else if s[0] == '\n' {
        seq![Seq::<char>::empty()] + split_lines(s.drop_first())
    } else {
        let rest = split_lines(s.drop_first());
        seq![seq![s[0]] + rest[0]] + rest.drop_first()
    }
}

/// The first token of each kept line, in order.
pub open spec fn names_of_lines(lines: Seq<Seq<char>>) -> Seq<Seq<char>>
    decreases lines.len(),
{
    if lines.len() == 0 {
        Seq::empty()
    } else if keeps_line(lines[0]) {
        seq![first_token(lines[0])] + names_of_lines(lines.drop_first())
    } else {
        names_of_lines(lines.drop_first())
    }
}

/// The environment names that conda's listing text carries.
pub open spec fn env_names(s: Seq<char>) -> Seq<Seq<char>> {
    names_of_lines(split_lines(s))
}

proof fn lemma_split_lines_len(s: Seq<char>)
    ensures
        split_lines(s).len() >= 1,
    decreases s.len(),
{
    if s.len() > 0 {
        lemma_split_lines_len(s.drop_first());
    }
}

/// A newline-free input is one single line.
proof fn lemma_split_lines_no_newline(s: Seq<char>)
    requires
        forall|k: int| 0 <= k < s.len() ==> s[k] != '\n',
    ensures
        split_lines(s) == seq![s],
    decreases s.len(),
{
    if s.len() == 0 {
    } else {
        assert(s.drop_first() =~= s.skip(1));
        lemma_split_lines_no_newline(s.skip(1));
        let rest = split_lines(s.skip(1));
        assert(rest[0] == s.skip(1));
        assert(seq![s[0]] + s.skip(1) =~= s);
        assert(rest.drop_first() =~= Seq::<Seq<char>>::empty());
        assert(split_lines(s) =~= seq![s]);
    }
}

/// The first newline stands at `i`: the lines are `s[..i]` and then the
/// lines of what follows it.
proof fn lemma_split_lines_at(s: Seq<char>, i: int)
    requires
        0 <= i < s.len(),
        s[i] == '\n',
        forall|k: int| 0 <= k < i ==> s[k] != '\n',
    ensures
        split_lines(s) == seq![s.take(i)] + split_lines(s.skip(i + 1)),
    decreases i,
{
    if i == 0 {
        assert(s.take(0) =~= Seq::<char>::empty());
        assert(s.drop_first() =~= s.skip(1));
        assert(split_lines(s) =~= seq![s.take(0)] + split_lines(s.skip(1)));
    } else {
        assert(s.drop_first() =~= s.skip(1));
        assert(s.skip(1)[i - 1] == s[i]);
        assert forall|k: int| 0 <= k < i - 1 implies s.skip(1)[k] != '\n' by {
            assert(s.skip(1)[k] == s[k + 1]);
        }
        lemma_split_lines_at(s.skip(1), i - 1);
        let rest = split_lines(s.skip(1));
        lemma_split_lines_len(s.skip(1).skip(i));
        assert(rest[0] == s.skip(1).take(i - 1));
        assert(seq![s[0]] + s.skip(1).take(i - 1) =~= s.take(i));
        assert(rest.drop_first() =~= split_lines(s.skip(1).skip(i)));
        assert(s.skip(1).skip(i) =~= s.skip(i + 1));
        assert(split_lines(s) =~= seq![s.take(i)] + split_lines(s.skip(i + 1)));
    }
}

/// One line folded off the front of the name extraction.
proof fn lemma_names_cons(l: Seq<char>, rest: Seq<Seq<char>>)
    ensures
        names_of_lines(seq![l] + rest) == (if keeps_line(l) {
            seq![first_token(l)]
        } else {
            Seq::<Seq<char>>::empty()
        }) + names_of_lines(rest),
{
    let ls = seq![l] + rest;
    assert(ls[0] == l);
    assert(ls.drop_first() =~= rest);
    if keeps_line(l) {
        assert(names_of_lines(ls) == seq![first_token(l)] + names_of_lines(rest));
    } else {
        assert(names_of_lines(ls) =~= Seq::<Seq<char>>::empty() + names_of_lines(rest));
    }
}

/// The names in the listing text, extracted line by line: a line is kept
/// unless it starts with the comment marker or holds only whitespace, and a
/// kept line contributes its first whitespace-delimited token.
pub fn parse_env_list(s: &str) -> (r: Vec<String>)
    ensures
        r.deep_view() == env_names(s@),
{
    let v = chars_of(s);
    let n = v.len();
    let mut r: Vec<String> = Vec::new();
    let mut pos: usize = 0;
    proof {
        assert(s@.skip(0) =~= s@);
        assert(r.deep_view() =~~= Seq::<Seq<char>>::empty());
        assert(Seq::<Seq<char>>::empty() + env_names(s@) =~~= env_names(s@));
    }
    loop
        invariant_except_break
            pos <= n,
            n == v.len(),
            v@ == s@,
            env_names(s@) == r.deep_view() + names_of_lines(split_lines(s@.skip(pos as int))),
        ensures
            env_names(s@) == r.deep_view(),
        decreases n - pos,
    {
        let mut end: usize = pos;
        while end < n && v[end] != '\n'
            invariant
                pos <= end <= n,
                n == v.len(),
                v@ == s@,
                forall|k: int| pos <= k < end ==> s@[k] != '\n',
            decreases n - end,
        {
            end = end + 1;
        }
        let ghost line = s@.subrange(pos as int, end as int);
        let ghost tail = s@.skip(end as int + 1);
        proof {
            let t = s@.skip(pos as int);
            assert forall|k: int| 0 <= k < end - pos implies t[k] != '\n' by {
                assert(t[k] == s@[k + pos]);
            }
            if end < n {
                assert(t[end - pos] == s@[end as int]);
                lemma_split_lines_at(t, end - pos);
                assert(t.take(end - pos) =~= line);
                assert(t.skip(end - pos + 1) =~= tail);
                assert(split_lines(t) == seq![line] + split_lines(tail));
                lemma_names_cons(line, split_lines(tail));
            } else {
                lemma_split_lines_no_newline(t);
                assert(t =~= line);
                assert(split_lines(t) == seq![line]);
                lemma_names_cons(line, Seq::<Seq<char>>::empty());
                assert(seq![line] + Seq::<Seq<char>>::empty() =~= seq![line]);
            }
        }
        if end > pos && v[pos] == '#' {
            proof {
                assert(line[0] == s@[pos as int]);
                assert(is_comment(line));
            }
        } else {
            let mut ts: usize = pos;
            while ts < end && is_space_char(v[ts])
                invariant
                    pos <= ts <= end <= n,
                    n == v.len(),
                    v@ == s@,
                    forall|k: int| pos <= k < ts ==> is_space(s@[k]),
                decreases end - ts,
            {
                ts = ts + 1;
            }
            if ts == end {
                proof {
                    assert forall|k: int| 0 <= k < line.len() implies is_space(line[k]) by {
                        assert(line[k] == s@[k + pos]);
                    }
                    assert(is_blank(line));
                }
            } else {
                let mut te: usize = ts;
                while te < end && !is_space_char(v[te])
                    invariant
                        ts <= te <= end <= n,
                        n == v.len(),
                        v@ == s@,
                        forall|k: int| ts <= k < te ==> !is_space(s@[k]),
                    decreases end - te,
                {
                    te = te + 1;
                }
                let mut tok: Vec<char> = Vec::new();
                let mut i: usize = ts;
                while i < te
                    invariant
                        ts <= i <= te <= n,
                        n == v.len(),
                        v@ == s@,
                        tok@ == s@.subrange(ts as int, i as int),
                    decreases te - i,
                {
                    tok.push(v[i]);
                    i = i + 1;
                    proof {
                        assert(tok@ =~= s@.subrange(ts as int, i as int));
                    }
                }
                let name = chars_to_string(&tok);
                proof {
                    assert(line[ts - pos] == s@[ts as int]);
                    assert(!is_blank(line));
                    if line.len() > 0 && line[0] == '#' {
                        assert(s@[pos as int] == '#');
                        assert(false);
                    }
                    assert(keeps_line(line));
                    assert forall|k: int| 0 <= k < ts - pos implies is_space(line[k]) by {
                        assert(line[k] == s@[k + pos]);
                    }
                    assert forall|k: int| ts - pos <= k < te - pos implies !is_space(line[k]) by {
                        assert(line[k] == s@[k + pos]);
                    }
                    if te - pos < line.len() {
                        assert(line[te - pos] == s@[te as int]);
                        assert(is_space(line[te - pos]));
                    }
                    lemma_first_token_range(line, ts - pos, te - pos);
                    assert(line.subrange(ts - pos, te - pos) =~= s@.subrange(
                        ts as int,
                        te as int,
                    ));
                    assert(first_token(line) == name@);
                }
                let ghost r_old = r.deep_view();
                r.push(name);
                proof {
                    assert(r.deep_view() =~~= r_old + seq![first_token(line)]);
                }
            }
        }
        proof {
            if end < n {
                assert(env_names(s@) =~~= r.deep_view() + names_of_lines(split_lines(tail)));
            } else {
                assert(names_of_lines(Seq::<Seq<char>>::empty()) =~~= Seq::<Seq<char>>::empty());
                assert(env_names(s@) =~~= r.deep_view());
            }
        }
        if end == n {
            break ;
        }
        pos = end + 1;
    }
    r
}

/// The environment-listing operation over the outcome of `conda info --envs`:
/// `invocation` carries the decoded stdout, or the OS error text when conda
/// could not be invoked at all. Malformed output is not an error: it simply
/// yields the names that the lines carry, possibly none.
pub fn get_conda_envs(invocation: Result<String, String>) -> (r: Result<Vec<String>, String>)
    ensures
        match invocation {
            Ok(out) => r matches Ok(names) && names.deep_view() == env_names(out@),
            Err(e) => r matches Err(m) && m@ == "cannot run conda: "@ + e@,
        },
{
    match invocation {
        Ok(out) => Ok(parse_env_list(out.as_str())),
        Err(e) => Err(concat_strs("cannot run conda: ", e.as_str())),
    }
}

} // verus!
