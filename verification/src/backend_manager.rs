//! Backend process lifecycle: the status values the shell reports and the
//! fixed command lines it runs.
//!
//! The backend listens on a fixed port; no process handle is kept between
//! calls. Stopping and status-checking rediscover the target by port and by
//! HTTP probe, so each function here is a pure map from the probe's outcome
//! to the status the caller sees.

use vstd::prelude::*;
use crate::text::{chars_of, chars_to_string, concat_strs, is_sep, is_sep_char};

verus! {

/// The TCP port the backend always listens on.
pub const BACKEND_PORT: u16 = 8000;

/// Seconds the health probe waits before reporting the backend down.
pub const HEALTH_TIMEOUT_SECS: u64 = 2;

/// The fixed health endpoint the status probe queries.
pub fn health_url() -> (r: String)
    ensures
        r@ == "http://localhost:8000/health"@,
{
    "http://localhost:8000/health".to_owned()
}

/// Snapshot of the backend process. Not persisted; rebuilt on every query.
/// The pid is known only right after a successful start: a health probe
/// cannot recover the pid of an already-running process.
#[derive(Debug, Clone, PartialEq)]
pub struct BackendStatus {
    pub running: bool,
    pub pid: Option<u32>,
    pub port: u16,
}

/// A 2xx response code signals a healthy backend.
pub open spec fn is_success_code(code: u16) -> bool {
    200 <= code < 300
}

/// Status reported after a best-effort kill of whatever owns the port.
/// Always the same value: errors of the kill command are swallowed, so the
/// report does not depend on whether anything was actually killed.
pub fn stop_backend() -> (r: BackendStatus)
    ensures
        r.running == false,
        r.pid is None,
        r.port == BACKEND_PORT,
{
    BackendStatus { running: false, pid: None, port: BACKEND_PORT }
}

/// Status derived from the health probe: `health_response` is the HTTP
/// response code of a GET to the health endpoint, or `None` when the request
/// failed or timed out. Running exactly when the probe got a 2xx answer;
/// never an error.
pub fn get_backend_status(health_response: Option<u16>) -> (r: BackendStatus)
    ensures
        r.running == (health_response matches Some(code) && is_success_code(code)),
        r.pid is None,
        r.port == BACKEND_PORT,
{
    let running = match health_response {
        Some(code) => 200 <= code && code < 300,
        None => false,
    };
    BackendStatus { running, pid: None, port: BACKEND_PORT }
}

/// The start operation over the spawn outcome: `spawn` carries the new
/// child's pid, or the OS error text when the process could not be created.
/// A successful spawn is running on the fixed port under that pid; a failed
/// one surfaces the error, never a success status. Each call spawns afresh:
/// nothing deduplicates two starts in a row, by design.
pub fn start_backend(spawn: Result<u32, String>) -> (r: Result<BackendStatus, String>)
    ensures
        match spawn {
            Ok(pid) => r matches Ok(st) && st.running && st.pid == Some(pid) && st.port
                == BACKEND_PORT,
            Err(e) => r matches Err(m) && m@ == "failed to start backend: "@ + e@,
        },
{
    match spawn {
        Ok(pid) => Ok(BackendStatus { running: true, pid: Some(pid), port: BACKEND_PORT }),
        Err(e) => Err(concat_strs("failed to start backend: ", e.as_str())),
    }
}

/// The fixed command line that launches the backend: conda runs the server
/// module inside the named environment, unbuffered, on all interfaces at the
/// fixed port.
pub fn start_command() -> (r: (String, Vec<String>))
    ensures
        r.0@ == "conda"@,
        r.1.deep_view() == seq![
            "run"@,
            "-n"@,
            "mathvideo"@,
            "--no-banner"@,
            "python"@,
            "-u"@,
            "-m"@,
            "uvicorn"@,
            "backend.main:app"@,
            "--host"@,
            "0.0.0.0"@,
            "--port"@,
            "8000"@,
        ],
{
    let mut args: Vec<String> = Vec::new();
    args.push("run".to_owned());
    args.push("-n".to_owned());
    args.push("mathvideo".to_owned());
    args.push("--no-banner".to_owned());
    args.push("python".to_owned());
    args.push("-u".to_owned());
    args.push("-m".to_owned());
    args.push("uvicorn".to_owned());
    args.push("backend.main:app".to_owned());
    args.push("--host".to_owned());
    args.push("0.0.0.0".to_owned());
    args.push("--port".to_owned());
    args.push("8000".to_owned());
    proof {
        assert(args.deep_view() =~~= seq![
            "run"@,
            "-n"@,
            "mathvideo"@,
            "--no-banner"@,
            "python"@,
            "-u"@,
            "-m"@,
            "uvicorn"@,
            "backend.main:app"@,
            "--host"@,
            "0.0.0.0"@,
            "--port"@,
            "8000"@,
        ]);
    }
    ("conda".to_owned(), args)
}

/// The two platform families whose port-kill commands differ. Behind
/// `stop_backend`'s contract the two are interchangeable.
#[derive(Debug, Clone, Copy, PartialEq, Eq, Structural)]
pub enum Platform {
    Windows,
    Posix,
}

/// The best-effort command that force-kills whatever processes own the
/// backend port: on Windows a PowerShell pipeline over the TCP table,
/// elsewhere a shell pipeline over lsof.
pub fn kill_command(platform: Platform) -> (r: (String, Vec<String>))
    ensures
        platform == Platform::Windows ==> r.0@ == "powershell"@ && r.1.deep_view() == seq![
            "-Command"@,
            "Get-NetTCPConnection -LocalPort 8000 -ErrorAction SilentlyContinue | ForEach-Object { Stop-Process -Id $_.OwningProcess -Force -ErrorAction SilentlyContinue }"@,
        ],
        platform == Platform::Posix ==> r.0@ == "sh"@ && r.1.deep_view() == seq![
            "-c"@,
            "lsof -ti:8000 | xargs kill -9 2>/dev/null"@,
        ],
{
    match platform {
        Platform::Windows => {
            let mut args: Vec<String> = Vec::new();
            args.push("-Command".to_owned());
            args.push(
                "Get-NetTCPConnection -LocalPort 8000 -ErrorAction SilentlyContinue | ForEach-Object { Stop-Process -Id $_.OwningProcess -Force -ErrorAction SilentlyContinue }".to_owned(),
            );
            proof {
                assert(args.deep_view() =~~= seq![
                    "-Command"@,
                    "Get-NetTCPConnection -LocalPort 8000 -ErrorAction SilentlyContinue | ForEach-Object { Stop-Process -Id $_.OwningProcess -Force -ErrorAction SilentlyContinue }"@,
                ]);
            }
            ("powershell".to_owned(), args)
        },
        Platform::Posix => {
            let mut args: Vec<String> = Vec::new();
            args.push("-c".to_owned());
            args.push("lsof -ti:8000 | xargs kill -9 2>/dev/null".to_owned());
            proof {
                assert(args.deep_view() =~~= seq![
                    "-c"@,
                    "lsof -ti:8000 | xargs kill -9 2>/dev/null"@,
                ]);
            }
            ("sh".to_owned(), args)
        },
    }
}

/// The current directory's last path component is `frontend`: either the
/// whole path is that one component, or the component follows a separator.
pub open spec fn ends_with_frontend(s: Seq<char>) -> bool {
    s == "frontend"@ || (s.len() >= 9 && is_sep(s[s.len() - 9]) && s.subrange(
        s.len() - 8,
        s.len() as int,
    ) == "frontend"@)
}

/// The development-mode working directory rule, over a separator-delimited
/// path that does not end in a separator (as a current-directory path is
/// given): when the directory's last component is `frontend`, the backend
/// runs from its parent, as `spec_parent_dir` gives it (a lone leading
/// separator stays); otherwise from the directory itself.
pub open spec fn spec_project_root(s: Seq<char>) -> Seq<char> {
    if ends_with_frontend(s) {
        spec_parent_dir(s)
    } else {
        s
    }
}

/// The chars `a[from..from + b.len()]` equal `b`.
fn range_eq_chars(a: &Vec<char>, from: usize, b: &Vec<char>) -> (r: bool)
    requires
        from + b@.len() <= a@.len(),
    ensures
        r == (a@.subrange(from as int, from + b@.len()) == b@),
{
    let m = b.len();
    let mut i: usize = 0;
    while i < m
        invariant
            i <= m,
            m == b.len(),
            from + m <= a.len(),
            forall|k: int| 0 <= k < i ==> a@[from + k] == b@[k],
        decreases m - i,
    {
        if a[from + i] != b[i] {
            proof {
                assert(a@.subrange(from as int, from + b@.len())[i as int] != b@[i as int]);
            }
            return false;
        }
        i = i + 1;
    }
    proof {
        assert(a@.subrange(from as int, from + b@.len()) =~= b@);
    }
    true
}

/// The release-mode working directory rule, over a plain separator-delimited
/// path: everything before the last separator — the separator itself kept
/// when it leads the path — and the empty sequence when there is none.
pub open spec fn spec_parent_dir(s: Seq<char>) -> Seq<char>
    decreases s.len(),
{
    if s.len() == 0 {
        s
    } else if is_sep(s[s.len() - 1]) {
        if s.len() == 1 {
            s
        } else {
            s.drop_last()
        }
    } else {
        spec_parent_dir(s.drop_last())
    }
}

/// Dropping a separator-free suffix does not change the directory part.
proof fn lemma_parent_dir_scan(s: Seq<char>, k: int)
    requires
        0 <= k <= s.len(),
        forall|j: int| k <= j < s.len() ==> !is_sep(s[j]),
    ensures
        spec_parent_dir(s) == spec_parent_dir(s.take(k)),
    decreases s.len() - k,
{
    if k < s.len() {
        assert(s.drop_last() =~= s.take(s.len() - 1));
        lemma_parent_dir_scan(s.take(s.len() - 1), k);
        assert(s.take(s.len() - 1).take(k) =~= s.take(k));
    } else {
        assert(s.take(s.len() as int) =~= s);
    }
}

/// The directory part of a file path, as `spec_parent_dir` gives it: the
/// release-mode rule puts the backend's working directory at the directory
/// that holds the running executable.
pub fn parent_dir(path: &str) -> (r: String)
    ensures
        r@ == spec_parent_dir(path@),
{
    let v = chars_of(path);
    let n = v.len();
    let mut k: usize = n;
    while k > 0 && !is_sep_char(v[k - 1])
        invariant
            k <= n,
            n == v.len(),
            v@ == path@,
            forall|j: int| k <= j < n ==> !is_sep(path@[j]),
        decreases k,
    {
        k = k - 1;
    }
    proof {
        lemma_parent_dir_scan(path@, k as int);
        if k == 0 {
            assert(path@.take(0) =~= Seq::<char>::empty());
        } else if k == 1 {
            assert(path@.take(1)[0] == path@[0]);
        } else {
            assert(path@.take(k as int).drop_last() =~= path@.take(k - 1));
        }
    }
    if k == 0 {
        String::new()
    } else {
        let stop: usize = if k == 1 {
            1
        } else {
            k - 1
        };
        let mut head: Vec<char> = Vec::new();
        let mut i: usize = 0;
        while i < stop
            invariant
                i <= stop <= n,
                n == v.len(),
                v@ == path@,
                head@ == path@.take(i as int),
            decreases stop - i,
        {
            head.push(v[i]);
            i = i + 1;
            proof {
                assert(head@ =~= path@.take(i as int));
            }
        }
        chars_to_string(&head)
    }
}

/// The directory the spawned backend runs from in development mode, as
/// `spec_project_root` gives it.
pub fn project_root_from_cwd(cwd: &str) -> (r: String)
    ensures
        r@ == spec_project_root(cwd@),
{
    let v = chars_of(cwd);
    let pat = chars_of("frontend");
    proof {
        reveal_strlit("frontend");
    }
    let n = v.len();
    if n == 8 && range_eq_chars(&v, 0, &pat) {
        proof {
            assert(v@.subrange(0, 8) =~= v@);
            assert(cwd@ == "frontend"@);
        }
        parent_dir(cwd)
    } else if n >= 9 && is_sep_char(v[n - 9]) && range_eq_chars(&v, n - 8, &pat) {
        parent_dir(cwd)
    } else {
        proof {
            if cwd@ == "frontend"@ {
                assert(v@.subrange(0, 8) =~= v@);
            }
        }
        cwd.to_owned()
    }
}

} // verus!
