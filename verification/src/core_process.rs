//! Supervision of the proxy-core process: what happens when it exits,
//! with bounded restarts and exponential backoff.

use vstd::prelude::*;
use crate::backend::CoreType;
use crate::text::dec_digits;

verus! {

/// At most this many restarts follow one successful start.
pub const MAX_RESTART_ATTEMPTS: u32 = 5;

/// The wait before the first restart, in milliseconds.
pub const BASE_BACKOFF_MS: u64 = 1000;

/// `2^n`.
pub open spec fn pow2(n: nat) -> nat
    decreases n,
{
    if n == 0 { 1 } else { 2 * pow2((n - 1) as nat) }
}

/// The wait before restart attempt `attempt` (from 1): one second, doubled
/// for each earlier attempt.
pub open spec fn spec_backoff_ms(attempt: nat) -> nat {
    (BASE_BACKOFF_MS as nat) * pow2((attempt - 1) as nat)
}

/// The decimal text of a signed integer, with a leading `-` when negative.
pub open spec fn signed_digits(v: int) -> Seq<char> {
    if v < 0 { "-"@ + dec_digits((-v) as nat) } else { dec_digits(v as nat) }
}

/// `{:?}` of an exit code: `Some(code)` or `None`.
pub open spec fn spec_exit_code_text(code: Option<i32>) -> Seq<char> {
    match code {
        Some(c) => "Some("@ + signed_digits(c as int) + ")"@,
        None => "None"@,
    }
}

/// Appends the decimal text of a signed integer.
pub fn push_signed(s: &mut String, v: i32)
    ensures
        final(s)@ == old(s)@ + signed_digits(v as int),
{
    if v < 0 {
        s.push('-');
        let m: u64 = (-(v as i64)) as u64;
        crate::text::push_decimal(s, m);
        proof {
            reveal_strlit("-");
            assert(final(s)@ =~= old(s)@ + signed_digits(v as int));
        }
    } else {
        crate::text::push_decimal(s, v as u64);
    }
}

/// What to do after the core exited.
#[derive(Debug, Clone, Copy, PartialEq, Eq, Structural)]
pub enum ExitDecision {
    /// Wait `backoff_ms`, rewrite the configuration and start it again.
    Restart { attempt: u32, backoff_ms: u64 },
    /// Stop trying.
    GiveUp,
}

/// The outcome of a restart.
#[derive(Debug)]
pub enum RestartOutcome {
    /// The configuration file could not be rewritten.
    ConfigWriteFailed,
    /// The process could not be spawned; the error's text.
    SpawnFailed(String),
    /// The process exited right after it was spawned.
    ExitedImmediately,
    /// The process is running, with this id when the system reports one,
    /// since the monotonic instant `at_ms` (milliseconds).
    Running { pid: Option<u32>, at_ms: u64 },
}

/// What the supervisor decides on an exit after `restarts` restarts: give up
/// once the limit is reached, else restart as the next attempt, after its
/// backoff.
pub open spec fn spec_exit_decision(restarts: nat) -> ExitDecision {
    if restarts >= MAX_RESTART_ATTEMPTS {
        ExitDecision::GiveUp
    } else {
        ExitDecision::Restart {
            attempt: (restarts + 1) as u32,
            backoff_ms: spec_backoff_ms(restarts + 1) as u64,
        }
    }
}

/// The restart count after an exit that came after `restarts` restarts.
pub open spec fn spec_restarts_after_exit(restarts: nat) -> nat {
    if restarts >= MAX_RESTART_ATTEMPTS { restarts } else { restarts + 1 }
}

/// The decisions on `exits` successive exits of a core that has been
/// restarted `restarts` times and that every restart brings back up: the
/// exits after giving up are not seen, as supervision has ended.
pub open spec fn spec_run_decisions(restarts: nat, exits: nat) -> Seq<ExitDecision>
    decreases exits,
{
    if exits == 0 {
        Seq::empty()
    } else if spec_exit_decision(restarts) == ExitDecision::GiveUp {
        seq![ExitDecision::GiveUp]
    } else {
        seq![spec_exit_decision(restarts)] + spec_run_decisions(spec_restarts_after_exit(restarts), (exits - 1) as nat)
    }
}

/// The supervisor's view of the core process.
pub struct CoreSupervisor {
    pub core_type: CoreType,
    pub running: bool,
    pub restart_count: u32,
    pub pid: Option<u32>,
    /// When the running process was started, in milliseconds of a monotonic
    /// clock that the caller reads.
    pub start_time_ms: Option<u64>,
    pub last_error: Option<String>,
}

/// Whole seconds from `start` to `now` (milliseconds), zero when `now` is
/// earlier.
pub open spec fn spec_elapsed_secs(start: u64, now: u64) -> u64 {
    if now >= start { ((now - start) / 1000) as u64 } else { 0 }
}

impl CoreSupervisor {
    /// Restarts never go past the limit.
    pub open spec fn wf(&self) -> bool {
        self.restart_count <= MAX_RESTART_ATTEMPTS
    }

    pub fn new(core_type: CoreType) -> (s: Self)
        ensures
            s.wf(),
            s.core_type == core_type,
            !s.running,
            s.restart_count == 0,
            s.pid is None,
            s.start_time_ms is None,
            s.last_error is None,
    {
        CoreSupervisor {
            core_type,
            running: false,
            restart_count: 0,
            pid: None,
            start_time_ms: None,
            last_error: None,
        }
    }

    /// A successful start at `now_ms` clears the error and the restart count.
    pub fn on_started(&mut self, pid: Option<u32>, now_ms: u64)
        ensures
            final(self).wf(),
            final(self).core_type == old(self).core_type,
            final(self).running,
            final(self).restart_count == 0,
            final(self).pid == pid,
            final(self).start_time_ms == Some(now_ms),
            final(self).last_error is None,
    {
        self.running = true;
        self.restart_count = 0;
        self.pid = pid;
        self.start_time_ms = Some(now_ms);
        self.last_error = None;
    }

    /// The process id, the uptime in whole seconds at `now_ms`, and the last
    /// error.
    pub fn status(&self, now_ms: u64) -> (r: (Option<u32>, Option<u64>, Option<String>))
        ensures
            r.0 == self.pid,
            r.1 == (match self.start_time_ms {
                Some(t) => Some(spec_elapsed_secs(t, now_ms)),
                None => None,
            }),
            match (r.2, self.last_error) {
                (Some(a), Some(b)) => a@ == b@,
                (None, None) => true,
                _ => false,
            },
    {
        let uptime = match self.start_time_ms {
            Some(t) => {
                if now_ms >= t {
                    Some((now_ms - t) / 1000)
                } else {
                    Some(0)
                }
            },
            None => None,
        };
        let last_error = match &self.last_error {
            Some(e) => Some(e.clone()),
            None => None,
        };
        (self.pid, uptime, last_error)
    }

    /// A stop request ends supervision and clears the restart count.
    pub fn on_stopped(&mut self)
        ensures
            final(self).wf(),
            final(self).core_type == old(self).core_type,
            !final(self).running,
            final(self).restart_count == 0,
            final(self).pid is None,
            final(self).start_time_ms is None,
            final(self).last_error == old(self).last_error,
    {
        self.running = false;
        self.restart_count = 0;
        self.pid = None;
        self.start_time_ms = None;
    }

    /// The core exited with `code`: the exit is recorded as the last error;
    /// after the fifth restart the supervisor gives up, otherwise it
    /// restarts with a backoff that doubles with every attempt.
    pub fn on_exit(&mut self, code: Option<i32>) -> (d: ExitDecision)
        requires
            old(self).wf(),
        ensures
            final(self).wf(),
            final(self).core_type == old(self).core_type,
            final(self).pid is None,
            final(self).last_error matches Some(m)
                && m@ == old(self).core_type.spec_core_name() + " exited with code "@ + spec_exit_code_text(code),
            d == spec_exit_decision(old(self).restart_count as nat),
            final(self).restart_count == spec_restarts_after_exit(old(self).restart_count as nat),
            d == ExitDecision::GiveUp ==> {
                &&& !final(self).running
                &&& final(self).start_time_ms is None
            },
            d != ExitDecision::GiveUp ==> {
                &&& final(self).running == old(self).running
                &&& final(self).start_time_ms == old(self).start_time_ms
            },
    {
        let mut m = self.core_type.core_name().to_owned();
        m.append(" exited with code ");
        match code {
            Some(c) => {
                m.append("Some(");
                push_signed(&mut m, c);
                m.append(")");
            },
            None => {
                m.append("None");
            },
        }
        self.last_error = Some(m);
        self.pid = None;
        if self.restart_count >= MAX_RESTART_ATTEMPTS {
            self.running = false;
            self.start_time_ms = None;
            return ExitDecision::GiveUp;
        }
        self.restart_count = self.restart_count + 1;
        let attempt = self.restart_count;
        let backoff = backoff_ms(attempt);
        ExitDecision::Restart { attempt, backoff_ms: backoff }
    }

    /// Records how a restart went, and whether supervision goes on: a
    /// running process is supervised again from its start instant (whether
    /// the core counts as running is left as it was, so a stop that came
    /// during the backoff stands); any failure ends supervision (spawn
    /// failures and immediate exits are recorded as the last error; the
    /// start time is left as it was).
    pub fn on_restart_outcome(&mut self, outcome: RestartOutcome) -> (go_on: bool)
        requires
            old(self).wf(),
        ensures
            final(self).wf(),
            final(self).core_type == old(self).core_type,
            final(self).restart_count == old(self).restart_count,
            go_on == (outcome is Running),
            match outcome {
                RestartOutcome::Running { pid, at_ms } => final(self).running == old(self).running && final(self).pid == pid
                    && final(self).start_time_ms == Some(at_ms)
                    && final(self).last_error == old(self).last_error,
                _ => final(self).start_time_ms == old(self).start_time_ms,
            },
            match outcome {
                RestartOutcome::Running { .. } => true,
                RestartOutcome::ConfigWriteFailed => !final(self).running && final(self).pid is None
                    && final(self).last_error == old(self).last_error,
                RestartOutcome::SpawnFailed(e) => !final(self).running && final(self).pid is None
                    && (final(self).last_error matches Some(m) && m@ == "Failed to restart "@
                    + old(self).core_type.spec_core_name() + ": "@ + e@),
                RestartOutcome::ExitedImmediately => !final(self).running && final(self).pid is None
                    && (final(self).last_error matches Some(m) && m@ == "Restarted "@
                    + old(self).core_type.spec_core_name() + " exited immediately"@),
            },
    {
        match outcome {
            RestartOutcome::Running { pid, at_ms } => {
                self.pid = pid;
                self.start_time_ms = Some(at_ms);
                true
            },
            RestartOutcome::ConfigWriteFailed => {
                self.running = false;
                self.pid = None;
                false
            },
            RestartOutcome::SpawnFailed(e) => {
                let mut m = "Failed to restart ".to_owned();
                m.append(self.core_type.core_name());
                m.append(": ");
                m.append(e.as_str());
                self.last_error = Some(m);
                self.running = false;
                self.pid = None;
                false
            },
            RestartOutcome::ExitedImmediately => {
                let mut m = "Restarted ".to_owned();
                m.append(self.core_type.core_name());
                m.append(" exited immediately");
                self.last_error = Some(m);
                self.running = false;
                self.pid = None;
                false
            },
        }
    }
}

/// The backoff before restart attempt `attempt`, for attempts 1 to 5.
pub fn backoff_ms(attempt: u32) -> (ms: u64)
    requires
        1 <= attempt <= MAX_RESTART_ATTEMPTS,
    ensures
        ms as nat == spec_backoff_ms(attempt as nat),
{
    let mut ms: u64 = BASE_BACKOFF_MS;
    let mut i: u32 = 1;
    while i < attempt
        invariant
            1 <= i <= attempt,
            attempt <= MAX_RESTART_ATTEMPTS,
            ms as nat == (BASE_BACKOFF_MS as nat) * pow2((i - 1) as nat),
            ms <= 16000,
        decreases attempt - i,
    {
        proof {
            assert(pow2(i as nat) == 2 * pow2((i - 1) as nat));
            reveal_with_fuel(pow2, 5);
            assert(pow2((i - 1) as nat) <= 8);
        }
        ms = ms * 2;
        i = i + 1;
    }
    ms
}

/// The error when a freshly started core exits at once; an exit without a
/// code is reported as -1.
pub fn exited_immediately_message(core_type: CoreType, code: Option<i32>) -> (m: String)
    ensures
        m@ == core_type.spec_core_name() + " exited immediately with code "@
            + signed_digits(match code { Some(c) => c as int, None => -1 }),
{
    let mut m = core_type.core_name().to_owned();
    m.append(" exited immediately with code ");
    let c: i32 = match code {
        Some(c) => c,
        None => -1,
    };
    push_signed(&mut m, c);
    m
}

/// The error when no binary of a core is found.
pub open spec fn spec_binary_not_found(core_type: CoreType) -> Seq<char> {
    core_type.spec_config_file_prefix() + " binary not found. Install it or set the path via CLI/config."@
}

/// What locating a core's binary gives: the configured path when something
/// exists there, else the first binary found by the search, else the
/// not-found error.
pub open spec fn spec_choose_located(
    core_type: CoreType,
    core_path: Option<Seq<char>>,
    explicit_exists: bool,
    found: Option<Seq<char>>,
) -> Result<Seq<char>, Seq<char>> {
    if core_path is Some && explicit_exists {
        Ok(core_path->0)
    } else {
        match found {
            Some(p) => Ok(p),
            None => Err(spec_binary_not_found(core_type)),
        }
    }
}

/// The text of a result of strings.
pub open spec fn result_view(r: Result<String, String>) -> Result<Seq<char>, Seq<char>> {
    match r {
        Ok(p) => Ok(p@),
        Err(m) => Err(m@),
    }
}

/// Decides where a core's binary is, given whether something exists at the
/// configured path and what the search of the binary names found.
pub fn choose_located(core_type: CoreType, core_path: Option<&str>, explicit_exists: bool, found: Option<String>) -> (r: Result<String, String>)
    ensures
        result_view(r) == spec_choose_located(core_type, crate::assets::opt_str_view(core_path), explicit_exists, crate::assets::opt_view(found)),
{
    match core_path {
        Some(p) => {
            if explicit_exists {
                return Ok(p.to_owned());
            }
        },
        None => {},
    }
    match found {
        Some(p) => Ok(p),
        None => {
            let mut m = core_type.config_file_prefix().to_owned();
            m.append(" binary not found. Install it or set the path via CLI/config.");
            Err(m)
        },
    }
}

/// Locates a core's binary: the configured path if something exists there,
/// else the first of the core's binary names found as a file in a search
/// directory (the entries of `PATH`, in order). Whether the configured path
/// exists and which candidates are files are the file system's answers;
/// `choose_located` decides from them.
pub fn locate_binary(core_type: CoreType, core_path: Option<&str>, search_dirs: &Vec<String>) -> (r: Result<String, String>)
    ensures
        exists|explicit_exists: bool, found: Option<Seq<char>>|
            #[trigger] crate::assets::spec_first_answer(
                crate::assets::spec_core_candidates(core_type.spec_binary_names(), None, crate::assets::views(search_dirs@)),
                found,
            ) && result_view(r) == #[trigger] spec_choose_located(core_type, crate::assets::opt_str_view(core_path), explicit_exists, found),
        match r {
            Ok(p) => (core_path is Some && core_path->0@ == p@) || crate::assets::spec_first_answer(
                crate::assets::spec_core_candidates(core_type.spec_binary_names(), None, crate::assets::views(search_dirs@)),
                Some(p@),
            ),
            Err(m) => m@ == spec_binary_not_found(core_type) && crate::assets::spec_first_answer(
                crate::assets::spec_core_candidates(core_type.spec_binary_names(), None, crate::assets::views(search_dirs@)),
                None,
            ),
        },
{
    let explicit_exists = match core_path {
        Some(p) => crate::assets::path_exists(p),
        None => false,
    };
    let names = core_type.binary_names();
    let candidates = crate::assets::core_candidates(names.as_slice(), None, search_dirs);
    proof {
        assert(names@.map_values(|s: &str| s@) =~= core_type.spec_binary_names());
    }
    let found = crate::assets::first_file(&candidates);
    let ghost g = crate::assets::opt_view(found);
    let r = choose_located(core_type, core_path, explicit_exists, found);
    proof {
        assert(crate::assets::spec_first_answer(crate::assets::views(candidates@), g));
    }
    r
}

/// Looks for an Xray-core binary in the search directories.
pub fn which_xray_in_path(search_dirs: &Vec<String>) -> (r: Result<String, String>)
    ensures
        match r {
            Ok(p) => crate::assets::spec_first_answer(
                crate::assets::spec_core_candidates(CoreType::Xray.spec_binary_names(), None, crate::assets::views(search_dirs@)),
                Some(p@),
            ),
            Err(m) => m@ == "xray not found in PATH"@ && crate::assets::spec_first_answer(
                crate::assets::spec_core_candidates(CoreType::Xray.spec_binary_names(), None, crate::assets::views(search_dirs@)),
                None,
            ),
        },
{
    let names = CoreType::Xray.binary_names();
    let candidates = crate::assets::core_candidates(names.as_slice(), None, search_dirs);
    proof {
        assert(names@.map_values(|s: &str| s@) =~= CoreType::Xray.spec_binary_names());
    }
    match crate::assets::first_file(&candidates) {
        Some(p) => Ok(p),
        None => Err("xray not found in PATH".to_owned()),
    }
}

/// Locates the sing-box binary for the sing-box process manager: the
/// configured path if something exists there, else the first of its names
/// found as a file in a search directory.
pub fn locate_sing_box(sing_box_path: Option<&str>, search_dirs: &Vec<String>) -> (r: Result<String, String>)
    ensures
        exists|explicit_exists: bool, found: Option<Seq<char>>|
            #[trigger] crate::assets::spec_first_answer(
                crate::assets::spec_core_candidates(CoreType::SingBox.spec_binary_names(), None, crate::assets::views(search_dirs@)),
                found,
            ) && match #[trigger] spec_choose_located(CoreType::SingBox, crate::assets::opt_str_view(sing_box_path), explicit_exists, found) {
                Ok(p) => r is Ok && r->Ok_0@ == p,
                Err(_) => r is Err && r->Err_0@ == "sing-box binary not found. Install sing-box or set sing_box_path in config."@,
            },
        match r {
            Ok(p) => (sing_box_path is Some && sing_box_path->0@ == p@) || crate::assets::spec_first_answer(
                crate::assets::spec_core_candidates(CoreType::SingBox.spec_binary_names(), None, crate::assets::views(search_dirs@)),
                Some(p@),
            ),
            Err(m) => m@ == "sing-box binary not found. Install sing-box or set sing_box_path in config."@
                && crate::assets::spec_first_answer(
                crate::assets::spec_core_candidates(CoreType::SingBox.spec_binary_names(), None, crate::assets::views(search_dirs@)),
                None,
            ),
        },
{
    match locate_binary(CoreType::SingBox, sing_box_path, search_dirs) {
        Ok(p) => Ok(p),
        Err(_) => Err("sing-box binary not found. Install sing-box or set sing_box_path in config.".to_owned()),
    }
}

} // verus!
