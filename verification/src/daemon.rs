//! The background daemon's bookkeeping: its PID file, its logs, and what its status reads.
use vstd::prelude::*;
use vstd::string::*;
use crate::paths::{data_dir, data_dir_in, get_home_dir, join, join_path, PathError};
use crate::text::{
    all_white_space, is_white_space, lemma_trim_end_keeps, lemma_trim_padded, lemma_trim_start_keeps,
    trim, trim_str,
};

verus! {

/// The PID file of the daemon, for the home directory `home`.
pub open spec fn pid_file(home: Seq<char>) -> Seq<char> {
    join(data_dir(home), "daemon.pid"@)
}

/// The directory of the daemon's logs, for the home directory `home`.
pub open spec fn log_dir(home: Seq<char>) -> Seq<char> {
    join(data_dir(home), "logs"@)
}

/// The log file `name.log`, for the home directory `home`.
pub open spec fn log_file(home: Seq<char>, name: Seq<char>) -> Seq<char> {
    join(log_dir(home), name + ".log"@)
}

/// The PID file of the daemon, for the home directory `home`.
pub fn pid_file_in(home: &str) -> (r: String)
    ensures
        r@ == pid_file(home@),
{
    let data = data_dir_in(home);
    join_path(data.as_str(), "daemon.pid")
}

/// The directory of the daemon's logs, for the home directory `home`.
pub fn log_dir_in(home: &str) -> (r: String)
    ensures
        r@ == log_dir(home@),
{
    let data = data_dir_in(home);
    join_path(data.as_str(), "logs")
}

/// The log file `name.log`, for the home directory `home`.
pub fn log_file_in(home: &str, name: &str) -> (r: String)
    ensures
        r@ == log_file(home@, name@),
{
    let dir = log_dir_in(home);
    let file = String::from_str(name).concat(".log");
    join_path(dir.as_str(), file.as_str())
}

/// The PID file of the daemon, in the home directory of the current user.
pub fn get_pid_file() -> (r: Result<String, PathError>)
    ensures
        r matches Ok(p) ==> exists|h: Seq<char>| p@ == #[trigger] pid_file(h),
{
    let home = get_home_dir()?;
    Ok(pid_file_in(home.as_str()))
}

/// The directory of the daemon's logs, in the home directory of the current user.
pub fn get_log_dir() -> (r: Result<String, PathError>)
    ensures
        r matches Ok(p) ==> exists|h: Seq<char>| p@ == #[trigger] log_dir(h),
{
    let home = get_home_dir()?;
    Ok(log_dir_in(home.as_str()))
}

/// The log file `name.log`, in the home directory of the current user.
pub fn get_log_file(name: &str) -> (r: Result<String, PathError>)
    ensures
        r matches Ok(p) ==> exists|h: Seq<char>| p@ == #[trigger] log_file(h, name@),
{
    let home = get_home_dir()?;
    Ok(log_file_in(home.as_str(), name))
}

/// Whether `c` is an ASCII decimal digit.
pub open spec fn is_digit(c: char) -> bool {
    '0' <= c <= '9'
}

/// The number that the decimal digits `s` write.
pub open spec fn digits_value(s: Seq<char>) -> nat
    decreases s.len(),
{
    if s.len() == 0 {
        0
    } else {
        digits_value(s.drop_last()) * 10 + (s.last() as nat - '0' as nat) as nat
    }
}

/// `s` without a leading `+`, if it has one.
pub open spec fn unsigned_digits(s: Seq<char>) -> Seq<char> {
    if s.len() > 0 && s[0] == '+' {
        s.drop_first()
    } else {
        s
    }
}

/// What `u32`'s `FromStr` accepts: an optional `+`, then one or more decimal digits that
/// write a number no larger than `u32::MAX`.
pub open spec fn parse_u32(s: Seq<char>) -> Option<u32> {
    let d = unsigned_digits(s);
    if d.len() > 0 && (forall|i: int| 0 <= i < d.len() ==> is_digit(#[trigger] d[i]))
        && digits_value(d) <= u32::MAX {
        Some(digits_value(d) as u32)
    } else {
        None
    }
}

/// The PID that a PID file holding `contents` names: its contents, trimmed, as a `u32`,
/// where that is the id of one process.
pub open spec fn pid_in(contents: Seq<char>) -> Option<u32> {
    match parse_u32(trim(contents)) {
        Some(p) => if is_process_id(p) {
            Some(p)
        } else {
            None
        },
        None => None,
    }
}

/// Whether `p` can name one process: it is positive and fits in an `i32`. Zero and larger
/// numbers would, as signal targets, name a process group or every process.
pub open spec fn is_process_id(p: u32) -> bool {
    1 <= p <= i32::MAX
}

/// Parses `s` as `u32`'s `FromStr` does, giving `None` where that gives an error.
pub fn parse_u32_str(s: &str) -> (r: Option<u32>)
    ensures
        r == parse_u32(s@),
{
    let n = s.unicode_len();
    let mut i: usize = 0;
    if n > 0 && s.get_char(0) == '+' {
        i = 1;
    }
    let ghost d = unsigned_digits(s@);
    assert(d =~= s@.subrange(i as int, n as int));
    if i == n {
        return None;
    }
    let start = i;
    let mut acc: u64 = 0;
    let mut overflow = false;
    assert(d.take(0) =~= Seq::<char>::empty());
    while i < n
        invariant
            n == s@.len(),
            start <= i <= n,
            d == s@.subrange(start as int, n as int),
            d == unsigned_digits(s@),
            forall|k: int| 0 <= k < i - start ==> is_digit(#[trigger] d[k]),
            overflow ==> digits_value(d.take(i - start)) > u32::MAX,
            !overflow ==> acc == digits_value(d.take(i - start)) && acc <= u32::MAX,
        decreases n - i,
    {
        let c = s.get_char(i);
        if !('0' <= c && c <= '9') {
            assert(d[i - start] == c);
            return None;
        }
        let ghost k = i - start;
        assert(d.take(k + 1).drop_last() =~= d.take(k));
        assert(d.take(k + 1).last() == c);
        if !overflow {
            let v = (c as u64) - ('0' as u64);
            acc = acc * 10 + v;
            if acc > 0xffff_ffff {
                overflow = true;
            }
        }
        i = i + 1;
    }
    assert(d.take(n - start) =~= d);
    if overflow {
        None
    } else {
        Some(acc as u32)
    }
}

/// The character of the decimal digit `d`.
pub open spec fn digit_char(d: nat) -> char {
    ('0' as nat + d) as char
}

/// `n` written in decimal, without leading zeros.
pub open spec fn decimal(n: nat) -> Seq<char>
    decreases n,
{
    if n < 10 {
        seq![digit_char(n)]
    } else {
        decimal(n / 10).push(digit_char(n % 10))
    }
}

/// `n` written in decimal is a non-empty string of digits that writes `n`.
pub proof fn lemma_decimal(n: nat)
    ensures
        decimal(n).len() > 0,
        forall|i: int| 0 <= i < decimal(n).len() ==> is_digit(#[trigger] decimal(n)[i]),
        digits_value(decimal(n)) == n,
    decreases n,
{
    assert(digit_char(n % 10) as nat == '0' as nat + n % 10);
    if n < 10 {
        assert(digit_char(n) as nat == '0' as nat + n);
        assert(decimal(n).drop_last() =~= Seq::<char>::empty());
        assert(decimal(n).last() == digit_char(n));
        assert(digits_value(decimal(n)) == digits_value(Seq::<char>::empty()) * 10 + n);
    } else {
        lemma_decimal(n / 10);
        assert(n == (n / 10) * 10 + n % 10);
        let d = decimal(n);
        assert(d.drop_last() =~= decimal(n / 10));
        assert(d.last() == digit_char(n % 10));
        assert(digits_value(d) == digits_value(decimal(n / 10)) * 10 + n % 10);
        assert forall|i: int| 0 <= i < d.len() implies is_digit(#[trigger] d[i]) by {
            if i < d.len() - 1 {
                assert(d[i] == decimal(n / 10)[i]);
            }
        }
    }
}

/// A PID file holding a PID in decimal, followed by white space such as the newline the
/// daemon writes after it, reads back as that PID.
pub proof fn lemma_pid_file_reads_back(pid: u32, w: Seq<char>)
    requires
        is_process_id(pid),
        all_white_space(w),
    ensures
        pid_in(decimal(pid as nat) + w) == Some(pid),
{
    let d = decimal(pid as nat);
    lemma_decimal(pid as nat);
    assert(!is_white_space(d[0]));
    assert(!is_white_space(d.last()));
    lemma_trim_padded(Seq::empty(), d, w);
    assert(Seq::<char>::empty() + d + w =~= d + w);
    lemma_trim_start_keeps(d);
    lemma_trim_end_keeps(d);
    assert(unsigned_digits(d) == d);
}

/// The PID that a PID file holding `contents` names, if it names one.
pub fn parse_pid(contents: &str) -> (r: Option<u32>)
    ensures
        r == pid_in(contents@),
{
    match parse_u32_str(trim_str(contents)) {
        Some(p) => if 1 <= p && p <= 0x7fff_ffff {
            Some(p)
        } else {
            None
        },
        None => None,
    }
}

/// The process id handed to the signal calls: the PID, which fits, as an `i32`.
pub fn pid_to_raw(pid: u32) -> (r: i32)
    requires
        is_process_id(pid),
    ensures
        r == pid as i32,
        r as int == pid as int,
{
    pid as i32
}

/// What `status` reports: that the daemon runs, with the trimmed contents of its PID file,
/// or that it does not.
pub open spec fn status_text(running_pid_file: Option<Seq<char>>) -> Seq<char> {
    match running_pid_file {
        Some(contents) => "Daemon is running (PID: "@ + trim(contents) + ")"@,
        None => "Daemon is not running"@,
    }
}

/// What `status` reports, given the contents of the PID file when the daemon runs.
pub fn status_message(running_pid_file: Option<&str>) -> (r: String)
    ensures
        r@ == status_text(
            match running_pid_file {
                Some(c) => Some(c@),
                None => None,
            },
        ),
{
    match running_pid_file {
        Some(contents) => String::from_str("Daemon is running (PID: ").concat(trim_str(contents)).concat(
            ")",
        ),
        None => String::from_str("Daemon is not running"),
    }
}

/// The arguments of the detached process that runs the daemon where there is no fork.
pub open spec fn daemon_args(model_size: Seq<char>, hotkey: Seq<char>) -> Seq<Seq<char>> {
    seq!["start"@, "--foreground"@, "--model"@, model_size, "--hotkey"@, hotkey]
}

/// The arguments of the detached process that runs the daemon where there is no fork.
pub fn daemon_process_args(model_size: &str, hotkey: &str) -> (r: Vec<String>)
    ensures
        r@.map_values(|a: String| a@) == daemon_args(model_size@, hotkey@),
{
    let mut v: Vec<String> = Vec::new();
    v.push(String::from_str("start"));
    v.push(String::from_str("--foreground"));
    v.push(String::from_str("--model"));
    v.push(String::from_str(model_size));
    v.push(String::from_str("--hotkey"));
    v.push(String::from_str(hotkey));
    assert(v@.map_values(|a: String| a@) =~= daemon_args(model_size@, hotkey@));
    v
}

/// Why a daemon command was refused.
#[derive(Clone, Copy, Debug, PartialEq, Eq, Structural)]
pub enum DaemonError {
    /// `start` found a daemon running.
    AlreadyRunning,
    /// `stop` found no PID file.
    NotRunning,
    /// `stop` found a PID file that names no PID.
    InvalidPid,
}

impl DaemonError {
    /// The message the error reports.
    pub fn message(&self) -> (r: &'static str)
        ensures
            r@ == match *self {
                DaemonError::AlreadyRunning => "Daemon is already running. Use 'stop' command first."@,
                DaemonError::NotRunning => "Daemon is not running (no PID file found)"@,
                DaemonError::InvalidPid => "Invalid PID in pid file"@,
            },
    {
        match self {
            DaemonError::AlreadyRunning => "Daemon is already running. Use 'stop' command first.",
            DaemonError::NotRunning => "Daemon is not running (no PID file found)",
            DaemonError::InvalidPid => "Invalid PID in pid file",
        }
    }
}

/// What checking whether the daemon runs does next, given its PID file.
#[derive(Clone, Copy, Debug, PartialEq, Eq, Structural)]
pub enum RunningCheck {
    /// There is no PID file: the daemon does not run.
    NotRunning,
    /// The PID file names no PID: remove it; the daemon does not run.
    RemoveStaleFile,
    /// Ask the system whether this process exists.
    Probe(u32),
}

/// What checking whether the daemon runs does next, given the contents of its PID file,
/// if there is one.
pub open spec fn running_check_of(pid_file: Option<Seq<char>>) -> RunningCheck {
    match pid_file {
        None => RunningCheck::NotRunning,
        Some(c) => match pid_in(c) {
            Some(pid) => RunningCheck::Probe(pid),
            None => RunningCheck::RemoveStaleFile,
        },
    }
}

/// What checking whether the daemon runs does next.
pub fn running_check(pid_file: Option<&str>) -> (r: RunningCheck)
    ensures
        r == running_check_of(
            match pid_file {
                Some(c) => Some(c@),
                None => None,
            },
        ),
{
    match pid_file {
        None => RunningCheck::NotRunning,
        Some(c) => match parse_pid(c) {
            Some(pid) => RunningCheck::Probe(pid),
            None => RunningCheck::RemoveStaleFile,
        },
    }
}

/// What a probe of the daemon's process tells the check.
#[derive(Clone, Copy, Debug, PartialEq, Eq, Structural)]
pub enum ProbeOutcome {
    /// The process exists: the daemon runs.
    Running,
    /// The process is gone: remove the PID file; the daemon does not run.
    Gone,
}

/// What a probe that finds the process `alive`, or not, tells the check.
pub open spec fn after_probe_of(alive: bool) -> ProbeOutcome {
    if alive {
        ProbeOutcome::Running
    } else {
        ProbeOutcome::Gone
    }
}

/// What a probe that finds the process `alive`, or not, tells the check.
pub fn after_probe(alive: bool) -> (r: ProbeOutcome)
    ensures
        r == after_probe_of(alive),
{
    if alive {
        ProbeOutcome::Running
    } else {
        ProbeOutcome::Gone
    }
}

/// What checking whether the daemon runs answers, and the PID file it leaves behind,
/// given the contents of the PID file (if any) and which processes exist.
pub open spec fn running_outcome(pid_file: Option<Seq<char>>, alive: spec_fn(u32) -> bool) -> (
    bool,
    Option<Seq<char>>,
) {
    match running_check_of(pid_file) {
        RunningCheck::NotRunning => (false, None),
        RunningCheck::RemoveStaleFile => (false, None),
        RunningCheck::Probe(pid) => match after_probe_of(alive(pid)) {
            ProbeOutcome::Running => (true, pid_file),
            ProbeOutcome::Gone => (false, None),
        },
    }
}

/// Checking twice, with no process starting or ending in between, answers the same and
/// leaves the PID file as the first check left it: the first check already removed a stale
/// or invalid file.
pub proof fn lemma_running_check_repeats(pid_file: Option<Seq<char>>, alive: spec_fn(u32) -> bool)
    ensures
        running_outcome(running_outcome(pid_file, alive).1, alive) == running_outcome(pid_file, alive),
{
}

/// The PID that `stop` signals, given the contents of the PID file, if there is one.
pub open spec fn stop_target_of(pid_file: Option<Seq<char>>) -> Result<u32, DaemonError> {
    match pid_file {
        None => Err(DaemonError::NotRunning),
        Some(c) => match pid_in(c) {
            Some(pid) => Ok(pid),
            None => Err(DaemonError::InvalidPid),
        },
    }
}

/// The PID that `stop` signals, given the contents of the PID file, if there is one.
pub fn stop_target(pid_file: Option<&str>) -> (r: Result<u32, DaemonError>)
    ensures
        r == stop_target_of(
            match pid_file {
                Some(c) => Some(c@),
                None => None,
            },
        ),
{
    match pid_file {
        None => Err(DaemonError::NotRunning),
        Some(c) => match parse_pid(c) {
            Some(pid) => Ok(pid),
            None => Err(DaemonError::InvalidPid),
        },
    }
}

/// Whether `start` may go on: only when no daemon runs.
pub fn start_allowed(running: bool) -> (r: Result<(), DaemonError>)
    ensures
        r == if running {
            Err::<(), DaemonError>(DaemonError::AlreadyRunning)
        } else {
            Ok::<(), DaemonError>(())
        },
{
    if running {
        Err(DaemonError::AlreadyRunning)
    } else {
        Ok(())
    }
}

/// What has just happened while stopping the daemon.
#[derive(Clone, Copy, Debug, PartialEq, Eq, Structural)]
pub enum StopEvent {
    /// Stopping begins; the PID is known.
    Begin,
    /// SIGTERM was sent.
    TermSent,
    /// The grace period is over.
    Waited,
    /// The process was probed: whether it still exists.
    Probed(bool),
    /// SIGKILL was sent.
    KillSent,
    /// The PID file is gone.
    PidFileRemoved,
}

/// What to do next while stopping the daemon.
#[derive(Clone, Copy, Debug, PartialEq, Eq, Structural)]
pub enum StopAction {
    /// Send SIGTERM; failing to do so fails the stop.
    SendTerm,
    /// Wait this many seconds for the daemon to exit.
    WaitSeconds(u64),
    /// Ask whether the process still exists.
    Probe,
    /// Send SIGKILL; failing to do so fails the stop.
    SendKill,
    /// Remove the PID file, if it is still there.
    RemovePidFile,
    /// The daemon is stopped.
    Done,
}

/// The step that follows `event` when stopping the daemon: ask it to terminate, give it
/// two seconds, kill it if it is still there, then remove the PID file.
pub open spec fn next_stop_action_of(event: StopEvent) -> StopAction {
    match event {
        StopEvent::Begin => StopAction::SendTerm,
        StopEvent::TermSent => StopAction::WaitSeconds(2),
        StopEvent::Waited => StopAction::Probe,
        StopEvent::Probed(alive) => if alive {
            StopAction::SendKill
        } else {
            StopAction::RemovePidFile
        },
        StopEvent::KillSent => StopAction::RemovePidFile,
        StopEvent::PidFileRemoved => StopAction::Done,
    }
}

/// The step that follows `event` when stopping the daemon.
pub fn next_stop_action(event: StopEvent) -> (r: StopAction)
    ensures
        r == next_stop_action_of(event),
{
    match event {
        StopEvent::Begin => StopAction::SendTerm,
        StopEvent::TermSent => StopAction::WaitSeconds(2),
        StopEvent::Waited => StopAction::Probe,
        StopEvent::Probed(alive) => if alive {
            StopAction::SendKill
        } else {
            StopAction::RemovePidFile
        },
        StopEvent::KillSent => StopAction::RemovePidFile,
        StopEvent::PidFileRemoved => StopAction::Done,
    }
}

/// The events of a stop, in order, when the probe finds the process `alive` or gone.
pub open spec fn stop_run(alive: bool) -> Seq<StopEvent> {
    if alive {
        seq![StopEvent::Begin, StopEvent::TermSent, StopEvent::Waited, StopEvent::Probed(true),
            StopEvent::KillSent, StopEvent::PidFileRemoved]
    } else {
        seq![StopEvent::Begin, StopEvent::TermSent, StopEvent::Waited, StopEvent::Probed(false),
            StopEvent::PidFileRemoved]
    }
}

/// A stop always ends: it sends SIGTERM first, SIGKILL only to a process still there after
/// the wait, and it removes the PID file once, as its last step before it is done.
pub proof fn lemma_stop_sequence(alive: bool)
    ensures
        next_stop_action_of(stop_run(alive)[0]) == StopAction::SendTerm,
        next_stop_action_of(stop_run(alive).last()) == StopAction::Done,
        next_stop_action_of(stop_run(alive)[stop_run(alive).len() - 2]) == StopAction::RemovePidFile,
        forall|i: int|
            0 <= i < stop_run(alive).len() ==> (next_stop_action_of(#[trigger] stop_run(alive)[i])
                == StopAction::SendKill <==> (alive && i == 3)),
        forall|i: int|
            0 <= i < stop_run(alive).len() - 2 ==> next_stop_action_of(#[trigger] stop_run(alive)[i])
                != StopAction::RemovePidFile,
{
}

/// `stop` signals the process that the PID file names, and `status` probes the same one:
/// a PID file holding a process id in decimal, with any white space after it, makes
/// `stop` target that process; and whenever a PID file names a process, `stop` targets it
/// exactly when the running check probes it.
pub proof fn lemma_stop_targets_the_pid(pid: u32, w: Seq<char>, c: Seq<char>, p: u32)
    requires
        is_process_id(pid),
        all_white_space(w),
    ensures
        stop_target_of(Some(decimal(pid as nat) + w)) == Ok::<u32, DaemonError>(pid),
        running_check_of(Some(decimal(pid as nat) + w)) == RunningCheck::Probe(pid),
        stop_target_of(Some(c)) == Ok::<u32, DaemonError>(p) <==> running_check_of(Some(c))
            == RunningCheck::Probe(p),
        stop_target_of(Some(c)) is Err <==> running_check_of(Some(c)) == RunningCheck::RemoveStaleFile,
        stop_target_of(None) == Err::<u32, DaemonError>(DaemonError::NotRunning),
{
    lemma_pid_file_reads_back(pid, w);
}

} // verus!
