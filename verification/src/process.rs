//! The Harness process: what the launcher knows about it, and how that knowledge changes as
//! it is started, becomes ready, is stopped, or exits.
use vstd::prelude::*;
use vstd::string::StringExecFns;
use crate::command::string_views;
use crate::text::{decimal, decimal_chars, digit_char, string_of};

verus! {

/// The port the Web UI prefers.
pub const PREFERRED_PORT: u16 = 3080;

/// The error when the Harness exits before it serves.
pub const EXITED_BEFORE_READY: &'static str = "dsh 在服务就绪前退出";

/// The error when the Harness does not serve in time.
pub const START_TIMED_OUT: &'static str = "等待 dsh 启动超时";

/// Something the Harness process reported.
#[derive(Debug)]
pub enum ProcessEvent {
    /// A non-empty line of its output.
    Output(String),
    /// It exited while ready and without being asked to stop.
    UnexpectedExit,
}

/// What the launcher knows about the Harness process.
#[derive(Debug)]
pub struct HarnessProcessManager {
    process_id: Option<u32>,
    web_ui_url: Option<String>,
    running: bool,
    ready: bool,
    stopping: bool,
}

/// The abstract form of a `HarnessProcessManager`.
pub struct ProcessStateView {
    pub process_id: Option<u32>,
    pub web_ui_url: Option<Seq<char>>,
    pub running: bool,
    pub ready: bool,
    pub stopping: bool,
}

impl View for HarnessProcessManager {
    type V = ProcessStateView;

    closed spec fn view(&self) -> ProcessStateView {
        ProcessStateView {
            process_id: self.process_id,
            web_ui_url: match self.web_ui_url {
                Some(u) => Some(u@),
                None => None,
            },
            running: self.running,
            ready: self.ready,
            stopping: self.stopping,
        }
    }
}

/// Nothing is known: no process.
pub open spec fn idle_state() -> ProcessStateView {
    ProcessStateView {
        process_id: None,
        web_ui_url: None,
        running: false,
        ready: false,
        stopping: false,
    }
}

/// A process was just started and is not serving yet.
pub open spec fn spec_started(process_id: u32, web_ui_url: Seq<char>) -> ProcessStateView {
    ProcessStateView {
        process_id: Some(process_id),
        web_ui_url: Some(web_ui_url),
        running: true,
        ready: false,
        stopping: false,
    }
}

/// The process serves.
pub open spec fn spec_mark_ready(s: ProcessStateView) -> ProcessStateView {
    ProcessStateView { ready: true, ..s }
}

/// Stopping has been requested; the process is to be killed.
pub open spec fn spec_stop(s: ProcessStateView) -> ProcessStateView {
    ProcessStateView { stopping: true, ready: false, ..s }
}

/// The process is gone; the stop request, if any, is remembered.
pub open spec fn spec_gone(s: ProcessStateView) -> ProcessStateView {
    ProcessStateView {
        process_id: None,
        web_ui_url: None,
        running: false,
        ready: false,
        stopping: s.stopping,
    }
}

/// An exit is unexpected when the process was serving and no stop was requested.
pub open spec fn exit_is_unexpected(s: ProcessStateView) -> bool {
    s.ready && !s.stopping
}

/// The address of the Web UI on `port`.
pub open spec fn spec_web_ui_url_for(port: u16) -> Seq<char> {
    "http://127.0.0.1:"@ + decimal(port as nat) + "/"@
}

impl HarnessProcessManager {
    /// No process yet.
    pub fn new() -> (r: Self)
        ensures
            r@ == idle_state(),
    {
        HarnessProcessManager {
            process_id: None,
            web_ui_url: None,
            running: false,
            ready: false,
            stopping: false,
        }
    }

    /// Whether the process is running.
    pub fn is_running(&self) -> (r: bool)
        ensures
            r == self@.running,
    {
        self.running
    }

    /// The id of the process, if one is known.
    pub fn process_id(&self) -> (r: Option<u32>)
        ensures
            r == self@.process_id,
    {
        self.process_id
    }

    /// The address of the Web UI, if a process is known.
    pub fn web_ui_url(&self) -> (r: Option<String>)
        ensures
            match r {
                Some(u) => self@.web_ui_url == Some(u@),
                None => self@.web_ui_url is None,
            },
    {
        match &self.web_ui_url {
            Some(u) => Some(u.clone()),
            None => None,
        }
    }

    /// When a process is already known, starting reuses it: its id and address, or an error
    /// when the id is missing. `None` when a new process must be started.
    pub fn existing_session(&self) -> (r: Option<Result<(u32, String), String>>)
        ensures
            self@.web_ui_url is None ==> r is None,
            self@.web_ui_url matches Some(u) ==> match self@.process_id {
                Some(p) => r matches Some(Ok((q, v))) && q == p && v@ == u,
                None => r matches Some(Err(e)) && e@ == "Harness 进程状态不完整"@,
            },
    {
        match &self.web_ui_url {
            None => None,
            Some(u) => match self.process_id {
                Some(p) => Some(Ok((p, u.clone()))),
                None => Some(Err(String::from_str("Harness 进程状态不完整"))),
            },
        }
    }

    /// A process was started with `process_id`, serving at `web_ui_url` once ready.
    pub fn started(&mut self, process_id: u32, web_ui_url: String)
        ensures
            final(self)@ == spec_started(process_id, web_ui_url@),
    {
        self.process_id = Some(process_id);
        self.web_ui_url = Some(web_ui_url);
        self.running = true;
        self.ready = false;
        self.stopping = false;
    }

    /// The process accepts connections.
    pub fn mark_ready(&mut self)
        ensures
            final(self)@ == spec_mark_ready(old(self)@),
    {
        self.ready = true;
    }

    /// Requests a stop; returns the process to kill, if one is known.
    pub fn stop(&mut self) -> (r: Option<u32>)
        ensures
            final(self)@ == spec_stop(old(self)@),
            r == old(self)@.process_id,
    {
        self.stopping = true;
        self.ready = false;
        self.process_id
    }

    /// The process was killed: nothing is running any more.
    pub fn finish_stop(&mut self)
        ensures
            final(self)@ == spec_gone(old(self)@),
    {
        self.running = false;
        self.ready = false;
        self.process_id = None;
        self.web_ui_url = None;
    }

    /// The process exited; returns whether the exit was unexpected.
    pub fn exited(&mut self) -> (r: bool)
        ensures
            final(self)@ == spec_gone(old(self)@),
            r == exit_is_unexpected(old(self)@),
    {
        let unexpected = !self.stopping && self.ready;
        self.running = false;
        self.ready = false;
        self.process_id = None;
        self.web_ui_url = None;
        unexpected
    }
}

/// The port to serve on: the preferred one when it is free, else `fallback`.
pub fn choose_port(preferred_is_free: bool, fallback: u16) -> (r: u16)
    ensures
        r == if preferred_is_free {
            PREFERRED_PORT
        } else {
            fallback
        },
{
    if preferred_is_free {
        PREFERRED_PORT
    } else {
        fallback
    }
}

/// The address of the Web UI on `port`.
pub fn web_ui_url_for(port: u16) -> (r: String)
    ensures
        r@ == spec_web_ui_url_for(port),
{
    let digits = decimal_chars(port as u128);
    let mut url = String::from_str("http://127.0.0.1:");
    url.append(string_of(digits.as_slice()).as_str());
    url.append("/");
    url
}

/// The arguments that start the Harness on `port`.
pub fn harness_args(port: u16) -> (r: Vec<String>)
    ensures
        string_views(r@) == seq!["web"@, "--port"@, decimal(port as nat)],
{
    let digits = decimal_chars(port as u128);
    let mut r: Vec<String> = Vec::new();
    r.push(String::from_str("web"));
    r.push(String::from_str("--port"));
    r.push(string_of(digits.as_slice()));
    assert(string_views(r@) =~= seq!["web"@, "--port"@, decimal(port as nat)]);
    r
}

/// The arguments of `taskkill.exe` that force-stop the process `process_id` together with
/// every process it started.
pub fn taskkill_args(process_id: u32) -> (r: Vec<String>)
    ensures
        string_views(r@) == seq!["/PID"@, decimal(process_id as nat), "/T"@, "/F"@],
{
    let digits = decimal_chars(process_id as u128);
    let mut r: Vec<String> = Vec::new();
    r.push(String::from_str("/PID"));
    r.push(string_of(digits.as_slice()));
    r.push(String::from_str("/T"));
    r.push(String::from_str("/F"));
    assert(string_views(r@) =~= seq!["/PID"@, decimal(process_id as nat), "/T"@, "/F"@]);
    r
}

/// A Harness that was asked to stop never counts as exiting unexpectedly, whatever happens
/// before it exits short of a new start.
pub proof fn stopped_harness_exits_quietly(s: ProcessStateView)
    ensures
        !exit_is_unexpected(spec_stop(s)),
        !exit_is_unexpected(spec_mark_ready(spec_stop(s))),
        !exit_is_unexpected(spec_gone(spec_stop(s))),
{
}

/// A freshly started Harness that exits before it serves is a failed start, not an
/// unexpected exit; once it serves, an exit is unexpected.
pub proof fn only_ready_harness_exits_unexpectedly(process_id: u32, web_ui_url: Seq<char>)
    ensures
        !exit_is_unexpected(spec_started(process_id, web_ui_url)),
        exit_is_unexpected(spec_mark_ready(spec_started(process_id, web_ui_url))),
{
}

/// After a stop completes or the process exits, nothing is running and no process or address
/// is known.
pub proof fn gone_harness_is_forgotten(s: ProcessStateView)
    ensures
        !spec_gone(s).running,
        spec_gone(s).process_id is None,
        spec_gone(s).web_ui_url is None,
{
}

/// What waiting for a freshly started Harness does next, before it looks at the port.
#[derive(Debug, Clone, Copy, PartialEq, Eq, Structural)]
pub enum StartupCheck {
    /// See whether the Web UI port accepts connections: if so the Harness is ready, else wait
    /// a little and check again.
    Probe,
    /// The Harness exited before it served: fail with `EXITED_BEFORE_READY`.
    Exited,
    /// The deadline passed: stop the Harness and fail with `START_TIMED_OUT`.
    TimedOut,
}

/// Decides how waiting for the Harness goes on: after the deadline it has timed out; before,
/// a Harness that is no longer running has exited, and a running one is probed.
pub fn startup_check(within_timeout: bool, running: bool) -> (r: StartupCheck)
    ensures
        r == if !within_timeout {
            StartupCheck::TimedOut
        } else if !running {
            StartupCheck::Exited
        } else {
            StartupCheck::Probe
        },
{
    if !within_timeout {
        StartupCheck::TimedOut
    } else if !running {
        StartupCheck::Exited
    } else {
        StartupCheck::Probe
    }
}

/// A decimal digit character.
pub open spec fn is_decimal_digit(c: char) -> bool {
    '0' <= c && c <= '9'
}

/// The number that a string of decimal digits writes.
pub open spec fn digits_value(s: Seq<char>) -> int
    decreases s.len(),
{
    if s.len() == 0 {
        0
    } else {
        digits_value(s.drop_last()) * 10 + (s.last() as int - '0' as int)
    }
}

proof fn lemma_decimal_writes(n: nat)
    ensures
        decimal(n).len() >= 1,
        forall|i: int| 0 <= i < decimal(n).len() ==> is_decimal_digit(#[trigger] decimal(n)[i]),
        digits_value(decimal(n)) == n,
        n >= 1 ==> decimal(n)[0] != '0',
    decreases n,
{
    if n < 10 {
        assert(digit_char(n) as int == n + 48);
        assert(decimal(n) =~= seq![digit_char(n)]);
        assert(seq![digit_char(n)].drop_last() =~= Seq::<char>::empty());
        assert(digits_value(decimal(n)) == digits_value(Seq::<char>::empty()) * 10 + (digit_char(n) as int
            - '0' as int));
    } else {
        lemma_decimal_writes(n / 10);
        let d = digit_char(n % 10);
        assert(d as int == n % 10 + 48);
        let w = decimal(n / 10).push(d);
        assert(decimal(n) == w);
        assert(w.drop_last() =~= decimal(n / 10));
        assert(w[0] == decimal(n / 10)[0]);
        assert(n == (n / 10) * 10 + n % 10) by (nonlinear_arith);
        assert(w.last() == d);
        assert(digits_value(w) == digits_value(decimal(n / 10)) * 10 + (d as int - '0' as int));
        assert forall|i: int| 0 <= i < w.len() implies is_decimal_digit(#[trigger] w[i]) by {
            if i < w.len() - 1 {
                assert(w[i] == decimal(n / 10)[i]);
            }
        }
    }
}

/// The Web UI address is `http://127.0.0.1:`, the port written in decimal digits without
/// leading zeros, and `/`; those digits are the ones the Harness is told to serve on
/// (`harness_args`).
pub proof fn web_ui_url_names_the_port(port: u16)
    ensures
        ({
            let url = spec_web_ui_url_for(port);
            let head = "http://127.0.0.1:"@;
            let digits = url.subrange(head.len() as int, url.len() - 1);
            &&& url.len() > head.len() + 1
            &&& url.subrange(0, head.len() as int) == head
            &&& url.last() == '/'
            &&& forall|i: int| 0 <= i < digits.len() ==> is_decimal_digit(#[trigger] digits[i])
            &&& digits_value(digits) == port
            &&& (digits.len() > 1 ==> digits[0] != '0')
            &&& digits == decimal(port as nat)
        }),
{
    reveal_strlit("http://127.0.0.1:");
    reveal_strlit("/");
    lemma_decimal_writes(port as nat);
    let url = spec_web_ui_url_for(port);
    let head = "http://127.0.0.1:"@;
    let d = decimal(port as nat);
    assert(url == head + d + "/"@);
    assert(url.subrange(0, head.len() as int) =~= head);
    assert(url.subrange(head.len() as int, url.len() - 1) =~= d);
    if d.len() > 1 && port == 0 {
        assert(decimal(0) =~= seq![digit_char(0)]);
    }
}

} // verus!
