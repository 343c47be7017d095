//! The two managed services of the control panel: their status, their
//! bounded log, and what stopping or polling their process records.
use vstd::prelude::*;
use crate::text::{owned, decimal_text, decimal, concat2};

verus! {

/// The most log lines a panel keeps.
pub const MAX_LOG_LINES: usize = 500;

/// A managed service.
#[derive(Clone, Copy, Debug, PartialEq, Eq, Structural)]
pub enum ServiceId {
    CompanionCore,
    LiveTalking,
}

/// An opaque RGB colour.
#[derive(Clone, Copy, Debug, PartialEq, Eq, Structural)]
pub struct Rgb {
    pub r: u8,
    pub g: u8,
    pub b: u8,
}

/// The colour of an online or healthy state.
pub open spec fn green() -> Rgb {
    Rgb { r: 58, g: 201, b: 131 }
}

/// The colour of a starting or warning state.
pub open spec fn amber() -> Rgb {
    Rgb { r: 247, g: 196, b: 83 }
}

/// The colour of a port held by an outside process.
pub open spec fn blue() -> Rgb {
    Rgb { r: 92, g: 162, b: 255 }
}

/// The colour of a stopped or idle state.
pub open spec fn grey() -> Rgb {
    Rgb { r: 128, g: 139, b: 151 }
}

/// The colour of a failure.
pub open spec fn red() -> Rgb {
    Rgb { r: 236, g: 91, b: 110 }
}

/// One service as the control panel tracks it. `pid` is set while a process
/// that the panel started is running.
#[derive(Debug)]
pub struct ServerPanel {
    pub service: ServiceId,
    pub name: &'static str,
    pub description: &'static str,
    pub port: u16,
    pub url: String,
    pub command_hint: String,
    pub pid: Option<u32>,
    pub logs: std::collections::VecDeque<String>,
    pub listening: bool,
    pub last_exit: Option<String>,
}

/// The texts of log lines.
pub open spec fn lines_view(logs: Seq<String>) -> Seq<Seq<char>> {
    logs.map_values(|l: String| l@)
}

/// The log after appending a line: when it is full, the oldest line goes.
pub open spec fn log_after(logs: Seq<Seq<char>>, line: Seq<char>) -> Seq<Seq<char>> {
    if logs.len() >= MAX_LOG_LINES {
        logs.drop_first().push(line)
    } else {
        logs.push(line)
    }
}

/// The status word of a service: `Online` when the panel's process runs and
/// the port answers, `Starting` when only the process runs, `External` when
/// only the port answers, `Stopped` otherwise.
pub open spec fn status_word(running: bool, listening: bool) -> Seq<char> {
    if running && listening {
        "Online"@
    } else if running {
        "Starting"@
    } else if listening {
        "External"@
    } else {
        "Stopped"@
    }
}

/// The colour of the status word.
pub open spec fn status_rgb(running: bool, listening: bool) -> Rgb {
    if running && listening {
        green()
    } else if running {
        amber()
    } else if listening {
        blue()
    } else {
        grey()
    }
}

impl ServerPanel {
    /// The log holds at most `MAX_LOG_LINES` lines.
    pub open spec fn wf(&self) -> bool {
        self.logs@.len() <= MAX_LOG_LINES
    }

    /// A stopped panel with an empty log.
    pub fn new(
        service: ServiceId,
        name: &'static str,
        description: &'static str,
        port: u16,
        url: String,
        command_hint: String,
    ) -> (r: ServerPanel)
        ensures
            r.wf(),
            r.service == service,
            r.name == name,
            r.description == description,
            r.port == port,
            r.url@ == url@,
            r.command_hint@ == command_hint@,
            r.pid is None,
            r.logs@.len() == 0,
            !r.listening,
            r.last_exit is None,
    {
        ServerPanel {
            service,
            name,
            description,
            port,
            url,
            command_hint,
            pid: None,
            logs: std::collections::VecDeque::new(),
            listening: false,
            last_exit: None,
        }
    }

    /// Whether the panel's own process is running.
    pub fn is_running(&self) -> (r: bool)
        ensures
            r == (self.pid is Some),
    {
        self.pid.is_some()
    }

    /// Appends a log line, dropping the oldest line when the log is full.
    pub fn push_log(&mut self, line: String)
        requires
            old(self).wf(),
        ensures
            final(self).wf(),
            lines_view(final(self).logs@) == log_after(lines_view(old(self).logs@), line@),
            final(self).pid == old(self).pid,
            final(self).listening == old(self).listening,
            final(self).last_exit == old(self).last_exit,
            final(self).service == old(self).service,
            final(self).name == old(self).name,
            final(self).description == old(self).description,
            final(self).port == old(self).port,
            final(self).url == old(self).url,
            final(self).command_hint == old(self).command_hint,
    {
        if self.logs.len() >= MAX_LOG_LINES {
            self.logs.pop_front();
        }
        self.logs.push_back(line);
        assert(lines_view(self.logs@) =~= log_after(lines_view(old(self).logs@), line@));
    }

    /// The status word of the panel.
    pub fn status_label(&self) -> (r: &'static str)
        ensures
            r@ == status_word(self.pid is Some, self.listening),
    {
        if self.is_running() && self.listening {
            "Online"
        } else if self.is_running() {
            "Starting"
        } else if self.listening {
            "External"
        } else {
            "Stopped"
        }
    }

    /// The colour of the status word.
    pub fn status_color(&self) -> (r: Rgb)
        ensures
            r == status_rgb(self.pid is Some, self.listening),
    {
        if self.is_running() && self.listening {
            Rgb { r: 58, g: 201, b: 131 }
        } else if self.is_running() {
            Rgb { r: 247, g: 196, b: 83 }
        } else if self.listening {
            Rgb { r: 92, g: 162, b: 255 }
        } else {
            Rgb { r: 128, g: 139, b: 151 }
        }
    }
}

/// What the overview tiles show of a service.
#[derive(Debug)]
pub struct ServiceOverview {
    pub name: &'static str,
    pub port: u16,
    pub url: String,
    pub status_label: &'static str,
    pub status_color: Rgb,
    pub running: bool,
    pub listening: bool,
}

impl ServiceOverview {
    /// The overview of a panel.
    pub fn from(panel: &ServerPanel) -> (r: ServiceOverview)
        ensures
            r.name == panel.name,
            r.port == panel.port,
            r.url@ == panel.url@,
            r.status_label@ == status_word(panel.pid is Some, panel.listening),
            r.status_color == status_rgb(panel.pid is Some, panel.listening),
            r.running == (panel.pid is Some),
            r.listening == panel.listening,
    {
        ServiceOverview {
            name: panel.name,
            port: panel.port,
            url: panel.url.clone(),
            status_label: panel.status_label(),
            status_color: panel.status_color(),
            running: panel.is_running(),
            listening: panel.listening,
        }
    }
}

/// The status of the whole stack: `Running` when both services run under the
/// panel and answer, `Booting` when one runs under the panel, `EXTERNAL` when
/// only outside processes hold the ports, `Idle` otherwise.
pub open spec fn stack_word(companion: ServiceOverview, livetalking: ServiceOverview) -> (
    Seq<char>,
    Seq<char>,
    Rgb,
) {
    if companion.running && companion.listening && livetalking.running && livetalking.listening {
        ("Running"@, "both managed services are available"@, green())
    } else if companion.running || livetalking.running {
        ("Booting"@, "one or more services are starting"@, amber())
    } else if companion.listening || livetalking.listening {
        ("EXTERNAL"@, "ports are owned by external processes"@, blue())
    } else {
        ("Idle"@, "ready to launch the stack"@, grey())
    }
}

/// The status of the whole stack.
pub fn stack_status(companion: &ServiceOverview, livetalking: &ServiceOverview) -> (r: (
    &'static str,
    &'static str,
    Rgb,
))
    ensures
        (r.0@, r.1@, r.2) == stack_word(*companion, *livetalking),
{
    if companion.running && companion.listening && livetalking.running && livetalking.listening {
        ("Running", "both managed services are available", Rgb { r: 58, g: 201, b: 131 })
    } else if companion.running || livetalking.running {
        ("Booting", "one or more services are starting", Rgb { r: 247, g: 196, b: 83 })
    } else if companion.listening || livetalking.listening {
        ("EXTERNAL", "ports are owned by external processes", Rgb { r: 92, g: 162, b: 255 })
    } else {
        ("Idle", "ready to launch the stack", Rgb { r: 128, g: 139, b: 151 })
    }
}

/// Who holds a service's port, as the side rail words it.
pub fn ownership_label(panel: &ServiceOverview) -> (r: &'static str)
    ensures
        r@ == (if panel.running {
            "managed"@
        } else if panel.listening {
            "external"@
        } else {
            "idle"@
        }),
{
    if panel.running {
        "managed"
    } else if panel.listening {
        "external"
    } else {
        "idle"
    }
}

/// The panel's identity and its port reading are the same in both.
pub open spec fn identity_kept(before: ServerPanel, after: ServerPanel) -> bool {
    &&& after.service == before.service
    &&& after.name == before.name
    &&& after.description == before.description
    &&& after.port == before.port
    &&& after.url == before.url
    &&& after.command_hint == before.command_hint
    &&& after.listening == before.listening
}

/// What stopping does to a panel: no process any more; when one ran, a log
/// line names it and the reason becomes the last exit; otherwise the log and
/// the last exit stay. The identity and the port reading stay.
pub open spec fn stopped(before: ServerPanel, after: ServerPanel) -> bool {
    &&& identity_kept(before, after)
    &&& after.pid is None
    &&& match before.pid {
        Some(p) => {
            &&& lines_view(after.logs@) == log_after(
                lines_view(before.logs@),
                "Stopping process tree PID "@ + decimal(p as nat),
            )
            &&& after.last_exit matches Some(e) && e@ == "stopped by control panel"@
        },
        None => {
            &&& after.logs@ == before.logs@
            &&& after.last_exit == before.last_exit
        },
    }
}

/// Records that the panel's process is being stopped: a log line naming the
/// process, no process any more, and the reason as the last exit. Gives the
/// process id to terminate, or nothing when no process ran.
pub fn stop_panel_process(panel: &mut ServerPanel) -> (r: Option<u32>)
    requires
        old(panel).wf(),
    ensures
        final(panel).wf(),
        r == old(panel).pid,
        stopped(*old(panel), *final(panel)),
{
    match panel.pid {
        Some(pid) => {
            let d = decimal_text(pid as u128);
            let line = concat2("Stopping process tree PID ", d.as_str());
            panel.push_log(line);
            panel.pid = None;
            panel.last_exit = Some(owned("stopped by control panel"));
            Some(pid)
        },
        None => None,
    }
}

/// The least time between two probes of a service's port, in milliseconds.
pub const PORT_PROBE_INTERVAL_MS: u64 = 1000;

/// Whether a service's port is due to be probed again, given the
/// milliseconds since the last probe: once a second at most.
pub fn port_probe_due(since_last_probe_ms: u64) -> (r: bool)
    ensures
        r == (since_last_probe_ms >= PORT_PROBE_INTERVAL_MS),
{
    since_last_probe_ms >= PORT_PROBE_INTERVAL_MS
}

/// What polling a running process found.
#[derive(Debug)]
pub enum ProcessPoll {
    /// Still running.
    Running,
    /// Exited, with its exit status as text.
    Exited(String),
    /// Its status could not be read; the error as text.
    Failed(String),
}

/// What recording a poll does to a panel. The panel's identity and its
/// port reading stay. Without a process, or while the process still runs,
/// nothing else changes either; an exit or a status error ends the process,
/// becomes the last exit, and is appended to the log.
pub open spec fn polled(before: ServerPanel, after: ServerPanel, poll: ProcessPoll) -> bool {
    &&& identity_kept(before, after)
    &&& before.pid is None ==> after.pid is None && after.logs@ == before.logs@
        && after.last_exit == before.last_exit
    &&& before.pid is Some ==> match poll {
        ProcessPoll::Running => {
            &&& after.pid == before.pid
            &&& after.logs@ == before.logs@
            &&& after.last_exit == before.last_exit
        },
        ProcessPoll::Exited(s) => {
            &&& after.pid is None
            &&& after.last_exit matches Some(e) && e@ == "exited with "@ + s@
            &&& lines_view(after.logs@) == log_after(lines_view(before.logs@), "Process exited with "@ + s@)
        },
        ProcessPoll::Failed(s) => {
            &&& after.pid is None
            &&& after.last_exit matches Some(e) && e@ == "process status error: "@ + s@
            &&& lines_view(after.logs@) == log_after(
                lines_view(before.logs@),
                "Process status error: "@ + s@,
            )
        },
    }
}

/// Records what polling the panel's process found: an exit or a status error
/// ends the process, is logged, and becomes the last exit.
pub fn poll_panel_process(panel: &mut ServerPanel, poll: ProcessPoll)
    requires
        old(panel).wf(),
    ensures
        final(panel).wf(),
        polled(*old(panel), *final(panel), poll),
{
    if panel.pid.is_none() {
        return;
    }
    match poll {
        ProcessPoll::Running => {},
        ProcessPoll::Exited(status) => {
            panel.last_exit = Some(concat2("exited with ", status.as_str()));
            panel.push_log(concat2("Process exited with ", status.as_str()));
            panel.pid = None;
        },
        ProcessPoll::Failed(error) => {
            panel.last_exit = Some(concat2("process status error: ", error.as_str()));
            panel.push_log(concat2("Process status error: ", error.as_str()));
            panel.pid = None;
        },
    }
}

/// The log after a line is appended is the last `MAX_LOG_LINES` lines of
/// the old log followed by the new line.
pub proof fn lemma_log_keeps_last(logs: Seq<Seq<char>>, line: Seq<char>)
    requires
        logs.len() <= MAX_LOG_LINES,
    ensures
        log_after(logs, line).len() <= MAX_LOG_LINES,
        log_after(logs, line).last() == line,
        log_after(logs, line) == (if logs.push(line).len() > MAX_LOG_LINES {
            logs.push(line).skip(logs.push(line).len() - MAX_LOG_LINES)
        } else {
            logs.push(line)
        }),
{
    if logs.len() >= MAX_LOG_LINES {
        assert(logs.drop_first().push(line) =~= logs.push(line).skip(1));
    }
}


/// The stack reads `Running` only when both services run under the panel
/// and both answer on their ports; while a managed service runs and that is
/// not so, it reads `Booting`; with no managed service running it reads
/// `EXTERNAL` when a port answers and `Idle` otherwise.
pub proof fn lemma_stack_running_needs_both_answering(c: ServiceOverview, l: ServiceOverview)
    ensures
        stack_word(c, l).0 == "Running"@ <==> (c.running && c.listening && l.running && l.listening),
        (c.running || l.running) && !(c.listening && l.listening && c.running && l.running) ==> stack_word(
            c,
            l,
        ) == ("Booting"@, "one or more services are starting"@, amber()),
        !c.running && !l.running ==> stack_word(c, l).0 == (if c.listening || l.listening {
            "EXTERNAL"@
        } else {
            "Idle"@
        }),
{
    reveal_strlit("Running");
    reveal_strlit("Booting");
    reveal_strlit("EXTERNAL");
    reveal_strlit("Idle");
    assert("Running"@.len() != "Booting"@.len() || "Running"@[0] != "Booting"@[0]);
    assert("Running"@ != "Booting"@);
    assert("Running"@ != "EXTERNAL"@);
    assert("Running"@ != "Idle"@);
}

} // verus!
