//! The control panel's state and its transitions: starting and stopping the
//! services, the diagnostics run, and the chat thread with its streamed
//! replies. Each transition returns what the caller must do outside (spawn
//! a process, send a message, terminate a process).
use vstd::prelude::*;
use crate::chat::{
    ChatMessage, ChatRole, ChatStreamState, ChatCompletion, PersistedChatState, is_default_thread,
    is_fresh_session_id, new_chat_session_id, default_chat_messages,
    format_chat_completion_meta, completion_meta,
};
use crate::config::opt_view;
use crate::diagnostics::DiagnosticItem;
use crate::launcher_config::LlmConfigSummary;
use crate::panel::{
    ServerPanel, ServiceId, ProcessPoll, lines_view, log_after, stop_panel_process,
    poll_panel_process, polled, stopped, identity_kept,
};
use crate::text::{
    trim, is_blank, decimal, owned, push_str, concat2, trim_text, is_blank_text, decimal_text,
};

verus! {

/// The most messages a thread keeps.
pub const MAX_CHAT_MESSAGES: usize = 48;

/// The page the control panel shows.
#[derive(Clone, Copy, Debug, PartialEq, Eq, Structural)]
pub enum AppPage {
    Dashboard,
    Chat,
}

/// The state of the control panel.
#[derive(Debug)]
pub struct ControlPanelApp {
    pub current_page: AppPage,
    pub companion: ServerPanel,
    pub livetalking: ServerPanel,
    pub diagnostics: Vec<DiagnosticItem>,
    pub diagnostics_running: bool,
    pub diagnostics_message: String,
    pub llm_config: LlmConfigSummary,
    pub chat_session_id: String,
    pub chat_input: String,
    pub chat_messages: Vec<ChatMessage>,
    pub chat_running: bool,
    pub chat_stream: Option<ChatStreamState>,
    pub last_error: Option<String>,
}

/// The last `n` elements of a sequence (all of it when shorter).
pub open spec fn keep_last<A>(s: Seq<A>, n: nat) -> Seq<A> {
    if s.len() > n {
        s.skip(s.len() - n)
    } else {
        s
    }
}

/// Whether an autostart setting asks to start everything: `1`, `true`,
/// `TRUE`, `yes` or `YES` after trimming.
pub open spec fn autostart_value(v: Option<Seq<char>>) -> bool {
    match v {
        Some(s) => {
            let t = trim(s);
            t == "1"@ || t == "true"@ || t == "TRUE"@ || t == "yes"@ || t == "YES"@
        },
        None => false,
    }
}

/// Reads the autostart setting.
pub fn autostart_requested(value: Option<String>) -> (r: bool)
    ensures
        r == autostart_value(opt_view(value)),
{
    match value {
        Some(v) => {
            let t = trim_text(v.as_str());
            t == owned("1") || t == owned("true") || t == owned("TRUE") || t == owned("yes") || t
                == owned("YES")
        },
        None => false,
    }
}

/// How far a reveal goes per step: two characters for short replies, four
/// for medium ones, seven for long ones.
pub open spec fn chars_per_step(total: usize) -> nat {
    if total <= 72 {
        2
    } else if total <= 180 {
        4
    } else {
        7
    }
}

/// The reveal after `elapsed_ms` milliseconds: one step per 18 ms, capped at
/// the reply's length.
pub open spec fn revealed_after(s: ChatStreamState, elapsed_ms: u64) -> nat {
    let steps = elapsed_ms / 18;
    let next = s.revealed_chars + steps * chars_per_step(s.total_chars);
    if next <= s.total_chars {
        next as nat
    } else {
        s.total_chars as nat
    }
}

impl ControlPanelApp {
    /// Both panels keep bounded logs.
    pub open spec fn wf(&self) -> bool {
        self.companion.wf() && self.livetalking.wf()
    }

    /// The panel of a service.
    pub open spec fn panel(&self, service: ServiceId) -> ServerPanel {
        match service {
            ServiceId::CompanionCore => self.companion,
            ServiceId::LiveTalking => self.livetalking,
        }
    }

    /// The same state with `service`'s panel replaced by `p`.
    pub open spec fn with_panel(self, service: ServiceId, p: ServerPanel) -> ControlPanelApp {
        match service {
            ServiceId::CompanionCore => ControlPanelApp { companion: p, ..self },
            ServiceId::LiveTalking => ControlPanelApp { livetalking: p, ..self },
        }
    }

    /// A reply is requested or being revealed.
    pub open spec fn spec_busy(&self) -> bool {
        self.chat_running || self.chat_stream is Some
    }

    /// The panel as it opens: the chat page, both services stopped, no
    /// diagnostics yet, and the saved thread.
    pub fn new(llm_config: LlmConfigSummary, persisted: PersistedChatState) -> (r: ControlPanelApp)
        ensures
            r.wf(),
            r.current_page == AppPage::Chat,
            r.companion.service == ServiceId::CompanionCore,
            r.companion.name@ == "companion-core"@,
            r.companion.port == 8787,
            r.companion.url@ == "http://127.0.0.1:8787/health"@,
            r.companion.command_hint@ == "cargo run --bin companion-core"@,
            r.companion.description@ == "Persona, memory, and chat routing sidecar"@,
            r.companion.last_exit is None,
            r.companion.pid is None && !r.companion.listening && r.companion.logs@.len() == 0,
            r.livetalking.service == ServiceId::LiveTalking,
            r.livetalking.name@ == "LiveTalking"@,
            r.livetalking.port == 8010,
            r.livetalking.url@ == "http://127.0.0.1:8010/index.html"@,
            r.livetalking.command_hint@
                == "python app.py --transport webrtc --model wav2lip --avatar_id wav2lip256_avatar1 --listenport 8010"@,
            r.livetalking.description@ == "WebRTC digital human renderer"@,
            r.livetalking.last_exit is None,
            r.livetalking.pid is None && !r.livetalking.listening && r.livetalking.logs@.len() == 0,
            r.diagnostics@.len() == 0,
            !r.diagnostics_running,
            r.diagnostics_message@ == "Diagnostics have not run yet."@,
            r.llm_config == llm_config,
            r.chat_session_id@ == persisted.session_id@,
            r.chat_input@.len() == 0,
            r.chat_messages@ == persisted.messages@,
            !r.chat_running,
            r.chat_stream is None,
            r.last_error is None,
    {
        ControlPanelApp {
            current_page: AppPage::Chat,
            companion: ServerPanel::new(
                ServiceId::CompanionCore,
                "companion-core",
                "Persona, memory, and chat routing sidecar",
                8787,
                owned("http://127.0.0.1:8787/health"),
                owned("cargo run --bin companion-core"),
            ),
            livetalking: ServerPanel::new(
                ServiceId::LiveTalking,
                "LiveTalking",
                "WebRTC digital human renderer",
                8010,
                owned("http://127.0.0.1:8010/index.html"),
                owned(
                    "python app.py --transport webrtc --model wav2lip --avatar_id wav2lip256_avatar1 --listenport 8010",
                ),
            ),
            diagnostics: Vec::new(),
            diagnostics_running: false,
            diagnostics_message: owned("Diagnostics have not run yet."),
            llm_config,
            chat_session_id: persisted.session_id,
            chat_input: String::new(),
            chat_messages: persisted.messages,
            chat_running: false,
            chat_stream: None,
            last_error: None,
        }
    }

    /// Appends a log line to a service's panel.
    pub fn push_service_log(&mut self, service: ServiceId, line: String)
        requires
            old(self).wf(),
        ensures
            final(self).wf(),
            lines_view(final(self).panel(service).logs@) == log_after(
                lines_view(old(self).panel(service).logs@),
                line@,
            ),
            final(self).panel(service).pid == old(self).panel(service).pid,
            final(self).panel(service).last_exit == old(self).panel(service).last_exit,
            identity_kept(old(self).panel(service), final(self).panel(service)),
            *final(self) == (old(self).with_panel(service, final(self).panel(service))),
    {
        match service {
            ServiceId::CompanionCore => self.companion.push_log(line),
            ServiceId::LiveTalking => self.livetalking.push_log(line),
        }
    }

    /// The first step of starting a service. Clears the last error. A
    /// service already started by the panel needs nothing. A missing
    /// target (the sidecar's directory, LiveTalking's `app.py`) or a port
    /// held by an outside process becomes the last error. Otherwise the
    /// start is logged and the caller is to spawn the process.
    pub fn start_service(&mut self, service: ServiceId, target_exists: bool, target_display: &str) -> (spawn: bool)
        requires
            old(self).wf(),
        ensures
            final(self).wf(),
            spawn == (old(self).panel(service).pid is None && target_exists
                && !old(self).panel(service).listening),
            final(self).panel(service).pid == old(self).panel(service).pid,
            old(self).panel(service).pid is Some ==> final(self).last_error is None,
            old(self).panel(service).pid is None && !target_exists ==> (final(self).last_error matches Some(e)
                && e@ == (match service {
                ServiceId::CompanionCore => "companion-core directory not found: "@,
                ServiceId::LiveTalking => "LiveTalking app.py not found: "@,
            }) + target_display@),
            old(self).panel(service).pid is None && target_exists && old(self).panel(service).listening
                ==> (final(self).last_error matches Some(e) && e@ == (match service {
                ServiceId::CompanionCore => "port 8787 is already in use; stop the external companion-core process first"@,
                ServiceId::LiveTalking => "port 8010 is already in use; stop the external LiveTalking process first"@,
            })),
            spawn ==> {
                &&& final(self).last_error is None
                &&& final(self).panel(service).last_exit is None
                &&& lines_view(final(self).panel(service).logs@) == log_after(
                    lines_view(old(self).panel(service).logs@),
                    "Starting: "@ + old(self).panel(service).command_hint@,
                )
            },
            !spawn ==> final(self).panel(service) == old(self).panel(service),
            identity_kept(old(self).panel(service), final(self).panel(service)),
            *final(self) == (ControlPanelApp {
                last_error: final(self).last_error,
                ..old(self).with_panel(service, final(self).panel(service))
            }),
    {
        self.last_error = None;
        let (running, listening) = match service {
            ServiceId::CompanionCore => (self.companion.is_running(), self.companion.listening),
            ServiceId::LiveTalking => (self.livetalking.is_running(), self.livetalking.listening),
        };
        if running {
            return false;
        }
        if !target_exists {
            let msg = match service {
                ServiceId::CompanionCore => "companion-core directory not found: ",
                ServiceId::LiveTalking => "LiveTalking app.py not found: ",
            };
            self.last_error = Some(concat2(msg, target_display));
            return false;
        }
        if listening {
            let msg = match service {
                ServiceId::CompanionCore => "port 8787 is already in use; stop the external companion-core process first",
                ServiceId::LiveTalking => "port 8010 is already in use; stop the external LiveTalking process first",
            };
            self.last_error = Some(owned(msg));
            return false;
        }
        match service {
            ServiceId::CompanionCore => {
                self.companion.last_exit = None;
                let line = concat2("Starting: ", self.companion.command_hint.as_str());
                self.companion.push_log(line);
            },
            ServiceId::LiveTalking => {
                self.livetalking.last_exit = None;
                let line = concat2("Starting: ", self.livetalking.command_hint.as_str());
                self.livetalking.push_log(line);
            },
        }
        true
    }

    /// The second step of starting a service: a spawned process is recorded
    /// and logged; a failed spawn becomes the last error.
    pub fn finish_start(&mut self, service: ServiceId, spawned: Result<u32, String>)
        requires
            old(self).wf(),
        ensures
            final(self).wf(),
            match spawned {
                Ok(pid) => {
                    &&& final(self).panel(service).pid == Some(pid)
                    &&& lines_view(final(self).panel(service).logs@) == log_after(
                        lines_view(old(self).panel(service).logs@),
                        "Process started with PID "@ + decimal(pid as nat),
                    )
                    &&& final(self).last_error == old(self).last_error
                },
                Err(e) => {
                    &&& final(self).panel(service).pid == old(self).panel(service).pid
                    &&& final(self).panel(service).logs@ == old(self).panel(service).logs@
                    &&& final(self).last_error matches Some(m) && m@ == "failed to start "@
                        + old(self).panel(service).name@ + ": "@ + e@
                },
            },
            spawned is Err ==> final(self).panel(service) == old(self).panel(service),
            final(self).panel(service).last_exit == old(self).panel(service).last_exit,
            identity_kept(old(self).panel(service), final(self).panel(service)),
            *final(self) == (ControlPanelApp {
                last_error: final(self).last_error,
                ..old(self).with_panel(service, final(self).panel(service))
            }),
    {
        match spawned {
            Ok(pid) => {
                let d = decimal_text(pid as u128);
                let line = concat2("Process started with PID ", d.as_str());
                match service {
                    ServiceId::CompanionCore => {
                        self.companion.push_log(line);
                        self.companion.pid = Some(pid);
                    },
                    ServiceId::LiveTalking => {
                        self.livetalking.push_log(line);
                        self.livetalking.pid = Some(pid);
                    },
                }
            },
            Err(e) => {
                let name = match service {
                    ServiceId::CompanionCore => self.companion.name,
                    ServiceId::LiveTalking => self.livetalking.name,
                };
                let mut m = concat2("failed to start ", name);
                push_str(&mut m, ": ");
                push_str(&mut m, e.as_str());
                self.last_error = Some(m);
            },
        }
    }

    /// Stops a service's process: gives the process id to terminate.
    pub fn stop_service(&mut self, service: ServiceId) -> (r: Option<u32>)
        requires
            old(self).wf(),
        ensures
            final(self).wf(),
            r == old(self).panel(service).pid,
            stopped(old(self).panel(service), final(self).panel(service)),
            *final(self) == (old(self).with_panel(service, final(self).panel(service))),
    {
        match service {
            ServiceId::CompanionCore => stop_panel_process(&mut self.companion),
            ServiceId::LiveTalking => stop_panel_process(&mut self.livetalking),
        }
    }

    /// Stops both services: gives the process ids to terminate.
    pub fn stop_all(&mut self) -> (r: (Option<u32>, Option<u32>))
        requires
            old(self).wf(),
        ensures
            final(self).wf(),
            r.0 == old(self).companion.pid,
            r.1 == old(self).livetalking.pid,
            stopped(old(self).companion, final(self).companion),
            stopped(old(self).livetalking, final(self).livetalking),
            *final(self) == (ControlPanelApp {
                companion: final(self).companion,
                livetalking: final(self).livetalking,
                ..*old(self)
            }),
    {
        let a = stop_panel_process(&mut self.companion);
        let b = stop_panel_process(&mut self.livetalking);
        (a, b)
    }

    /// Records what polling a service's process found, on that service's
    /// panel alone.
    pub fn poll_service(&mut self, service: ServiceId, poll: ProcessPoll)
        requires
            old(self).wf(),
        ensures
            final(self).wf(),
            polled(old(self).panel(service), final(self).panel(service), poll),
            *final(self) == (old(self).with_panel(service, final(self).panel(service))),
    {
        match service {
            ServiceId::CompanionCore => poll_panel_process(&mut self.companion, poll),
            ServiceId::LiveTalking => poll_panel_process(&mut self.livetalking, poll),
        }
    }

    /// Empties a service's log.
    pub fn clear_service_logs(&mut self, service: ServiceId)
        requires
            old(self).wf(),
        ensures
            final(self).wf(),
            final(self).panel(service).logs@.len() == 0,
            final(self).panel(service).pid == old(self).panel(service).pid,
            final(self).panel(service).last_exit == old(self).panel(service).last_exit,
            identity_kept(old(self).panel(service), final(self).panel(service)),
            *final(self) == (old(self).with_panel(service, final(self).panel(service))),
    {
        match service {
            ServiceId::CompanionCore => self.companion.logs.clear(),
            ServiceId::LiveTalking => self.livetalking.logs.clear(),
        }
    }

    /// Starts a diagnostics run unless one is running; says whether the
    /// caller is to run the checks.
    pub fn run_diagnostics(&mut self) -> (start: bool)
        requires
            old(self).wf(),
        ensures
            final(self).wf(),
            start == !old(self).diagnostics_running,
            final(self).diagnostics_running,
            start ==> final(self).diagnostics@.len() == 0
                && final(self).diagnostics_message@ == "Diagnostics are running..."@,
            !start ==> *final(self) == *old(self),
            *final(self) == (ControlPanelApp {
                diagnostics: final(self).diagnostics,
                diagnostics_running: final(self).diagnostics_running,
                diagnostics_message: final(self).diagnostics_message,
                ..*old(self)
            }),
    {
        if self.diagnostics_running {
            return false;
        }
        self.diagnostics_running = true;
        self.diagnostics_message = owned("Diagnostics are running...");
        self.diagnostics.clear();
        true
    }

    /// Takes the finished checks.
    pub fn drain_diagnostics(&mut self, items: Vec<DiagnosticItem>)
        requires
            old(self).wf(),
        ensures
            final(self).wf(),
            final(self).diagnostics@ == items@,
            !final(self).diagnostics_running,
            final(self).diagnostics_message@ == "Diagnostics completed."@,
            *final(self) == (ControlPanelApp {
                diagnostics: final(self).diagnostics,
                diagnostics_running: final(self).diagnostics_running,
                diagnostics_message: final(self).diagnostics_message,
                ..*old(self)
            }),
    {
        self.diagnostics = items;
        self.diagnostics_running = false;
        self.diagnostics_message = owned("Diagnostics completed.");
    }

    /// Appends a message to the thread, keeping the last 48.
    pub fn push_chat_message(&mut self, message: ChatMessage)
        requires
            old(self).wf(),
        ensures
            final(self).wf(),
            final(self).chat_messages@ == keep_last(
                old(self).chat_messages@.push(message),
                MAX_CHAT_MESSAGES as nat,
            ),
            final(self).chat_session_id == old(self).chat_session_id,
            final(self).chat_stream == old(self).chat_stream,
            final(self).chat_running == old(self).chat_running,
            final(self).chat_input == old(self).chat_input,
            final(self).companion == old(self).companion,
            final(self).livetalking == old(self).livetalking,
            *final(self) == (ControlPanelApp { chat_messages: final(self).chat_messages, ..*old(self) }),
    {
        self.chat_messages.push(message);
        if self.chat_messages.len() > MAX_CHAT_MESSAGES {
            let overflow = self.chat_messages.len() - MAX_CHAT_MESSAGES;
            let kept = self.chat_messages.split_off(overflow);
            self.chat_messages = kept;
        }
    }

    /// Starts a new thread: a fresh session id, an empty draft, and the
    /// default greeting.
    pub fn reset_chat_thread(&mut self)
        requires
            old(self).wf(),
        ensures
            final(self).wf(),
            final(self).chat_stream is None,
            is_fresh_session_id(final(self).chat_session_id@),
            final(self).chat_input@.len() == 0,
            is_default_thread(final(self).chat_messages@, old(self).llm_config, final(self).chat_session_id@),
            *final(self) == (ControlPanelApp {
                chat_stream: final(self).chat_stream,
                chat_session_id: final(self).chat_session_id,
                chat_input: final(self).chat_input,
                chat_messages: final(self).chat_messages,
                ..*old(self)
            }),
    {
        self.chat_stream = None;
        self.chat_session_id = new_chat_session_id();
        self.chat_input = String::new();
        self.chat_messages = default_chat_messages(&self.llm_config, self.chat_session_id.as_str());
    }

    /// Starts revealing the message at `message_index`; a missing or empty
    /// message is not revealed.
    pub fn start_chat_stream(&mut self, message_index: usize)
        requires
            old(self).wf(),
        ensures
            final(self).wf(),
            final(self).chat_messages == old(self).chat_messages,
            final(self).chat_running == old(self).chat_running,
            final(self).chat_session_id == old(self).chat_session_id,
            ({
                let total = if message_index < old(self).chat_messages@.len() {
                    old(self).chat_messages@[message_index as int].content@.len()
                } else {
                    0
                };
                &&& total == 0 ==> final(self).chat_stream is None
                &&& total > 0 ==> final(self).chat_stream == Some(
                    ChatStreamState { message_index, revealed_chars: 0, total_chars: total as usize },
                )
            }),
            *final(self) == (ControlPanelApp { chat_stream: final(self).chat_stream, ..*old(self) }),
    {
        let total_chars = if message_index < self.chat_messages.len() {
            self.chat_messages[message_index].content.as_str().unicode_len()
        } else {
            0
        };
        if total_chars == 0 {
            self.chat_stream = None;
            return;
        }
        self.chat_stream = Some(
            ChatStreamState { message_index, revealed_chars: 0, total_chars },
        );
    }

    /// Advances the reveal by the time since the last step. A reveal of a
    /// message that is gone ends. Under 18 ms nothing moves; otherwise one
    /// step per 18 ms goes by, and a complete reveal ends. Says whether a
    /// step was taken (and so whether the step clock restarts).
    pub fn advance_chat_stream(&mut self, elapsed_ms: u64) -> (stepped: bool)
        requires
            old(self).wf(),
        ensures
            final(self).wf(),
            final(self).chat_messages == old(self).chat_messages,
            *final(self) == (ControlPanelApp { chat_stream: final(self).chat_stream, ..*old(self) }),
            match old(self).chat_stream {
                None => !stepped && final(self).chat_stream is None,
                Some(s) => if s.message_index >= old(self).chat_messages@.len() {
                    !stepped && final(self).chat_stream is None
                } else if elapsed_ms < 18 {
                    !stepped && final(self).chat_stream == old(self).chat_stream
                } else {
                    &&& stepped
                    &&& revealed_after(s, elapsed_ms) >= s.total_chars ==> final(self).chat_stream is None
                    &&& revealed_after(s, elapsed_ms) < s.total_chars ==> final(self).chat_stream == Some(
                        ChatStreamState {
                            message_index: s.message_index,
                            revealed_chars: revealed_after(s, elapsed_ms) as usize,
                            total_chars: s.total_chars,
                        },
                    )
                },
            },
    {
        let stream = match self.chat_stream {
            Some(s) => s,
            None => {
                return false;
            },
        };
        if stream.message_index >= self.chat_messages.len() {
            self.chat_stream = None;
            return false;
        }
        if elapsed_ms < 18 {
            return false;
        }
        let steps: u64 = elapsed_ms / 18;
        let per_step: u64 = if stream.total_chars <= 72 {
            2
        } else if stream.total_chars <= 180 {
            4
        } else {
            7
        };
        // The advance is computed wide, so any elapsed time is taken.
        assert(steps * per_step <= 0xffff_ffff_ffff_ffff * 7) by (nonlinear_arith)
            requires
                per_step <= 7,
                steps <= 0xffff_ffff_ffff_ffff,
        ;
        let advance: u128 = (steps as u128) * (per_step as u128);
        let revealed: usize = if stream.revealed_chars >= stream.total_chars {
            stream.total_chars
        } else if advance <= (stream.total_chars - stream.revealed_chars) as u128 {
            stream.revealed_chars + advance as usize
        } else {
            stream.total_chars
        };
        assert(revealed == revealed_after(stream, elapsed_ms));
        if revealed >= stream.total_chars {
            self.chat_stream = None;
        } else {
            self.chat_stream = Some(
                ChatStreamState {
                    message_index: stream.message_index,
                    revealed_chars: revealed,
                    total_chars: stream.total_chars,
                },
            );
        }
        true
    }

    /// How long to wait before drawing again: 33 ms on the chat page while a
    /// reply is under way or a draft is typed, so the reveal and the composer
    /// animate; 500 ms otherwise.
    pub fn repaint_interval_ms(&self) -> (r: u64)
        ensures
            r == (if self.current_page == AppPage::Chat && (self.spec_busy() || !is_blank(
                self.chat_input@,
            )) {
                33u64
            } else {
                500u64
            }),
    {
        let chat_page = match self.current_page {
            AppPage::Chat => true,
            AppPage::Dashboard => false,
        };
        if chat_page && (self.chat_busy() || !is_blank_text(self.chat_input.as_str())) {
            33
        } else {
            500
        }
    }

    /// Whether a reply is requested or being revealed.
    pub fn chat_busy(&self) -> (r: bool)
        ensures
            r == self.spec_busy(),
    {
        self.chat_running || self.chat_stream.is_some()
    }

    /// Sends the draft when the thread is idle and the draft is not blank.
    /// Without a running sidecar a system note says to start it. Otherwise the
    /// trimmed draft becomes a user message, the draft is cleared and a reply
    /// is awaited; the caller is to post the returned text.
    pub fn send_chat_message(&mut self) -> (sent: Option<String>)
        requires
            old(self).wf(),
        ensures
            final(self).wf(),
            old(self).spec_busy() || is_blank(old(self).chat_input@) ==> sent is None && *final(self)
                == *old(self),
            !old(self).spec_busy() && !is_blank(old(self).chat_input@) && !old(self).companion.listening
                ==> {
                &&& sent is None
                &&& final(self).chat_messages@ == keep_last(
                    old(self).chat_messages@.push(final(self).chat_messages@.last()),
                    MAX_CHAT_MESSAGES as nat,
                )
                &&& final(self).chat_messages@.last().role == ChatRole::System
                &&& final(self).chat_messages@.last().content@
                    == "Start companion-core first. This workspace sends messages through http://127.0.0.1:8787/chat."@
                &&& final(self).chat_messages@.last().meta is None
                &&& final(self).chat_input == old(self).chat_input
                &&& final(self).chat_running == old(self).chat_running
                &&& *final(self) == (ControlPanelApp { chat_messages: final(self).chat_messages, ..*old(self) })
            },
            !old(self).spec_busy() && !is_blank(old(self).chat_input@) && old(self).companion.listening
                ==> {
                &&& sent matches Some(p) && p@ == trim(old(self).chat_input@)
                &&& final(self).chat_messages@ == keep_last(
                    old(self).chat_messages@.push(final(self).chat_messages@.last()),
                    MAX_CHAT_MESSAGES as nat,
                )
                &&& final(self).chat_messages@.last().role == ChatRole::User
                &&& final(self).chat_messages@.last().content@ == trim(old(self).chat_input@)
                &&& final(self).chat_messages@.last().meta is None
                &&& final(self).chat_input@.len() == 0
                &&& final(self).chat_running
                &&& final(self).chat_stream is None
                &&& *final(self) == (ControlPanelApp {
                    chat_messages: final(self).chat_messages,
                    chat_input: final(self).chat_input,
                    chat_running: final(self).chat_running,
                    chat_stream: final(self).chat_stream,
                    ..*old(self)
                })
            },
            final(self).chat_session_id == old(self).chat_session_id,
    {
        if self.chat_busy() {
            return None;
        }
        let prompt = trim_text(self.chat_input.as_str());
        if prompt.as_str().unicode_len() == 0 {
            return None;
        }
        if !self.companion.listening {
            let note = ChatMessage::system(
                owned(
                    "Start companion-core first. This workspace sends messages through http://127.0.0.1:8787/chat.",
                ),
            );
            self.push_chat_message(note);
            return None;
        }
        let for_thread = prompt.clone();
        self.push_chat_message(ChatMessage::user(for_thread));
        self.chat_input = String::new();
        self.chat_running = true;
        self.chat_stream = None;
        Some(prompt)
    }

    /// Takes the outcome of a chat request. A reply (or a note that there was
    /// none) is appended with its meta line and starts revealing; a failure
    /// is appended as a system note.
    pub fn drain_chat_results(&mut self, outcome: Result<ChatCompletion, String>)
        requires
            old(self).wf(),
        ensures
            final(self).wf(),
            !final(self).chat_running,
            final(self).chat_session_id == old(self).chat_session_id,
            final(self).chat_messages@ == keep_last(
                old(self).chat_messages@.push(final(self).chat_messages@.last()),
                MAX_CHAT_MESSAGES as nat,
            ),
            match outcome {
                Ok(c) => {
                    &&& final(self).chat_messages@.last().role == ChatRole::Assistant
                    &&& final(self).chat_messages@.last().content@ == (if is_blank(c.reply@) {
                        "No reply text returned by companion-core."@
                    } else {
                        c.reply@
                    })
                    &&& opt_view(final(self).chat_messages@.last().meta) == Some(
                        completion_meta(c.source@, opt_view(c.detail)),
                    )
                    &&& old(self).chat_messages@.len() < MAX_CHAT_MESSAGES ==> final(self).chat_stream
                        == Some(
                        ChatStreamState {
                            message_index: old(self).chat_messages@.len() as usize,
                            revealed_chars: 0,
                            total_chars: final(self).chat_messages@.last().content@.len() as usize,
                        },
                    )
                    &&& old(self).chat_messages@.len() >= MAX_CHAT_MESSAGES ==> final(self).chat_stream is None
                },
                Err(e) => {
                    &&& final(self).chat_messages@.last().role == ChatRole::System
                    &&& final(self).chat_messages@.last().content@ == "Chat request failed. "@ + e@
                    &&& final(self).chat_messages@.last().meta is None
                    &&& final(self).chat_stream == old(self).chat_stream
                },
            },
            *final(self) == (ControlPanelApp {
                chat_messages: final(self).chat_messages,
                chat_running: final(self).chat_running,
                chat_stream: final(self).chat_stream,
                ..*old(self)
            }),
    {
        self.chat_running = false;
        match outcome {
            Ok(completion) => {
                let meta = format_chat_completion_meta(&completion);
                let reply = if is_blank_text(completion.reply.as_str()) {
                    owned("No reply text returned by companion-core.")
                } else {
                    completion.reply
                };
                proof {
                    reveal_strlit("No reply text returned by companion-core.");
                }
                assert(reply@.len() > 0);
                let message_index = self.chat_messages.len();
                let ghost before = self.chat_messages@;
                self.push_chat_message(ChatMessage::assistant(reply, Some(meta)));
                let ghost msgs = self.chat_messages@;
                proof {
                    lemma_thread_keeps_last(before, msgs.last());
                    if before.len() < MAX_CHAT_MESSAGES {
                        assert(msgs == before.push(msgs.last()));
                        assert(msgs[message_index as int] == msgs.last());
                    }
                }
                self.start_chat_stream(message_index);
                assert(self.chat_messages@ == msgs);
            },
            Err(error) => {
                let text = concat2("Chat request failed. ", error.as_str());
                self.push_chat_message(ChatMessage::system(text));
            },
        }
    }
}

/// The platforms whose font folders are known.
#[derive(Clone, Copy, Debug, PartialEq, Eq, Structural)]
pub enum FontPlatform {
    Windows,
    MacOs,
    Other,
}

/// Font files with CJK glyphs to try, in order. On Windows they are in the
/// `Fonts` folder of `WINDIR` (or `C:\Windows`).
pub fn preferred_cjk_font_paths(platform: FontPlatform, windir: Option<String>) -> (r: Vec<String>)
    ensures
        platform == FontPlatform::Windows ==> {
            let dir = crate::paths::path_join(
                match windir {
                    Some(w) => w@,
                    None => "C:\\Windows"@,
                },
                "Fonts"@,
            );
            &&& r@.len() == 3
            &&& r@[0]@ == crate::paths::path_join(dir, "Deng.ttf"@)
            &&& r@[1]@ == crate::paths::path_join(dir, "simhei.ttf"@)
            &&& r@[2]@ == crate::paths::path_join(dir, "simkai.ttf"@)
        },
        platform == FontPlatform::MacOs ==> {
            &&& r@.len() == 2
            &&& r@[0]@ == "/System/Library/Fonts/PingFang.ttc"@
            &&& r@[1]@ == "/System/Library/Fonts/Hiragino Sans GB.ttc"@
        },
        platform == FontPlatform::Other ==> {
            &&& r@.len() == 3
            &&& r@[0]@ == "/usr/share/fonts/opentype/noto/NotoSansCJK-Regular.ttc"@
            &&& r@[1]@ == "/usr/share/fonts/opentype/noto/NotoSansCJKsc-Regular.otf"@
            &&& r@[2]@ == "/usr/share/fonts/truetype/wqy/wqy-zenhei.ttc"@
        },
{
    let mut v: Vec<String> = Vec::new();
    match platform {
        FontPlatform::Windows => {
            let windows_dir = match windir {
                Some(w) => w,
                None => owned("C:\\Windows"),
            };
            let font_dir = crate::paths::join_path(windows_dir.as_str(), "Fonts");
            v.push(crate::paths::join_path(font_dir.as_str(), "Deng.ttf"));
            v.push(crate::paths::join_path(font_dir.as_str(), "simhei.ttf"));
            v.push(crate::paths::join_path(font_dir.as_str(), "simkai.ttf"));
        },
        FontPlatform::MacOs => {
            v.push(owned("/System/Library/Fonts/PingFang.ttc"));
            v.push(owned("/System/Library/Fonts/Hiragino Sans GB.ttc"));
        },
        FontPlatform::Other => {
            v.push(owned("/usr/share/fonts/opentype/noto/NotoSansCJK-Regular.ttc"));
            v.push(owned("/usr/share/fonts/opentype/noto/NotoSansCJKsc-Regular.otf"));
            v.push(owned("/usr/share/fonts/truetype/wqy/wqy-zenhei.ttc"));
        },
    }
    v
}

/// A thread after a message is appended holds at most 48 messages, ends with
/// the new message, and otherwise keeps the newest of the old ones in order.
pub proof fn lemma_thread_keeps_last(msgs: Seq<ChatMessage>, m: ChatMessage)
    ensures
        keep_last(msgs.push(m), MAX_CHAT_MESSAGES as nat).len() <= MAX_CHAT_MESSAGES,
        keep_last(msgs.push(m), MAX_CHAT_MESSAGES as nat).last() == m,
        forall|i: int|
            0 <= i < keep_last(msgs.push(m), MAX_CHAT_MESSAGES as nat).len() - 1 ==> #[trigger] keep_last(
                msgs.push(m),
                MAX_CHAT_MESSAGES as nat,
            )[i] == msgs[msgs.len() + 1 - keep_last(msgs.push(m), MAX_CHAT_MESSAGES as nat).len() + i],
{
}

/// A reveal only moves forward and never past the reply: after a step the
/// revealed count lies between the old count and the reply's length.
pub proof fn lemma_reveal_progress(s: ChatStreamState, elapsed_ms: u64)
    requires
        s.revealed_chars <= s.total_chars,
    ensures
        s.revealed_chars <= revealed_after(s, elapsed_ms) <= s.total_chars,
        elapsed_ms >= 18 ==> revealed_after(s, elapsed_ms) > s.revealed_chars || s.revealed_chars
            == s.total_chars,
{
    let steps = elapsed_ms / 18;
    let c = chars_per_step(s.total_chars);
    assert(steps * c >= 0) by (nonlinear_arith)
        requires
            c >= 2,
    ;
    if elapsed_ms >= 18 {
        assert(steps >= 1);
        assert(steps * c >= 2) by (nonlinear_arith)
            requires
                steps >= 1,
                c >= 2,
        ;
    }
}


} // verus!
