//! The environment checks of the control panel: what each observation of the
//! workspace, the Python stack, the model assets and the ports is reported
//! as, and their tally.
use vstd::prelude::*;
use crate::paths::{path_join, join_path};
use crate::panel::{Rgb, green, amber, red};
use crate::text::{
    trim, contains_seq, decimal, owned, push_str, concat2, concat3, trim_text,
    contains_text, decimal_text,
};

verus! {

/// The verdict of one check.
#[derive(Clone, Copy, Debug, PartialEq, Eq, Structural)]
pub enum DiagnosticStatus {
    Pass,
    Warn,
    Fail,
}

/// One reported check.
#[derive(Debug)]
pub struct DiagnosticItem {
    pub status: DiagnosticStatus,
    pub label: String,
    pub detail: String,
}

/// The view of a reported check.
pub open spec fn item_view(i: DiagnosticItem) -> (DiagnosticStatus, Seq<char>, Seq<char>) {
    (i.status, i.label@, i.detail@)
}

/// The views of reported checks.
pub open spec fn items_view(s: Seq<DiagnosticItem>) -> Seq<(DiagnosticStatus, Seq<char>, Seq<char>)> {
    s.map_values(|i: DiagnosticItem| item_view(i))
}

/// How many checks have the given verdict.
pub open spec fn count_status(s: Seq<DiagnosticItem>, st: DiagnosticStatus) -> nat
    decreases s.len(),
{
    if s.len() == 0 {
        0
    } else {
        count_status(s.drop_last(), st) + if s.last().status == st {
            1nat
        } else {
            0nat
        }
    }
}

/// Every check has exactly one verdict, so the three tallies add up to the
/// number of checks.
pub proof fn lemma_counts_cover(s: Seq<DiagnosticItem>)
    ensures
        count_status(s, DiagnosticStatus::Pass) + count_status(s, DiagnosticStatus::Warn)
            + count_status(s, DiagnosticStatus::Fail) == s.len(),
    decreases s.len(),
{
    if s.len() > 0 {
        lemma_counts_cover(s.drop_last());
    }
}

/// How many checks passed, warned and failed.
pub fn diagnostic_counts(diagnostics: &[DiagnosticItem]) -> (r: (usize, usize, usize))
    ensures
        r.0 == count_status(diagnostics@, DiagnosticStatus::Pass),
        r.1 == count_status(diagnostics@, DiagnosticStatus::Warn),
        r.2 == count_status(diagnostics@, DiagnosticStatus::Fail),
{
    let mut pass_count: usize = 0;
    let mut warn_count: usize = 0;
    let mut fail_count: usize = 0;
    let n = diagnostics.len();
    let mut i: usize = 0;
    while i < n
        invariant
            i <= n,
            n == diagnostics@.len(),
            pass_count == count_status(diagnostics@.take(i as int), DiagnosticStatus::Pass),
            warn_count == count_status(diagnostics@.take(i as int), DiagnosticStatus::Warn),
            fail_count == count_status(diagnostics@.take(i as int), DiagnosticStatus::Fail),
        decreases n - i,
    {
        proof {
            let t = diagnostics@.take(i + 1);
            assert(t.drop_last() =~= diagnostics@.take(i as int));
            lemma_counts_cover(diagnostics@.take(i as int));
        }
        match diagnostics[i].status {
            DiagnosticStatus::Pass => pass_count = pass_count + 1,
            DiagnosticStatus::Warn => warn_count = warn_count + 1,
            DiagnosticStatus::Fail => fail_count = fail_count + 1,
        }
        i = i + 1;
    }
    proof {
        assert(diagnostics@.take(n as int) =~= diagnostics@);
    }
    (pass_count, warn_count, fail_count)
}

/// The headline of the diagnostics tile: `Running` while checks run, `Not Run`
/// before any, `Needs Attention` with a failure, `Warnings` with a warning,
/// `Healthy` otherwise; red with a failure, amber with a warning or while
/// running, green otherwise.
pub open spec fn diagnostics_headline(running: bool, total: nat, warn: nat, fail: nat) -> (
    Seq<char>,
    Rgb,
) {
    let word = if running {
        "Running"@
    } else if total == 0 {
        "Not Run"@
    } else if fail > 0 {
        "Needs Attention"@
    } else if warn > 0 {
        "Warnings"@
    } else {
        "Healthy"@
    };
    let color = if fail > 0 {
        red()
    } else if warn > 0 || running {
        amber()
    } else {
        green()
    };
    (word, color)
}

/// The headline of the diagnostics tile.
pub fn diagnostics_status(diagnostics: &[DiagnosticItem], running: bool) -> (r: (&'static str, Rgb))
    ensures
        (r.0@, r.1) == diagnostics_headline(
            running,
            diagnostics@.len(),
            count_status(diagnostics@, DiagnosticStatus::Warn),
            count_status(diagnostics@, DiagnosticStatus::Fail),
        ),
{
    let (_, warn, fail) = diagnostic_counts(diagnostics);
    let word = if running {
        "Running"
    } else if diagnostics.len() == 0 {
        "Not Run"
    } else if fail > 0 {
        "Needs Attention"
    } else if warn > 0 {
        "Warnings"
    } else {
        "Healthy"
    };
    let color = if fail > 0 {
        Rgb { r: 236, g: 91, b: 110 }
    } else if warn > 0 || running {
        Rgb { r: 247, g: 196, b: 83 }
    } else {
        Rgb { r: 58, g: 201, b: 131 }
    };
    (word, color)
}

/// A path check: pass with the expectation and the path when it exists,
/// fail naming the missing path otherwise.
pub open spec fn path_check(label: Seq<char>, path: Seq<char>, exists: bool, detail: Seq<char>) -> (
    DiagnosticStatus,
    Seq<char>,
    Seq<char>,
) {
    if exists {
        (DiagnosticStatus::Pass, label, detail + " ("@ + path + ")"@)
    } else {
        (DiagnosticStatus::Fail, label, "Missing: "@ + path)
    }
}

/// Reports whether a path exists.
pub fn push_path_check(
    items: &mut Vec<DiagnosticItem>,
    label: &str,
    path: &str,
    exists: bool,
    detail: &str,
)
    ensures
        items_view(final(items)@) == items_view(old(items)@).push(
            path_check(label@, path@, exists, detail@),
        ),
{
    let ghost before = items_view(items@);
    let item = if exists {
        let mut d = owned(detail);
        push_str(&mut d, " (");
        push_str(&mut d, path);
        push_str(&mut d, ")");
        DiagnosticItem { status: DiagnosticStatus::Pass, label: owned(label), detail: d }
    } else {
        DiagnosticItem {
            status: DiagnosticStatus::Fail,
            label: owned(label),
            detail: concat2("Missing: ", path),
        }
    };
    items.push(item);
    assert(items_view(items@) =~= before.push(path_check(label@, path@, exists, detail@)));
}

/// A command check: pass with the output, fail with the error.
pub open spec fn command_check(label: Seq<char>, outcome: Result<Seq<char>, Seq<char>>) -> (
    DiagnosticStatus,
    Seq<char>,
    Seq<char>,
) {
    match outcome {
        Ok(o) => (DiagnosticStatus::Pass, label, o),
        Err(e) => (DiagnosticStatus::Fail, label, e),
    }
}

/// The text view of a command outcome.
pub open spec fn outcome_view(o: Result<String, String>) -> Result<Seq<char>, Seq<char>> {
    match o {
        Ok(s) => Ok(s@),
        Err(e) => Err(e@),
    }
}

/// Reports a command's outcome under a label.
fn push_command_check(items: &mut Vec<DiagnosticItem>, label: &str, outcome: Result<String, String>)
    ensures
        items_view(final(items)@) == items_view(old(items)@).push(
            command_check(label@, outcome_view(outcome)),
        ),
{
    let ghost before = items_view(items@);
    let ghost o = outcome_view(outcome);
    let item = match outcome {
        Ok(output) => DiagnosticItem { status: DiagnosticStatus::Pass, label: owned(label), detail: output },
        Err(error) => DiagnosticItem { status: DiagnosticStatus::Fail, label: owned(label), detail: error },
    };
    items.push(item);
    assert(items_view(items@) =~= before.push(command_check(label@, o)));
}

/// Reports the interpreter's `--version` output.
pub fn check_python_version(items: &mut Vec<DiagnosticItem>, outcome: Result<String, String>)
    ensures
        items_view(final(items)@) == items_view(old(items)@).push(
            command_check("Python version"@, outcome_view(outcome)),
        ),
{
    push_command_check(items, "Python version", outcome)
}

/// The PyTorch check: the probe's output passes when CUDA is available and
/// warns otherwise; a failed probe fails.
pub open spec fn torch_check(outcome: Result<Seq<char>, Seq<char>>) -> (
    DiagnosticStatus,
    Seq<char>,
    Seq<char>,
) {
    match outcome {
        Ok(o) => (
            if contains_seq(o, "cuda=True"@) {
                DiagnosticStatus::Pass
            } else {
                DiagnosticStatus::Warn
            },
            "PyTorch CUDA stack"@,
            o,
        ),
        Err(e) => (DiagnosticStatus::Fail, "PyTorch CUDA stack"@, e),
    }
}

/// Reports the PyTorch probe's outcome.
pub fn check_torch_stack(items: &mut Vec<DiagnosticItem>, outcome: Result<String, String>)
    ensures
        items_view(final(items)@) == items_view(old(items)@).push(torch_check(outcome_view(outcome))),
{
    let ghost before = items_view(items@);
    let ghost o = outcome_view(outcome);
    let item = match outcome {
        Ok(output) => {
            let status = if contains_text(output.as_str(), "cuda=True") {
                DiagnosticStatus::Pass
            } else {
                DiagnosticStatus::Warn
            };
            DiagnosticItem { status, label: owned("PyTorch CUDA stack"), detail: output }
        },
        Err(error) => DiagnosticItem {
            status: DiagnosticStatus::Fail,
            label: owned("PyTorch CUDA stack"),
            detail: error,
        },
    };
    items.push(item);
    assert(items_view(items@) =~= before.push(torch_check(o)));
}

/// Reports whether LiveTalking's Python imports resolve.
pub fn check_livetalking_imports(items: &mut Vec<DiagnosticItem>, outcome: Result<String, String>)
    ensures
        items_view(final(items)@) == items_view(old(items)@).push(
            command_check("LiveTalking Python imports"@, outcome_view(outcome)),
        ),
{
    push_command_check(items, "LiveTalking Python imports", outcome)
}

/// The text of a directory entry count, or `missing`.
pub open spec fn count_text(c: Option<usize>) -> Seq<char> {
    match c {
        Some(n) => decimal(n as nat),
        None => "missing"@,
    }
}

/// A directory entry count as text.
fn count_label(c: Option<usize>) -> (r: String)
    ensures
        r@ == count_text(c),
{
    match c {
        Some(n) => decimal_text(n as u128),
        None => owned("missing"),
    }
}

/// The model check: pass with the path and its size when the file is there.
pub open spec fn model_check(model_path: Seq<char>, size_mb: Option<Seq<char>>) -> (
    DiagnosticStatus,
    Seq<char>,
    Seq<char>,
) {
    match size_mb {
        Some(mb) => (DiagnosticStatus::Pass, "Wav2Lip model"@, model_path + " ("@ + mb + " MB)"@),
        None => (DiagnosticStatus::Fail, "Wav2Lip model"@, "Missing: "@ + model_path),
    }
}

/// The avatar check: pass when the coordinates file is there and both image
/// folders hold at least one entry.
pub open spec fn avatar_check(
    coords_exists: bool,
    full_count: Option<usize>,
    face_count: Option<usize>,
    avatar_dir: Seq<char>,
) -> (DiagnosticStatus, Seq<char>, Seq<char>) {
    let ok = coords_exists && (match full_count {
        Some(n) => n > 0,
        None => false,
    }) && (match face_count {
        Some(n) => n > 0,
        None => false,
    });
    (
        if ok {
            DiagnosticStatus::Pass
        } else {
            DiagnosticStatus::Fail
        },
        "Demo avatar assets"@,
        "coords="@ + (if coords_exists {
            "ok"@
        } else {
            "missing"@
        }) + "; full_imgs="@ + count_text(full_count) + "; face_imgs="@ + count_text(face_count)
            + "; path="@ + avatar_dir,
    )
}

/// What was found of LiveTalking's model and demo avatar.
#[derive(Debug)]
pub struct AssetObservations {
    pub model_path: String,
    /// The model's size in MB with two decimals, when the file is there.
    pub model_size_mb: Option<String>,
    pub avatar_dir: String,
    pub coords_exists: bool,
    pub full_imgs_count: Option<usize>,
    pub face_imgs_count: Option<usize>,
}

/// Reports the model file and the demo avatar.
pub fn check_livetalking_assets(items: &mut Vec<DiagnosticItem>, assets: AssetObservations)
    ensures
        items_view(final(items)@) == items_view(old(items)@).push(
            model_check(assets.model_path@, crate::config::opt_view(assets.model_size_mb)),
        ).push(
            avatar_check(
                assets.coords_exists,
                assets.full_imgs_count,
                assets.face_imgs_count,
                assets.avatar_dir@,
            ),
        ),
{
    let ghost before = items_view(items@);
    let ghost a = assets;
    let model = match &assets.model_size_mb {
        Some(mb) => {
            let mut d = assets.model_path.clone();
            push_str(&mut d, " (");
            push_str(&mut d, mb.as_str());
            push_str(&mut d, " MB)");
            DiagnosticItem { status: DiagnosticStatus::Pass, label: owned("Wav2Lip model"), detail: d }
        },
        None => DiagnosticItem {
            status: DiagnosticStatus::Fail,
            label: owned("Wav2Lip model"),
            detail: concat2("Missing: ", assets.model_path.as_str()),
        },
    };
    items.push(model);
    let full_ok = match assets.full_imgs_count {
        Some(n) => n > 0,
        None => false,
    };
    let face_ok = match assets.face_imgs_count {
        Some(n) => n > 0,
        None => false,
    };
    let ok = assets.coords_exists && full_ok && face_ok;
    let mut d = owned("coords=");
    push_str(&mut d, if assets.coords_exists { "ok" } else { "missing" });
    push_str(&mut d, "; full_imgs=");
    let f = count_label(assets.full_imgs_count);
    push_str(&mut d, f.as_str());
    push_str(&mut d, "; face_imgs=");
    let g = count_label(assets.face_imgs_count);
    push_str(&mut d, g.as_str());
    push_str(&mut d, "; path=");
    push_str(&mut d, assets.avatar_dir.as_str());
    items.push(
        DiagnosticItem {
            status: if ok {
                DiagnosticStatus::Pass
            } else {
                DiagnosticStatus::Fail
            },
            label: owned("Demo avatar assets"),
            detail: d,
        },
    );
    assert(items_view(items@) =~= before.push(
        model_check(a.model_path@, crate::config::opt_view(a.model_size_mb)),
    ).push(avatar_check(a.coords_exists, a.full_imgs_count, a.face_imgs_count, a.avatar_dir@)));
}

/// The port check: a warning naming the process that already listens, a pass
/// when the port is free.
pub open spec fn port_check(port: u16, service_name: Seq<char>, owner: Option<Seq<char>>) -> (
    DiagnosticStatus,
    Seq<char>,
    Seq<char>,
) {
    match owner {
        Some(o) => (
            DiagnosticStatus::Warn,
            "Port "@ + decimal(port as nat),
            service_name + " port is already listening: "@ + o,
        ),
        None => (
            DiagnosticStatus::Pass,
            "Port "@ + decimal(port as nat),
            "Available for "@ + service_name + "."@,
        ),
    }
}

/// Reports who, if anyone, listens on a port.
pub fn check_port(items: &mut Vec<DiagnosticItem>, port: u16, service_name: &str, owner: Option<String>)
    ensures
        items_view(final(items)@) == items_view(old(items)@).push(
            port_check(port, service_name@, crate::config::opt_view(owner)),
        ),
{
    let ghost before = items_view(items@);
    let ghost ow = crate::config::opt_view(owner);
    let p = decimal_text(port as u128);
    let label = concat2("Port ", p.as_str());
    let item = match owner {
        Some(o) => DiagnosticItem {
            status: DiagnosticStatus::Warn,
            label,
            detail: concat3(service_name, " port is already listening: ", o.as_str()),
        },
        None => DiagnosticItem {
            status: DiagnosticStatus::Pass,
            label,
            detail: concat3("Available for ", service_name, "."),
        },
    };
    items.push(item);
    assert(items_view(items@) =~= before.push(port_check(port, service_name@, ow)));
}

/// A command's result from its trimmed output streams: both joined by `; `,
/// or the one that is not empty, or a note that there was none; success of
/// the command decides between `Ok` and `Err`.
pub open spec fn command_result(stdout: Seq<char>, stderr: Seq<char>, success: bool) -> Result<
    Seq<char>,
    Seq<char>,
> {
    let out = trim(stdout);
    let err = trim(stderr);
    let combined = if out.len() > 0 && err.len() > 0 {
        out + "; "@ + err
    } else if out.len() > 0 {
        out
    } else if err.len() > 0 {
        err
    } else {
        "command produced no output"@
    };
    if success {
        Ok(combined)
    } else {
        Err(combined)
    }
}

/// Combines a finished command's output streams, decoded as text.
pub fn combine_command_output(stdout: &str, stderr: &str, success: bool) -> (r: Result<String, String>)
    ensures
        outcome_view(r) == command_result(stdout@, stderr@, success),
{
    let out = trim_text(stdout);
    let err = trim_text(stderr);
    let combined = if out.as_str().unicode_len() > 0 && err.as_str().unicode_len() > 0 {
        concat3(out.as_str(), "; ", err.as_str())
    } else if out.as_str().unicode_len() > 0 {
        out
    } else if err.as_str().unicode_len() > 0 {
        err
    } else {
        owned("command produced no output")
    };
    if success {
        Ok(combined)
    } else {
        Err(combined)
    }
}

/// The owner of a port from the probe command's result: its trimmed output,
/// unless the command failed, printed nothing, or printed only the no-output
/// note.
pub open spec fn port_owner(result: Result<Seq<char>, Seq<char>>) -> Option<Seq<char>> {
    match result {
        Ok(o) => {
            let t = trim(o);
            if t.len() == 0 || t == "command produced no output"@ {
                None
            } else {
                Some(t)
            }
        },
        Err(_) => None,
    }
}

/// Reads the port probe's result.
pub fn port_owner_from_output(result: Result<String, String>) -> (r: Option<String>)
    ensures
        crate::config::opt_view(r) == port_owner(outcome_view(result)),
{
    match result {
        Ok(output) => {
            let t = trim_text(output.as_str());
            let note = owned("command produced no output");
            if t.as_str().unicode_len() == 0 || t == note {
                None
            } else {
                Some(t)
            }
        },
        Err(_) => None,
    }
}

/// The paths the checks look at, derived from the workspace layout.
#[derive(Debug)]
pub struct DiagnosticPaths {
    pub venv_dir: String,
    pub model_path: String,
    pub avatar_dir: String,
    pub coords_path: String,
    pub full_imgs_dir: String,
    pub face_imgs_dir: String,
}

/// `<livetalking>/data/avatars/wav2lip256_avatar1`.
pub open spec fn avatar_dir_of(livetalking_dir: Seq<char>) -> Seq<char> {
    path_join(path_join(path_join(livetalking_dir, "data"@), "avatars"@), "wav2lip256_avatar1"@)
}

/// The paths of the checks: the virtual environment under the project root,
/// the model under `models`, and the demo avatar and its parts.
pub fn diagnostic_paths(project_root: &str, livetalking_dir: &str) -> (r: DiagnosticPaths)
    ensures
        r.venv_dir@ == path_join(project_root@, ".venv"@),
        r.model_path@ == path_join(path_join(livetalking_dir@, "models"@), "wav2lip.pth"@),
        r.avatar_dir@ == avatar_dir_of(livetalking_dir@),
        r.coords_path@ == path_join(avatar_dir_of(livetalking_dir@), "coords.pkl"@),
        r.full_imgs_dir@ == path_join(avatar_dir_of(livetalking_dir@), "full_imgs"@),
        r.face_imgs_dir@ == path_join(avatar_dir_of(livetalking_dir@), "face_imgs"@),
{
    let venv_dir = join_path(project_root, ".venv");
    let models = join_path(livetalking_dir, "models");
    let model_path = join_path(models.as_str(), "wav2lip.pth");
    let data = join_path(livetalking_dir, "data");
    let avatars = join_path(data.as_str(), "avatars");
    let avatar_dir = join_path(avatars.as_str(), "wav2lip256_avatar1");
    let coords_path = join_path(avatar_dir.as_str(), "coords.pkl");
    let full_imgs_dir = join_path(avatar_dir.as_str(), "full_imgs");
    let face_imgs_dir = join_path(avatar_dir.as_str(), "face_imgs");
    DiagnosticPaths { venv_dir, model_path, avatar_dir, coords_path, full_imgs_dir, face_imgs_dir }
}

/// Everything the checks observed.
#[derive(Debug)]
pub struct DiagnosticObservations {
    pub project_root: String,
    pub project_root_exists: bool,
    pub companion_dir: String,
    pub companion_dir_exists: bool,
    pub livetalking_dir: String,
    pub livetalking_dir_exists: bool,
    pub venv_dir: String,
    pub venv_dir_exists: bool,
    pub python_exe: String,
    pub python_exe_exists: bool,
    pub python_version: Result<String, String>,
    pub torch_stack: Result<String, String>,
    pub livetalking_imports: Result<String, String>,
    pub assets: AssetObservations,
    pub companion_port_owner: Option<String>,
    pub livetalking_port_owner: Option<String>,
}

/// The report, in order: the five paths, the interpreter, PyTorch, the
/// imports, the model, the avatar, and the two ports.
pub open spec fn diagnostics_report(o: DiagnosticObservations) -> Seq<
    (DiagnosticStatus, Seq<char>, Seq<char>),
> {
    seq![
        path_check("Project root"@, o.project_root@, o.project_root_exists, "Expected repository root directory."@),
        path_check("companion-core crate"@, o.companion_dir@, o.companion_dir_exists, "Rust sidecar and launcher crate."@),
        path_check("LiveTalking checkout"@, o.livetalking_dir@, o.livetalking_dir_exists, "Python media runtime checkout."@),
        path_check("Python virtual environment"@, o.venv_dir@, o.venv_dir_exists, "Reused project environment."@),
        path_check("Python executable"@, o.python_exe@, o.python_exe_exists, "Interpreter selected by the control panel."@),
        command_check("Python version"@, outcome_view(o.python_version)),
        torch_check(outcome_view(o.torch_stack)),
        command_check("LiveTalking Python imports"@, outcome_view(o.livetalking_imports)),
        model_check(o.assets.model_path@, crate::config::opt_view(o.assets.model_size_mb)),
        avatar_check(o.assets.coords_exists, o.assets.full_imgs_count, o.assets.face_imgs_count, o.assets.avatar_dir@),
        port_check(8787, "companion-core"@, crate::config::opt_view(o.companion_port_owner)),
        port_check(8010, "LiveTalking"@, crate::config::opt_view(o.livetalking_port_owner)),
    ]
}

/// Builds the report of all checks.
pub fn collect_diagnostics(obs: DiagnosticObservations) -> (r: Vec<DiagnosticItem>)
    ensures
        items_view(r@) == diagnostics_report(obs),
{
    let ghost o = obs;
    let mut items: Vec<DiagnosticItem> = Vec::new();
    push_path_check(
        &mut items,
        "Project root",
        obs.project_root.as_str(),
        obs.project_root_exists,
        "Expected repository root directory.",
    );
    push_path_check(
        &mut items,
        "companion-core crate",
        obs.companion_dir.as_str(),
        obs.companion_dir_exists,
        "Rust sidecar and launcher crate.",
    );
    push_path_check(
        &mut items,
        "LiveTalking checkout",
        obs.livetalking_dir.as_str(),
        obs.livetalking_dir_exists,
        "Python media runtime checkout.",
    );
    push_path_check(
        &mut items,
        "Python virtual environment",
        obs.venv_dir.as_str(),
        obs.venv_dir_exists,
        "Reused project environment.",
    );
    push_path_check(
        &mut items,
        "Python executable",
        obs.python_exe.as_str(),
        obs.python_exe_exists,
        "Interpreter selected by the control panel.",
    );
    check_python_version(&mut items, obs.python_version);
    check_torch_stack(&mut items, obs.torch_stack);
    check_livetalking_imports(&mut items, obs.livetalking_imports);
    check_livetalking_assets(&mut items, obs.assets);
    check_port(&mut items, 8787, "companion-core", obs.companion_port_owner);
    check_port(&mut items, 8010, "LiveTalking", obs.livetalking_port_owner);
    assert(items_view(items@) =~= diagnostics_report(o));
    items
}


/// When no run is under way, any failed check makes the headline
/// `Needs Attention` in red, whatever the number of warnings; `Warnings` in
/// amber comes only with a warning and no failure, and `Healthy` in green
/// only when every check passed. While a run is under way the headline is
/// `Running`.
pub proof fn lemma_failures_lead_the_headline(s: Seq<DiagnosticItem>, running: bool)
    ensures
        ({
            let warn = count_status(s, DiagnosticStatus::Warn);
            let fail = count_status(s, DiagnosticStatus::Fail);
            let h = diagnostics_headline(running, s.len(), warn, fail);
            &&& running ==> h.0 == "Running"@
            &&& !running && fail > 0 ==> h == ("Needs Attention"@, red())
            &&& !running && fail == 0 && warn > 0 ==> h == ("Warnings"@, amber())
            &&& !running && s.len() > 0 && fail == 0 && warn == 0 ==> h == ("Healthy"@, green())
                && count_status(s, DiagnosticStatus::Pass) == s.len()
        }),
{
    lemma_counts_cover(s);
    let warn = count_status(s, DiagnosticStatus::Warn);
    let fail = count_status(s, DiagnosticStatus::Fail);
    assert(fail > 0 ==> s.len() > 0);
    assert(warn > 0 ==> s.len() > 0);
}

} // verus!
