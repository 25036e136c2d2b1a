//! The first-launch setup: the progress messages it reports and the order in
//! which its stages run.
//!
//! Setup downloads ffmpeg and uv, installs Python, creates a virtual
//! environment, installs the Python packages, extracts the analyzer scripts,
//! pre-fetches video backgrounds and finally writes the ready marker. The
//! first stage that fails ends the run with one error report; when every
//! stage succeeds the run ends with one completion report.
use vstd::prelude::*;
use crate::text::{owned, push_str};

verus! {

/// One progress report of the setup.
#[derive(Clone, Debug)]
pub struct BootstrapProgress {
    pub step: &'static str,
    pub detail: String,
    pub done: bool,
    pub error: Option<String>,
}

#[verifier::external_type_specification]
#[verifier::external_body]
#[verifier::reject_recursive_types(T)]
pub struct ExSender<T>(std::sync::mpsc::Sender<T>);

/// Hands `msg` to the receiving end of the channel with
/// `std::sync::mpsc::Sender::send`. A closed receiver is ignored, as the
/// setup goes on whether or not anybody listens; nothing is claimed.
#[verifier::external_body]
fn deliver(tx: &std::sync::mpsc::Sender<BootstrapProgress>, msg: BootstrapProgress) {
    let _ = tx.send(msg);
}

/// A report that `step` is under way with the given detail.
pub fn progress(step: &'static str, detail: String) -> (p: BootstrapProgress)
    ensures
        p.step == step,
        p.detail == detail,
        !p.done,
        p.error is None,
{
    BootstrapProgress { step, detail, done: false, error: None }
}

/// The report that setup completed.
pub fn done_report() -> (p: BootstrapProgress)
    ensures
        p.step@ == "Done"@,
        p.detail@ == "Setup complete!"@,
        p.done,
        p.error is None,
{
    BootstrapProgress { step: "Done", detail: owned("Setup complete!"), done: true, error: None }
}

/// The report that setup failed with `msg`.
pub fn error_report(msg: String) -> (p: BootstrapProgress)
    ensures
        p.step@ == "Error"@,
        p.detail@ == Seq::<char>::empty(),
        p.done,
        p.error == Some(msg),
{
    BootstrapProgress { step: "Error", detail: String::new(), done: true, error: Some(msg) }
}

/// Reports that `step` is under way.
pub fn send(tx: &std::sync::mpsc::Sender<BootstrapProgress>, step: &'static str, detail: String) {
    deliver(tx, progress(step, detail));
}

/// Reports that setup completed.
pub fn send_done(tx: &std::sync::mpsc::Sender<BootstrapProgress>) {
    deliver(tx, done_report());
}

/// Reports that setup failed.
pub fn send_error(tx: &std::sync::mpsc::Sender<BootstrapProgress>, msg: String) {
    deliver(tx, error_report(msg));
}

/// The stages of the setup, in the order they run.
#[derive(Clone, Copy, Debug, PartialEq, Eq, Structural)]
pub enum Stage {
    DownloadFfmpeg,
    DownloadUv,
    InstallPython,
    CreateVenv,
    InstallPackages,
    ExtractScripts,
    PrefetchVideos,
    WriteReadyMarker,
}

/// The position of a stage in the run.
pub open spec fn stage_index(s: Stage) -> nat {
    match s {
        Stage::DownloadFfmpeg => 0,
        Stage::DownloadUv => 1,
        Stage::InstallPython => 2,
        Stage::CreateVenv => 3,
        Stage::InstallPackages => 4,
        Stage::ExtractScripts => 5,
        Stage::PrefetchVideos => 6,
        Stage::WriteReadyMarker => 7,
    }
}

/// The number of stages.
pub open spec fn stage_count() -> nat {
    8
}

/// The stage after `s`, if any.
pub open spec fn following(s: Stage) -> Option<Stage> {
    match s {
        Stage::DownloadFfmpeg => Some(Stage::DownloadUv),
        Stage::DownloadUv => Some(Stage::InstallPython),
        Stage::InstallPython => Some(Stage::CreateVenv),
        Stage::CreateVenv => Some(Stage::InstallPackages),
        Stage::InstallPackages => Some(Stage::ExtractScripts),
        Stage::ExtractScripts => Some(Stage::PrefetchVideos),
        Stage::PrefetchVideos => Some(Stage::WriteReadyMarker),
        Stage::WriteReadyMarker => None,
    }
}

/// What the error report of a failed stage starts with; none for
/// pre-fetching videos, which is best effort and never fails the setup.
pub open spec fn failure_prefix(s: Stage) -> Option<Seq<char>> {
    match s {
        Stage::DownloadFfmpeg => Some("Failed to download ffmpeg"@),
        Stage::DownloadUv => Some("Failed to download uv"@),
        Stage::InstallPython => Some("Failed to install Python"@),
        Stage::CreateVenv => Some("Failed to create venv"@),
        Stage::InstallPackages => Some("Failed to install packages"@),
        Stage::ExtractScripts => Some("Failed to extract analyzer scripts"@),
        Stage::PrefetchVideos => None,
        Stage::WriteReadyMarker => Some("Failed to write ready marker"@),
    }
}

/// Whether a stage can fail.
pub open spec fn can_fail(s: Stage) -> bool {
    failure_prefix(s) is Some
}

/// Where the setup stands.
#[derive(Clone, Copy, Debug, PartialEq, Eq, Structural)]
pub enum RunState {
    Running(Stage),
    Finished,
    Failed,
}

/// The state after `s` ends with `ok` (a stage that cannot fail counts as
/// succeeded).
pub open spec fn next_state(s: Stage, ok: bool) -> RunState {
    if !ok && can_fail(s) {
        RunState::Failed
    } else {
        match following(s) {
            Some(n) => RunState::Running(n),
            None => RunState::Finished,
        }
    }
}

/// The first stage of the setup.
pub fn first_stage() -> (s: Stage)
    ensures
        stage_index(s) == 0,
{
    Stage::DownloadFfmpeg
}

fn prefix_text(s: Stage) -> (t: Option<&'static str>)
    ensures
        match t {
            Some(p) => failure_prefix(s) == Some(p@),
            None => failure_prefix(s) is None,
        },
{
    match s {
        Stage::DownloadFfmpeg => Some("Failed to download ffmpeg"),
        Stage::DownloadUv => Some("Failed to download uv"),
        Stage::InstallPython => Some("Failed to install Python"),
        Stage::CreateVenv => Some("Failed to create venv"),
        Stage::InstallPackages => Some("Failed to install packages"),
        Stage::ExtractScripts => Some("Failed to extract analyzer scripts"),
        Stage::PrefetchVideos => None,
        Stage::WriteReadyMarker => Some("Failed to write ready marker"),
    }
}

/// Decides what follows once `stage` has ended with `outcome`: the next
/// state of the run and the report to send. A failure of a stage that can
/// fail ends the run with an error report naming the stage and the error;
/// the success of the last stage ends it with the completion report.
pub fn advance(stage: Stage, outcome: Result<(), String>) -> (r: (RunState, Option<
    BootstrapProgress,
>))
    ensures
        r.0 == next_state(stage, outcome is Ok),
        match r.0 {
            RunState::Running(_) => r.1 is None,
            RunState::Finished => {
                &&& r.1 matches Some(p)
                &&& p.done
                &&& p.error is None
                &&& p.step@ == "Done"@
                &&& p.detail@ == "Setup complete!"@
            },
            RunState::Failed => {
                &&& r.1 matches Some(p)
                &&& p.done
                &&& p.step@ == "Error"@
                &&& p.detail@ == Seq::<char>::empty()
                &&& outcome matches Err(e)
                &&& p.error matches Some(m)
                &&& failure_prefix(stage) matches Some(pre)
                &&& m@ == pre + ": "@ + e@
            },
        },
{
    match outcome {
        Err(e) => {
            if let Some(pre) = prefix_text(stage) {
                let mut msg = owned(pre);
                push_str(&mut msg, ": ");
                push_str(&mut msg, e.as_str());
                return (RunState::Failed, Some(error_report(msg)));
            }
        },
        Ok(()) => {},
    }
    match stage {
        Stage::DownloadFfmpeg => (RunState::Running(Stage::DownloadUv), None),
        Stage::DownloadUv => (RunState::Running(Stage::InstallPython), None),
        Stage::InstallPython => (RunState::Running(Stage::CreateVenv), None),
        Stage::CreateVenv => (RunState::Running(Stage::InstallPackages), None),
        Stage::InstallPackages => (RunState::Running(Stage::ExtractScripts), None),
        Stage::ExtractScripts => (RunState::Running(Stage::PrefetchVideos), None),
        Stage::PrefetchVideos => (RunState::Running(Stage::WriteReadyMarker), None),
        Stage::WriteReadyMarker => (RunState::Finished, Some(done_report())),
    }
}

/// The state reached from `s` when the stages from `s` on end with the
/// given outcomes, one per stage run.
pub open spec fn run_from(s: Stage, outcomes: Seq<bool>) -> RunState
    decreases outcomes.len(),
{
    if outcomes.len() == 0 {
        RunState::Running(s)
    } else {
        match next_state(s, outcomes[0]) {
            RunState::Running(n) => run_from(n, outcomes.drop_first()),
            other => other,
        }
    }
}

/// Each stage that succeeds hands over to the one after it, so a run in
/// which every stage succeeds goes through all stages in order and then
/// finishes; it finishes no earlier.
pub proof fn law_successful_run_finishes(outcomes: Seq<bool>)
    requires
        forall|i: int| 0 <= i < outcomes.len() ==> outcomes[i],
    ensures
        outcomes.len() < stage_count() ==> run_from(Stage::DownloadFfmpeg, outcomes)
            == RunState::Running(stage_at(outcomes.len())),
        outcomes.len() >= stage_count() ==> run_from(Stage::DownloadFfmpeg, outcomes)
            == RunState::Finished,
{
    lemma_run_all_ok(0, outcomes);
}

/// The stage at position `i` of the run (the last one past the end).
pub open spec fn stage_at(i: nat) -> Stage {
    if i == 0 {
        Stage::DownloadFfmpeg
    } else if i == 1 {
        Stage::DownloadUv
    } else if i == 2 {
        Stage::InstallPython
    } else if i == 3 {
        Stage::CreateVenv
    } else if i == 4 {
        Stage::InstallPackages
    } else if i == 5 {
        Stage::ExtractScripts
    } else if i == 6 {
        Stage::PrefetchVideos
    } else {
        Stage::WriteReadyMarker
    }
}

proof fn lemma_run_all_ok(k: nat, outcomes: Seq<bool>)
    requires
        k < stage_count(),
        forall|i: int| 0 <= i < outcomes.len() ==> outcomes[i],
    ensures
        k + outcomes.len() < stage_count() ==> run_from(stage_at(k), outcomes) == RunState::Running(
            stage_at(k + outcomes.len()),
        ),
        k + outcomes.len() >= stage_count() ==> run_from(stage_at(k), outcomes)
            == RunState::Finished,
    decreases outcomes.len(),
{
    if outcomes.len() > 0 {
        if k + 1 < stage_count() {
            assert(next_state(stage_at(k), true) == RunState::Running(stage_at(k + 1)));
            lemma_run_all_ok(k + 1, outcomes.drop_first());
        }
    }
}

/// Every stage but pre-fetching videos can fail the setup: when it fails,
/// the run ends with an error whose message starts with "Failed to " and
/// differs from that of every other stage. Pre-fetching videos is best
/// effort: the run goes on whether or not it succeeds.
pub proof fn law_only_video_prefetch_is_best_effort(s: Stage, t: Stage)
    ensures
        s != Stage::PrefetchVideos ==> next_state(s, false) == RunState::Failed,
        s == Stage::PrefetchVideos ==> next_state(s, false) == next_state(s, true),
        s != Stage::PrefetchVideos ==> (failure_prefix(s) matches Some(p) && p.len() > 10
            && p.subrange(0, 10) == "Failed to "@),
        s != t && s != Stage::PrefetchVideos && t != Stage::PrefetchVideos ==> failure_prefix(s)
            != failure_prefix(t),
{
    reveal_strlit("Failed to ");
    reveal_strlit("Failed to download ffmpeg");
    reveal_strlit("Failed to download uv");
    reveal_strlit("Failed to install Python");
    reveal_strlit("Failed to create venv");
    reveal_strlit("Failed to install packages");
    reveal_strlit("Failed to extract analyzer scripts");
    reveal_strlit("Failed to write ready marker");
    if s != Stage::PrefetchVideos {
        let p = failure_prefix(s).unwrap();
        assert(p.subrange(0, 10) =~= "Failed to "@);
    }
    if s != t && s != Stage::PrefetchVideos && t != Stage::PrefetchVideos {
        let a = failure_prefix(s).unwrap();
        let b = failure_prefix(t).unwrap();
        if a.len() == b.len() {
            assert(a[10] != b[10]);
        }
    }
}

/// Once a stage that can fail fails, the run is over: no later outcome
/// starts another stage.
pub proof fn law_failure_ends_run(s: Stage, outcomes: Seq<bool>)
    requires
        outcomes.len() > 0,
        !outcomes[0],
        can_fail(s),
    ensures
        run_from(s, outcomes) == RunState::Failed,
{
}

} // verus!
