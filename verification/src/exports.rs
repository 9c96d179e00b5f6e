//! The loop export as the workstation runs it: a failed export also says so on
//! the status line.

use crate::app::WorkstationApp;
use crate::loop_export::{CaptureOutcome, CaptureStep, LoopExportState};
use vstd::prelude::*;

verus! {

use crate::app::{app_wf, AppView};
use crate::display::DisplayView;
use crate::loop_export::{aborted, captured, driven, export_begun, ExporterView};
use crate::workspace::visible_of;

/// The workstation after a step of an export. One that ended the export with a
/// notice puts the notice on the status line.
pub open spec fn export_stepped(
    app: AppView,
    display: DisplayView,
    exporter: ExporterView,
    finished: bool,
) -> AppView {
    AppView {
        display,
        exporter,
        status: if app.exporter.state is Some && exporter.state is None && !finished {
            exporter.notice->0
        } else {
            app.status
        },
        ..app
    }
}

/// The workstation after an export failed.
pub open spec fn export_failed(app: AppView, reason: Seq<char>) -> AppView {
    let after = aborted(app.display, app.exporter, reason);
    export_stepped(app, after.0, after.1, false)
}

/// The workstation after a capture arrived.
pub open spec fn capture_taken(app: AppView, capture_id: u64, frame_index: int) -> AppView {
    let after = captured(app.display, app.exporter, capture_id, frame_index);
    export_stepped(app, after.0, after.1, after.2 is Finished)
}

/// The workstation after a paint while an export may run.
pub open spec fn export_driven(app: AppView) -> AppView {
    let after = driven(app.display, app.exporter, visible_of(app.workspace.layout));
    export_stepped(app, after.0, after.1, false)
}

/// An export that fails says why in both places, and leaves nothing running.
pub proof fn law_a_failed_export_says_why(app: AppView, reason: Seq<char>)
    requires
        app.exporter.state is Some,
    ensures
        export_failed(app, reason).exporter.state is None,
        export_failed(app, reason).exporter.notice == Some(export_failed(app, reason).status),
        export_failed(app, reason).status == "Loop export failed: "@ + reason,
{
}

/// Whatever an export does, it touches only the timeline's place, what is on
/// screen, and the lines that speak of it.
pub proof fn law_an_export_touches_only_the_display(
    app: AppView,
    capture_id: u64,
    frame_index: int,
)
    ensures
        capture_taken(app, capture_id, frame_index).workspace == app.workspace,
        capture_taken(app, capture_id, frame_index).follow == app.follow,
        capture_taken(app, capture_id, frame_index).playlist == app.playlist,
        capture_taken(app, capture_id, frame_index).live == app.live,
        capture_taken(app, capture_id, frame_index).display.history.frames
            == app.display.history.frames,
        export_driven(app).workspace == app.workspace,
        export_driven(app).follow == app.follow,
        export_driven(app).playlist == app.playlist,
        export_driven(app).live == app.live,
        export_driven(app).display.history.frames == app.display.history.frames,
{
}

impl WorkstationApp {
    /// Whether a loop is being exported.
    fn exporting(&self) -> (running: bool)
        ensures
            running == (self@.exporter.state is Some),
    {
        self.exporter.state.is_some()
    }

    /// Puts the exporter's notice on the status line.
    fn show_export_notice(&mut self)
        requires
            old(self)@.exporter.notice is Some,
        ensures
            final(self)@ == (AppView {
                status: old(self)@.exporter.notice->0,
                ..old(self)@
            }),
    {
        if let Some(notice) = &self.exporter.notice {
            self.status = notice.clone();
        }
    }

    /// Begins an export of the kept timeline. `other_export` says whether a still
    /// is being exported.
    pub fn begin_loop_export(&mut self, other_export: bool, file_base: String, frame_ms: u64)
        requires
            app_wf(old(self)@),
        ensures
            final(self)@ == ({
                let after = export_begun(
                    old(self)@.display,
                    old(self)@.exporter,
                    other_export,
                    file_base@,
                    frame_ms,
                );
                AppView { display: after.0, exporter: after.1, ..old(self)@ }
            }),
            app_wf(final(self)@),
    {
        self.exporter.begin_loop_export(&mut self.display, other_export, file_base, frame_ms);
    }

    /// Ends an export that failed, and says why.
    pub fn abort_loop_export(&mut self, reason: &str)
        requires
            app_wf(old(self)@),
        ensures
            final(self)@ == export_failed(old(self)@, reason@),
            app_wf(final(self)@),
    {
        let running = self.exporting();
        self.exporter.abort_loop_export(&mut self.display, reason);
        if running {
            self.show_export_notice();
        }
    }

    /// Takes a capture that arrived. An export that it finishes is handed over.
    pub fn take_loop_capture(&mut self, capture_id: u64, frame_index: usize) -> (taken: (
        CaptureOutcome,
        Option<LoopExportState>,
    ))
        requires
            app_wf(old(self)@),
        ensures
            final(self)@ == capture_taken(old(self)@, capture_id, frame_index as int),
            taken.0 == captured(
                old(self)@.display,
                old(self)@.exporter,
                capture_id,
                frame_index as int,
            ).2,
            taken.0 is Finished <==> taken.1 is Some,
            taken.1 matches Some(done) ==> old(self)@.exporter.state == Some(done@),
            app_wf(final(self)@),
    {
        let running = self.exporting();
        let taken = self.exporter.take_capture(&mut self.display, capture_id, frame_index);
        let finished = match taken.0 {
            CaptureOutcome::Finished => true,
            _ => false,
        };
        if running && !self.exporting() && !finished {
            self.show_export_notice();
        }
        taken
    }

    /// Decides about a running export once a frame was painted.
    pub fn drive_loop_export_capture(&mut self) -> (step: CaptureStep)
        requires
            app_wf(old(self)@),
        ensures
            final(self)@ == export_driven(old(self)@),
            step == driven(
                old(self)@.display,
                old(self)@.exporter,
                visible_of(old(self)@.workspace.layout),
            ).2,
            app_wf(final(self)@),
    {
        let running = self.exporting();
        let visible = self.workspace.visible_panes();
        let step = self.exporter.drive_loop_export_capture(&mut self.display, &visible);
        if running && !self.exporting() {
            self.show_export_notice();
        }
        step
    }
}

/// What the status line says of an export: one that ends without its last picture
/// says why; one that goes on, or that finished, says nothing there.
pub proof fn law_what_an_export_says(app: AppView, capture_id: u64, frame_index: int)
    requires
        crate::loop_export::exporter_wf(app.exporter),
    ensures
        ({
            let outcome = captured(app.display, app.exporter, capture_id, frame_index);
            let after = capture_taken(app, capture_id, frame_index);
            &&& after.display == outcome.0
            &&& after.exporter == outcome.1
            &&& outcome.2 is Ignored ==> after == app
            &&& outcome.2 is Finished ==> after.status == app.status
            &&& outcome.2 is Failed ==> after.status
                == "Loop export failed: the displayed frame changed during capture"@
            &&& outcome.2 is Kept && outcome.1.state is Some ==> after.status == app.status
            &&& after.pulses == app.pulses
            &&& after.tools == app.tools
        }),
        ({
            let step = driven(app.display, app.exporter, visible_of(app.workspace.layout));
            let after = export_driven(app);
            &&& after.display == step.0
            &&& after.exporter == step.1
            &&& step.2 !is Failed ==> after.status == app.status
            &&& step.2 is Failed ==> after.status
                == "Loop export failed: the requested frame is no longer displayed"@
        }),
{
    crate::loop_export::law_a_kept_capture_moves_to_the_next_frame(
        app.display,
        app.exporter,
        capture_id,
        frame_index,
    );
    reveal_strlit("Loop export failed: ");
    reveal_strlit("the displayed frame changed during capture");
    reveal_strlit("Loop export failed: the displayed frame changed during capture");
    reveal_strlit("the requested frame is no longer displayed");
    reveal_strlit("Loop export failed: the requested frame is no longer displayed");
    assert("Loop export failed: "@ + "the displayed frame changed during capture"@
        =~= "Loop export failed: the displayed frame changed during capture"@);
    assert("Loop export failed: "@ + "the requested frame is no longer displayed"@
        =~= "Loop export failed: the requested frame is no longer displayed"@);
}

} // verus!
