//! A playlist: one ordered set of local files that are decoded one at a time
//! into separate timeline frames. Single-sweep files whose own bytes prove that
//! they belong to one scan are put together; everything else stays apart.

use crate::bytes::format_binary_bytes;
use crate::frame::VolumeFrame;
use crate::paths::short_path_label;
use crate::text::{append_decimal, append_decimal_padded3, same_ignoring_ascii_case};
use vstd::prelude::*;

verus! {

use crate::bytes::binary_bytes_text;
use crate::frame::FrameView;
use crate::panes::text_view;
use crate::paths::path_label;
use crate::text::{ascii_lowered, decimal, decimal_padded3, texts};

/// How many entries of a list a summary names before it counts the rest.
pub const NAMED_ENTRIES: usize = 5;

/// What planning said of a selection.
pub struct PreflightEstimate {
    /// The size of what was selected, in words.
    pub input_size_text: String,
    pub estimated_decoded_bytes: u64,
}

/// What planning said, as contracts see it.
pub ghost struct EstimateView {
    pub input_size_text: Seq<char>,
    pub estimated_decoded_bytes: u64,
}

impl View for PreflightEstimate {
    type V = EstimateView;

    open spec fn view(&self) -> EstimateView {
        EstimateView {
            input_size_text: self.input_size_text@,
            estimated_decoded_bytes: self.estimated_decoded_bytes,
        }
    }
}

/// A file and what is said of it.
pub struct FileNote {
    pub path: String,
    pub note: String,
}

/// A file's note as contracts see it.
pub ghost struct NoteView {
    pub path: Seq<char>,
    pub note: Seq<char>,
}

impl View for FileNote {
    type V = NoteView;

    open spec fn view(&self) -> NoteView {
        NoteView { path: self.path@, note: self.note@ }
    }
}

/// A list of notes as contracts see it.
pub open spec fn notes(list: Seq<FileNote>) -> Seq<NoteView> {
    list.map_values(|note: FileNote| note@)
}

/// A scan that is being put together from single-sweep files. It waits until
/// the next file extends it or proves that it ended.
pub struct PendingSweepAssembly {
    pub frame: VolumeFrame,
    pub member_count: usize,
    /// The scan's number inside the archive.
    pub volume_sequence: u16,
    pub first_source_label: String,
}

/// A waiting scan as contracts see it.
pub ghost struct PendingView {
    pub frame: FrameView,
    pub member_count: int,
    pub volume_sequence: u16,
    pub first_source_label: Seq<char>,
}

impl View for PendingSweepAssembly {
    type V = PendingView;

    open spec fn view(&self) -> PendingView {
        PendingView {
            frame: self.frame@,
            member_count: self.member_count as int,
            volume_sequence: self.volume_sequence,
            first_source_label: self.first_source_label@,
        }
    }
}

/// A waiting scan that may be absent, as contracts see it.
pub open spec fn pending_view(pending: Option<PendingSweepAssembly>) -> Option<PendingView> {
    match pending {
        Some(p) => Some(p@),
        None => None,
    }
}

/// A playlist.
pub struct FileSequence {
    pub paths: Vec<String>,
    pub preflight: PreflightEstimate,
    /// How many files have been asked for.
    pub next: usize,
    /// How many files decoded.
    pub loaded: usize,
    pub failures: Vec<FileNote>,
    /// The radar the playlist is of: that of the first file that decoded.
    pub site_id: Option<String>,
    /// How many of the files were records of pulses.
    pub level1_files: usize,
    pub pending_assembly: Option<PendingSweepAssembly>,
    pub assembled_files: usize,
    pub assembled_groups: usize,
    pub assembly_refusals: Vec<FileNote>,
    /// How many frames the configured limits removed while it ran.
    pub evicted_frames: usize,
}

/// A playlist as contracts see it.
pub ghost struct SequenceView {
    pub paths: Seq<Seq<char>>,
    pub input_size_text: Seq<char>,
    pub estimated_decoded_bytes: u64,
    pub next: int,
    pub loaded: int,
    pub failures: Seq<NoteView>,
    pub site_id: Option<Seq<char>>,
    pub level1_files: int,
    pub pending: Option<PendingView>,
    pub assembled_files: int,
    pub assembled_groups: int,
    pub refusals: Seq<NoteView>,
    pub evicted_frames: usize,
}

impl View for FileSequence {
    type V = SequenceView;

    open spec fn view(&self) -> SequenceView {
        SequenceView {
            paths: texts(self.paths@),
            input_size_text: self.preflight.input_size_text@,
            estimated_decoded_bytes: self.preflight.estimated_decoded_bytes,
            next: self.next as int,
            loaded: self.loaded as int,
            failures: notes(self.failures@),
            site_id: text_view(self.site_id),
            level1_files: self.level1_files as int,
            pending: pending_view(self.pending_assembly),
            assembled_files: self.assembled_files as int,
            assembled_groups: self.assembled_groups as int,
            refusals: notes(self.assembly_refusals@),
            evicted_frames: self.evicted_frames,
        }
    }
}

/// How many files wait in a scan that is being put together.
pub open spec fn waiting_members(sequence: SequenceView) -> int {
    match sequence.pending {
        Some(pending) => pending.member_count,
        None => 0,
    }
}

/// What holds of every playlist: no more files were asked for than there are,
/// and every file that waits or was put together decoded.
pub open spec fn sequence_wf(sequence: SequenceView) -> bool {
    &&& 0 <= sequence.next <= sequence.paths.len() <= usize::MAX
    &&& 0 <= sequence.loaded <= usize::MAX
    &&& 0 <= sequence.level1_files <= sequence.loaded
    &&& 0 <= sequence.assembled_files
    &&& 0 <= sequence.assembled_groups <= sequence.assembled_files
    &&& waiting_members(sequence) + sequence.assembled_files <= sequence.loaded
    &&& sequence.pending matches Some(pending) ==> pending.member_count >= 1
}

/// The file whose answer is awaited.
pub open spec fn awaited_path(sequence: SequenceView) -> Option<Seq<char>> {
    if 1 <= sequence.next <= sequence.paths.len() {
        Some(sequence.paths[sequence.next - 1])
    } else {
        None
    }
}

/// How the awaited file is named in a note.
pub open spec fn awaited_name(sequence: SequenceView) -> Seq<char> {
    match awaited_path(sequence) {
        Some(path) => path,
        None => "unknown file"@,
    }
}

/// A difference that stops at zero.
pub open spec fn minus(left: int, right: int) -> int {
    if left > right {
        left - right
    } else {
        0
    }
}

/// A sum that stops at the machine's largest word.
pub open spec fn plus(left: int, right: int) -> int {
    if left + right > usize::MAX {
        usize::MAX as int
    } else {
        left + right
    }
}

/// How many scans the decoded files make: those put together count as one each,
/// and a scan that still waits is one.
pub open spec fn logical_count(sequence: SequenceView) -> int {
    let waiting = waiting_members(sequence);
    plus(
        plus(
            minus(minus(sequence.loaded, waiting), sequence.assembled_files),
            sequence.assembled_groups,
        ),
        if waiting > 0 {
            1
        } else {
            0
        },
    )
}

/// As long as the counts are honest nothing is cut off: the scans are the files
/// that stand alone, the groups, and the one that waits, and there are never
/// more scans than files, nor none where a file decoded on its own or waits.
pub proof fn law_scans_are_counted_exactly(sequence: SequenceView)
    requires
        sequence_wf(sequence),
    ensures
        logical_count(sequence) == (sequence.loaded - waiting_members(sequence)
            - sequence.assembled_files) + sequence.assembled_groups + (if waiting_members(sequence)
            > 0 {
            1int
        } else {
            0int
        }),
        logical_count(sequence) <= sequence.loaded,
        sequence.assembled_groups > 0 || sequence.loaded > sequence.assembled_files
            ==> logical_count(sequence) >= 1,
{
}

// ---------------------------------------------------------------------------
// Asking for files
// ---------------------------------------------------------------------------

/// The playlist after the next file was asked for.
pub open spec fn asked_next(sequence: SequenceView) -> SequenceView {
    if sequence.next < sequence.paths.len() {
        SequenceView { next: sequence.next + 1, ..sequence }
    } else {
        sequence
    }
}

/// The playlist after the worker turned out to be closed: the file that was
/// asked for and all that were not are recorded as failed.
pub open spec fn worker_closed(sequence: SequenceView) -> SequenceView {
    let asked = sequence.paths.take(sequence.next);
    let rest = sequence.paths.subrange(sequence.next, sequence.paths.len() as int);
    SequenceView {
        paths: asked,
        failures: sequence.failures + (seq![awaited_name(sequence)] + rest).map_values(
            |path: Seq<char>| NoteView { path, note: "load worker is closed"@ },
        ),
        ..sequence
    }
}

/// The playlist after the awaited file failed.
pub open spec fn failed(sequence: SequenceView, message: Seq<char>) -> SequenceView {
    SequenceView {
        failures: sequence.failures.push(
            NoteView { path: awaited_name(sequence), note: message },
        ),
        ..sequence
    }
}

/// A playlist of which nothing has been asked for.
pub open spec fn new_sequence(paths: Seq<Seq<char>>, estimate: EstimateView) -> SequenceView {
    SequenceView {
        paths,
        input_size_text: estimate.input_size_text,
        estimated_decoded_bytes: estimate.estimated_decoded_bytes,
        next: 0,
        loaded: 0,
        failures: Seq::empty(),
        site_id: None,
        level1_files: 0,
        pending: None,
        assembled_files: 0,
        assembled_groups: 0,
        refusals: Seq::empty(),
        evicted_frames: 0,
    }
}

impl FileSequence {
    /// A playlist of which nothing has been asked for.
    pub fn new(paths: Vec<String>, preflight: PreflightEstimate) -> (sequence: FileSequence)
        ensures
            sequence@ == new_sequence(texts(paths@), preflight@),
            sequence_wf(sequence@),
    {
        let count: usize = paths.len();
        let sequence = FileSequence {
            paths,
            preflight,
            next: 0,
            loaded: 0,
            failures: Vec::new(),
            site_id: None,
            level1_files: 0,
            pending_assembly: None,
            assembled_files: 0,
            assembled_groups: 0,
            assembly_refusals: Vec::new(),
            evicted_frames: 0,
        };
        assert(sequence@.paths.len() == count);
        assert(sequence@.failures =~= Seq::empty());
        assert(sequence@.refusals =~= Seq::empty());
        sequence
    }

    /// How many files were selected.
    pub fn total(&self) -> (count: usize)
        ensures
            count == self@.paths.len(),
    {
        self.paths.len()
    }

    /// The file whose answer is awaited.
    pub fn current_path(&self) -> (path: Option<&String>)
        ensures
            match (path, awaited_path(self@)) {
                (Some(found), Some(expected)) => found@ == expected,
                (None, None) => true,
                _ => false,
            },
    {
        if self.next >= 1 && self.next - 1 < self.paths.len() {
            assert(self@.paths[self.next - 1] == self.paths@[self.next - 1]@);
            Some(&self.paths[self.next - 1])
        } else {
            None
        }
    }

    /// How many scans the decoded files make.
    pub fn logical_volumes(&self) -> (count: usize)
        ensures
            count == logical_count(self@),
    {
        let waiting: usize = match &self.pending_assembly {
            Some(pending) => pending.member_count,
            None => 0,
        };
        let one: usize = if waiting > 0 {
            1
        } else {
            0
        };
        self.loaded.saturating_sub(waiting).saturating_sub(self.assembled_files).saturating_add(
            self.assembled_groups,
        ).saturating_add(one)
    }

    /// How the awaited file is named in a note.
    fn awaited(&self) -> (name: String)
        ensures
            name@ == awaited_name(self@),
    {
        match self.current_path() {
            Some(path) => path.clone(),
            None => "unknown file".to_owned(),
        }
    }

    /// Asks for the next file, where there is one.
    pub fn take_next(&mut self) -> (path: Option<String>)
        requires
            sequence_wf(old(self)@),
        ensures
            final(self)@ == asked_next(old(self)@),
            sequence_wf(final(self)@),
            path is Some <==> old(self)@.next < old(self)@.paths.len(),
            path matches Some(found) ==> found@ == old(self)@.paths[old(self)@.next]
                && awaited_path(final(self)@) == Some(found@),
    {
        if self.next < self.paths.len() {
            assert(self@.paths[self.next as int] == self.paths@[self.next as int]@);
            let path = self.paths[self.next].clone();
            self.next = self.next + 1;
            Some(path)
        } else {
            None
        }
    }

    /// Records that the worker is closed and serves no more files.
    pub fn note_worker_closed(&mut self)
        requires
            sequence_wf(old(self)@),
        ensures
            final(self)@ == worker_closed(old(self)@),
            sequence_wf(final(self)@),
    {
        let ghost before = self@;
        let ghost rest = before.paths.subrange(before.next, before.paths.len() as int);
        let ghost closed = |path: Seq<char>|
            NoteView { path, note: "load worker is closed"@ };
        let ghost all = seq![awaited_name(before)] + rest;
        let path = self.awaited();
        self.failures.push(FileNote { path, note: "load worker is closed".to_owned() });
        let mut at: usize = self.next;
        assert(notes(self.failures@) =~= before.failures + all.take(1).map_values(closed));
        while at < self.paths.len()
            invariant
                before == old(self)@,
                sequence_wf(before),
                before.next <= at <= before.paths.len(),
                self.paths@.len() == before.paths.len(),
                self@ == (SequenceView { failures: self@.failures, ..before }),
                rest == before.paths.subrange(before.next, before.paths.len() as int),
                closed == (|path: Seq<char>| NoteView { path, note: "load worker is closed"@ }),
                all == seq![awaited_name(before)] + rest,
                self@.failures == before.failures + all.take(
                    1 + at - before.next,
                ).map_values(closed),
            decreases self.paths@.len() - at,
        {
            let ghost here = self@.failures;
            let ghost place = 1 + at - before.next;
            assert(before.paths[at as int] == self.paths@[at as int]@);
            assert(all[place] == rest[at - before.next]);
            self.failures.push(
                FileNote {
                    path: self.paths[at].clone(),
                    note: "load worker is closed".to_owned(),
                },
            );
            at = at + 1;
            proof {
                assert(self@.failures =~= here.push(closed(all[place])));
                assert(all.take(place + 1) =~= all.take(place).push(all[place]));
                assert(all.take(place + 1).map_values(closed) =~= all.take(place).map_values(
                    closed,
                ).push(closed(all[place])));
                assert(self@.failures =~= before.failures + all.take(place + 1).map_values(closed));
            }
        }
        assert(all.take(1 + before.paths.len() - before.next) =~= all);
        self.paths.truncate(self.next);
        assert(self@.paths =~= before.paths.take(before.next));
    }

    /// Records that the awaited file failed.
    pub fn note_failure(&mut self, message: String)
        requires
            sequence_wf(old(self)@),
        ensures
            final(self)@ == failed(old(self)@, message@),
            sequence_wf(final(self)@),
    {
        let ghost before = self@;
        let path = self.awaited();
        self.failures.push(FileNote { path, note: message });
        assert(self@.failures =~= failed(before, message@).failures);
    }
}

// ---------------------------------------------------------------------------
// Files that decoded
// ---------------------------------------------------------------------------

/// Why a file is skipped: its radar, or its radar's place, is not the
/// playlist's. The first file that decodes fixes both.
pub open spec fn radar_mismatch(
    sequence: SequenceView,
    site: Seq<char>,
    same_position: bool,
) -> Option<Seq<char>> {
    match sequence.site_id {
        None => None,
        Some(expected) => if ascii_lowered(site) != ascii_lowered(expected) {
            Some(
                "radar "@ + site + " does not match playlist radar "@ + expected
                    + "; file skipped"@,
            )
        } else if !same_position {
            Some("radar position differs from the first playlist frame; file skipped"@)
        } else {
            None
        },
    }
}

/// The playlist after a file of its radar decoded.
pub open spec fn admitted(
    sequence: SequenceView,
    site: Seq<char>,
    level_one: bool,
    refusal: Option<Seq<char>>,
) -> SequenceView {
    SequenceView {
        site_id: match sequence.site_id {
            Some(known) => Some(known),
            None => Some(site),
        },
        level1_files: if level_one {
            sequence.level1_files + 1
        } else {
            sequence.level1_files
        },
        loaded: sequence.loaded + 1,
        refusals: match refusal {
            Some(reason) => sequence.refusals.push(
                NoteView { path: awaited_name(sequence), note: reason },
            ),
            None => sequence.refusals,
        },
        ..sequence
    }
}

/// The playlist's radar, once it has one, never changes.
pub proof fn law_the_first_file_fixes_the_radar(
    sequence: SequenceView,
    site: Seq<char>,
    level_one: bool,
    refusal: Option<Seq<char>>,
)
    ensures
        sequence.site_id is Some ==> admitted(sequence, site, level_one, refusal).site_id
            == sequence.site_id,
        sequence.site_id is None ==> admitted(sequence, site, level_one, refusal).site_id == Some(
            site,
        ),
        sequence.site_id is None ==> radar_mismatch(sequence, site, false) is None,
{
}

/// How much data a scan holds.
#[derive(Clone, Copy, Debug, PartialEq, Eq, Structural)]
pub struct ScanExtent {
    pub cuts: usize,
    pub radials: usize,
    pub estimated_bytes: u64,
}

/// The name of a scan put together from `count` files.
pub open spec fn assembled_label(first: Seq<char>, count: int, volume_sequence: u16) -> Seq<char> {
    first + " (+"@ + decimal((count - 1) as nat) + " sweep files, internal volume "@
        + decimal_padded3(volume_sequence as nat) + ")"@
}

/// A scan that begins with one file.
pub open spec fn begun(frame: FrameView, volume_sequence: u16) -> PendingView {
    PendingView {
        frame,
        member_count: 1,
        volume_sequence,
        first_source_label: frame.source_label,
    }
}

/// A waiting scan with one more file.
pub open spec fn extended(pending: PendingView, joined: ScanExtent) -> PendingView {
    let count = pending.member_count + 1;
    PendingView {
        frame: FrameView {
            source_label: assembled_label(
                pending.first_source_label,
                count,
                pending.volume_sequence,
            ),
            cuts: joined.cuts,
            radials: joined.radials,
            estimated_bytes: joined.estimated_bytes,
            ..pending.frame
        },
        member_count: count,
        ..pending
    }
}

/// The playlist after the waiting scan went to the timeline.
pub open spec fn flushed(sequence: SequenceView) -> SequenceView {
    match sequence.pending {
        None => sequence,
        Some(pending) => SequenceView {
            pending: None,
            assembled_files: if pending.member_count > 1 {
                sequence.assembled_files + pending.member_count
            } else {
                sequence.assembled_files
            },
            assembled_groups: if pending.member_count > 1 {
                sequence.assembled_groups + 1
            } else {
                sequence.assembled_groups
            },
            ..sequence
        },
    }
}

/// What goes to the timeline when the waiting scan does.
pub open spec fn flushed_frame(sequence: SequenceView) -> Option<FrameView> {
    match sequence.pending {
        Some(pending) => Some(pending.frame),
        None => None,
    }
}

/// The playlist after a single-sweep file arrived. `joined` is the scan it makes
/// with the one that waits, where its bytes prove that it belongs to it.
pub open spec fn member_accepted(
    sequence: SequenceView,
    frame: FrameView,
    volume_sequence: u16,
    joined: Option<ScanExtent>,
) -> SequenceView {
    match (sequence.pending, joined) {
        (Some(pending), Some(extent)) => SequenceView {
            pending: Some(extended(pending, extent)),
            ..sequence
        },
        _ => SequenceView { pending: Some(begun(frame, volume_sequence)), ..flushed(sequence) },
    }
}

/// Sending the waiting scan to the timeline changes no count of scans: it was
/// counted as one while it waited.
pub proof fn law_a_flush_keeps_the_count(sequence: SequenceView)
    requires
        sequence_wf(sequence),
    ensures
        logical_count(flushed(sequence)) == logical_count(sequence),
        sequence_wf(flushed(sequence)),
{
}

/// A file that belongs to the scan that waits adds no scan; one that does not
/// adds exactly one.
pub proof fn law_only_a_new_scan_counts(
    sequence: SequenceView,
    site: Seq<char>,
    level_one: bool,
    refusal: Option<Seq<char>>,
    frame: FrameView,
    volume_sequence: u16,
    extent: ScanExtent,
)
    requires
        sequence_wf(sequence),
        sequence.loaded < usize::MAX,
        sequence.pending is Some,
    ensures
        ({
            let counted = admitted(sequence, site, level_one, refusal);
            &&& logical_count(member_accepted(counted, frame, volume_sequence, Some(extent)))
                == logical_count(sequence)
            &&& logical_count(member_accepted(counted, frame, volume_sequence, None))
                == logical_count(sequence) + 1
        }),
{
    let counted = admitted(sequence, site, level_one, refusal);
    law_scans_are_counted_exactly(sequence);
}

impl FileSequence {
    /// Why a file of this radar is skipped, where it is. `same_position` says
    /// whether the radar stood where the playlist's first did.
    pub fn refuse_radar(&self, site: &str, same_position: bool) -> (reason: Option<String>)
        ensures
            text_view(reason) == radar_mismatch(self@, site@, same_position),
    {
        match &self.site_id {
            None => None,
            Some(expected) => {
                if !same_ignoring_ascii_case(site, expected.as_str()) {
                    let mut reason = "radar ".to_owned();
                    reason.append(site);
                    reason.append(" does not match playlist radar ");
                    reason.append(expected.as_str());
                    reason.append("; file skipped");
                    Some(reason)
                } else if !same_position {
                    Some(
                        "radar position differs from the first playlist frame; file skipped".to_owned(),
                    )
                } else {
                    None
                }
            },
        }
    }

    /// Counts a file of the playlist's radar that decoded, with why it was kept
    /// apart where that is worth a word.
    pub fn count_decoded(&mut self, site: String, level_one: bool, refusal: Option<String>)
        requires
            sequence_wf(old(self)@),
            old(self)@.loaded < usize::MAX,
        ensures
            final(self)@ == admitted(old(self)@, site@, level_one, text_view(refusal)),
            sequence_wf(final(self)@),
    {
        let ghost before = self@;
        if self.site_id.is_none() {
            self.site_id = Some(site);
        }
        if level_one {
            self.level1_files = self.level1_files + 1;
        }
        self.loaded = self.loaded + 1;
        if let Some(reason) = refusal {
            let path = self.awaited();
            self.assembly_refusals.push(FileNote { path, note: reason });
            assert(self@.refusals =~= before.refusals.push(
                NoteView { path: awaited_name(before), note: reason@ },
            ));
        }
    }

    /// Sends the waiting scan to the timeline, where there is one.
    pub fn flush_pending_sweep_assembly(&mut self) -> (frame: Option<VolumeFrame>)
        requires
            sequence_wf(old(self)@),
        ensures
            final(self)@ == flushed(old(self)@),
            sequence_wf(final(self)@),
            match (frame, flushed_frame(old(self)@)) {
                (Some(found), Some(expected)) => found@ == expected,
                (None, None) => true,
                _ => false,
            },
    {
        let pending = self.pending_assembly.take();
        match pending {
            None => None,
            Some(pending) => {
                if pending.member_count > 1 {
                    self.assembled_files = self.assembled_files + pending.member_count;
                    self.assembled_groups = self.assembled_groups + 1;
                }
                Some(pending.frame)
            },
        }
    }

    /// Takes a single-sweep file: it extends the scan that waits where `joined`
    /// says that it does, else it begins one, and the one that waited goes to
    /// the timeline.
    pub fn accept_proven_sweep_member(
        &mut self,
        frame: VolumeFrame,
        volume_sequence: u16,
        joined: Option<ScanExtent>,
    ) -> (ended: Option<VolumeFrame>)
        requires
            sequence_wf(old(self)@),
            waiting_members(old(self)@) + old(self)@.assembled_files < old(self)@.loaded,
        ensures
            final(self)@ == member_accepted(old(self)@, frame@, volume_sequence, joined),
            sequence_wf(final(self)@),
            match (ended, if joined is Some {
                None
            } else {
                flushed_frame(old(self)@)
            }) {
                (Some(found), Some(expected)) => found@ == expected,
                (None, None) => true,
                _ => false,
            },
    {
        match joined {
            Some(extent) => {
                match self.pending_assembly.take() {
                    Some(pending) => {
                        let count: usize = pending.member_count + 1;
                        let mut label = pending.first_source_label.clone();
                        label.append(" (+");
                        append_decimal(&mut label, count as u64 - 1);
                        label.append(" sweep files, internal volume ");
                        append_decimal_padded3(&mut label, pending.volume_sequence as u64);
                        label.append(")");
                        let mut frame = pending.frame;
                        frame.source_label = label;
                        frame.cuts = extent.cuts;
                        frame.radials = extent.radials;
                        frame.estimated_bytes = extent.estimated_bytes;
                        self.pending_assembly =
                        Some(
                            PendingSweepAssembly {
                                frame,
                                member_count: count,
                                volume_sequence: pending.volume_sequence,
                                first_source_label: pending.first_source_label,
                            },
                        );
                        return None;
                    },
                    None => {
                        let first_source_label = frame.source_label.clone();
                        self.pending_assembly =
                        Some(
                            PendingSweepAssembly {
                                frame,
                                member_count: 1,
                                volume_sequence,
                                first_source_label,
                            },
                        );
                        return None;
                    },
                }
            },
            None => {
                let ended = self.flush_pending_sweep_assembly();
                let first_source_label = frame.source_label.clone();
                self.pending_assembly =
                Some(
                    PendingSweepAssembly {
                        frame,
                        member_count: 1,
                        volume_sequence,
                        first_source_label,
                    },
                );
                ended
            },
        }
    }

    /// Counts frames that the configured limits removed.
    pub fn note_evictions(&mut self, evicted: usize)
        requires
            sequence_wf(old(self)@),
        ensures
            final(self)@ == (SequenceView {
                evicted_frames: plus(old(self)@.evicted_frames as int, evicted as int) as usize,
                ..old(self)@
            }),
            sequence_wf(final(self)@),
    {
        self.evicted_frames = self.evicted_frames.saturating_add(evicted);
    }
}

// ---------------------------------------------------------------------------
// What the timeline says of a playlist
// ---------------------------------------------------------------------------

/// The place the playlist is at, as it is counted aloud.
pub open spec fn place_aloud(sequence: SequenceView) -> int {
    let counted = if sequence.next < 1 {
        1
    } else {
        sequence.next
    };
    if counted > sequence.paths.len() {
        sequence.paths.len() as int
    } else {
        counted
    }
}

/// The playlist's line while it runs.
pub open spec fn progress_text(sequence: SequenceView, action: Seq<char>, retained: nat) -> Seq<
    char,
> {
    "Playlist "@ + decimal(place_aloud(sequence) as nat) + "/"@ + decimal(sequence.paths.len())
        + " \u{b7} "@ + action + " \u{b7} "@ + decimal(sequence.loaded as nat)
        + " decoded \u{b7} "@ + decimal(logical_count(sequence) as nat) + " logical \u{b7} "@
        + decimal(retained) + " retained \u{b7} "@ + decimal(sequence.failures.len()) + " failed"@
}

/// The detail behind the playlist's line while it runs.
pub open spec fn progress_detail(sequence: SequenceView) -> Seq<char> {
    decimal(sequence.paths.len())
        + " files selected in filename order. Files are independent frames unless matching internal Archive II volume identity proves they are one-cut members of one logical volume."@
        + (match awaited_path(sequence) {
        Some(path) => " Current file: "@ + path + "."@,
        None => Seq::empty(),
    }) + " "@ + decimal(sequence.refusals.len())
        + " safe assembly boundary/boundaries so far. Successful frames are ordered by radar volume time; a different radar or radar position is skipped because this workspace has one map anchor."@
}

/// The playlist's line when it is done.
pub open spec fn completion_text(sequence: SequenceView, retained: nat) -> Seq<char> {
    "Playlist complete \u{b7} "@ + decimal(sequence.paths.len()) + " selected \u{b7} "@ + decimal(
        sequence.loaded as nat,
    ) + " decoded \u{b7} "@ + decimal(logical_count(sequence) as nat)
        + " logical volume(s) \u{b7} "@ + decimal(retained) + " retained \u{b7} "@ + decimal(
        sequence.failures.len(),
    ) + " failed"@
}

/// The first `count` of a list of notes, each with what is said of it.
pub open spec fn named_notes(list: Seq<NoteView>, count: nat) -> Seq<char>
    decreases count,
{
    if count == 0 {
        Seq::empty()
    } else {
        let note = list[count - 1];
        named_notes(list, (count - 1) as nat) + (if count > 1 {
            "; "@
        } else {
            Seq::empty()
        }) + path_label(note.path) + " ("@ + note.note + ")"@
    }
}

/// A list of notes: the first few by name, and how many more there are.
pub open spec fn summarised(list: Seq<NoteView>) -> Seq<char> {
    if list.len() > NAMED_ENTRIES {
        named_notes(list, NAMED_ENTRIES as nat) + "; and "@ + decimal(
            (list.len() - NAMED_ENTRIES) as nat,
        ) + " more"@
    } else {
        named_notes(list, list.len())
    }
}

/// The detail behind the playlist's line when it is done.
pub open spec fn completion_detail(sequence: SequenceView) -> Seq<char> {
    "Loaded in filename order; the timeline orders retained frames by radar volume time. Preflight saw "@
        + sequence.input_size_text + " input and estimated "@ + binary_bytes_text(
        sequence.estimated_decoded_bytes as nat,
    ) + " decoded RAM. Internal Archive II evidence assembled "@ + decimal(
        sequence.assembled_files as nat,
    ) + " file(s) into "@ + decimal(sequence.assembled_groups as nat)
        + " logical volume(s); all weaker or ambiguous cases stayed independent."@ + (
    if sequence.evicted_frames > 0 {
        " Configured history limits explicitly evicted "@ + decimal(
            sequence.evicted_frames as nat,
        ) + " frame(s) during this playlist."@
    } else {
        Seq::empty()
    }) + (if sequence.level1_files > 0 {
        " Level 1 frames keep their estimated moments, but raw spectrum and reprocessing controls are disabled for a playlist so pulses from one file cannot be applied to another."@
    } else {
        Seq::empty()
    }) + (if sequence.refusals.len() > 0 {
        " Kept separate: "@ + summarised(sequence.refusals)
    } else {
        Seq::empty()
    }) + (if sequence.failures.len() > 0 {
        " Failed: "@ + summarised(sequence.failures)
    } else {
        Seq::empty()
    })
}

/// Appends a list of notes: the first few by name, and how many more there are.
fn append_summary(text: &mut String, list: &Vec<FileNote>)
    ensures
        final(text)@ == old(text)@ + summarised(notes(list@)),
{
    let ghost head = text@;
    let ghost all = notes(list@);
    let count: usize = if list.len() > NAMED_ENTRIES {
        NAMED_ENTRIES
    } else {
        list.len()
    };
    let mut at: usize = 0;
    assert(text@ =~= head + named_notes(all, 0));
    while at < count
        invariant
            at <= count <= list@.len(),
            all == notes(list@),
            text@ == head + named_notes(all, at as nat),
        decreases count - at,
    {
        if at > 0 {
            text.append("; ");
        }
        assert(all[at as int] == list@[at as int]@);
        text.append(short_path_label(list[at].path.as_str()).as_str());
        text.append(" (");
        text.append(list[at].note.as_str());
        text.append(")");
        at = at + 1;
        assert(text@ =~= head + named_notes(all, at as nat));
    }
    if list.len() > NAMED_ENTRIES {
        text.append("; and ");
        append_decimal(text, (list.len() - NAMED_ENTRIES) as u64);
        text.append(" more");
    }
    assert(text@ =~= head + summarised(all));
}

impl FileSequence {
    /// The playlist's line while it runs.
    pub fn progress(&self, action: &str, retained: usize) -> (text: String)
        requires
            sequence_wf(self@),
        ensures
            text@ == progress_text(self@, action@, retained as nat),
    {
        let total: usize = self.total();
        let counted: usize = if self.next < 1 {
            1
        } else {
            self.next
        };
        let place: usize = if counted > total {
            total
        } else {
            counted
        };
        let mut text = "Playlist ".to_owned();
        append_decimal(&mut text, place as u64);
        text.append("/");
        append_decimal(&mut text, total as u64);
        text.append(" \u{b7} ");
        text.append(action);
        text.append(" \u{b7} ");
        append_decimal(&mut text, self.loaded as u64);
        text.append(" decoded \u{b7} ");
        append_decimal(&mut text, self.logical_volumes() as u64);
        text.append(" logical \u{b7} ");
        append_decimal(&mut text, retained as u64);
        text.append(" retained \u{b7} ");
        append_decimal(&mut text, self.failures.len() as u64);
        text.append(" failed");
        text
    }

    /// The detail behind the playlist's line while it runs.
    pub fn progress_hover(&self) -> (text: String)
        ensures
            text@ == progress_detail(self@),
    {
        let mut text = String::new();
        append_decimal(&mut text, self.total() as u64);
        text.append(
            " files selected in filename order. Files are independent frames unless matching internal Archive II volume identity proves they are one-cut members of one logical volume.",
        );
        if let Some(path) = self.current_path() {
            text.append(" Current file: ");
            text.append(path.as_str());
            text.append(".");
        }
        text.append(" ");
        append_decimal(&mut text, self.assembly_refusals.len() as u64);
        text.append(
            " safe assembly boundary/boundaries so far. Successful frames are ordered by radar volume time; a different radar or radar position is skipped because this workspace has one map anchor.",
        );
        assert(text@ =~= progress_detail(self@));
        text
    }

    /// The playlist's line when it is done.
    pub fn completion(&self, retained: usize) -> (text: String)
        ensures
            text@ == completion_text(self@, retained as nat),
    {
        let mut text = "Playlist complete \u{b7} ".to_owned();
        append_decimal(&mut text, self.total() as u64);
        text.append(" selected \u{b7} ");
        append_decimal(&mut text, self.loaded as u64);
        text.append(" decoded \u{b7} ");
        append_decimal(&mut text, self.logical_volumes() as u64);
        text.append(" logical volume(s) \u{b7} ");
        append_decimal(&mut text, retained as u64);
        text.append(" retained \u{b7} ");
        append_decimal(&mut text, self.failures.len() as u64);
        text.append(" failed");
        text
    }

    /// The detail behind the playlist's line when it is done.
    pub fn completion_hover(&self) -> (text: String)
        ensures
            text@ == completion_detail(self@),
    {
        let mut text =
            "Loaded in filename order; the timeline orders retained frames by radar volume time. Preflight saw ".to_owned();
        text.append(self.preflight.input_size_text.as_str());
        text.append(" input and estimated ");
        text.append(format_binary_bytes(self.preflight.estimated_decoded_bytes).as_str());
        text.append(" decoded RAM. Internal Archive II evidence assembled ");
        append_decimal(&mut text, self.assembled_files as u64);
        text.append(" file(s) into ");
        append_decimal(&mut text, self.assembled_groups as u64);
        text.append(
            " logical volume(s); all weaker or ambiguous cases stayed independent.",
        );
        let ghost head = text@;
        if self.evicted_frames > 0 {
            text.append(" Configured history limits explicitly evicted ");
            append_decimal(&mut text, self.evicted_frames as u64);
            text.append(" frame(s) during this playlist.");
        }
        let ghost evictions = if self@.evicted_frames > 0 {
            " Configured history limits explicitly evicted "@ + decimal(
                self@.evicted_frames as nat,
            ) + " frame(s) during this playlist."@
        } else {
            Seq::empty()
        };
        assert(text@ =~= head + evictions);
        let ghost head2 = text@;
        if self.level1_files > 0 {
            text.append(
                " Level 1 frames keep their estimated moments, but raw spectrum and reprocessing controls are disabled for a playlist so pulses from one file cannot be applied to another.",
            );
        }
        let ghost pulses = if self@.level1_files > 0 {
            " Level 1 frames keep their estimated moments, but raw spectrum and reprocessing controls are disabled for a playlist so pulses from one file cannot be applied to another."@
        } else {
            Seq::empty()
        };
        assert(text@ =~= head2 + pulses);
        let ghost head3 = text@;
        if self.assembly_refusals.len() > 0 {
            text.append(" Kept separate: ");
            append_summary(&mut text, &self.assembly_refusals);
        }
        let ghost apart = if self@.refusals.len() > 0 {
            " Kept separate: "@ + summarised(self@.refusals)
        } else {
            Seq::empty()
        };
        assert(text@ =~= head3 + apart);
        let ghost head4 = text@;
        if self.failures.len() > 0 {
            text.append(" Failed: ");
            append_summary(&mut text, &self.failures);
        }
        let ghost broken = if self@.failures.len() > 0 {
            " Failed: "@ + summarised(self@.failures)
        } else {
            Seq::empty()
        };
        assert(text@ =~= head4 + broken);
        text
    }
}

// ---------------------------------------------------------------------------
// Laws of the account
// ---------------------------------------------------------------------------

/// Asking for the next file asks for exactly the one that comes next in the list,
/// and passes no file over; when none is left nothing is asked for.
pub proof fn law_files_are_asked_for_in_order(sequence: SequenceView)
    requires
        sequence_wf(sequence),
    ensures
        sequence.next < sequence.paths.len() ==> {
            &&& asked_next(sequence).next == sequence.next + 1
            &&& awaited_path(asked_next(sequence)) == Some(sequence.paths[sequence.next])
            &&& awaited_name(asked_next(sequence)) == sequence.paths[sequence.next]
        },
        sequence.next == sequence.paths.len() ==> asked_next(sequence) == sequence,
        asked_next(sequence).paths == sequence.paths,
        asked_next(sequence).loaded == sequence.loaded,
        asked_next(sequence).failures == sequence.failures,
        asked_next(sequence).pending == sequence.pending,
        sequence.next == 0 ==> awaited_path(sequence) is None,
{
}

/// A worker that closes fails every file that has not been answered: the one that
/// was asked for, then each that was not, in their order; and none of them is
/// asked for any more.
pub proof fn law_a_closed_worker_fails_the_rest(sequence: SequenceView, index: int)
    requires
        sequence_wf(sequence),
        1 <= sequence.next,
        0 <= index <= sequence.paths.len() - sequence.next,
    ensures
        ({
            let after = worker_closed(sequence);
            let known = sequence.failures.len() as int;
            &&& after.failures.len() == known + 1 + (sequence.paths.len() - sequence.next)
            &&& after.failures.take(known) == sequence.failures
            &&& after.failures[known + index].path == sequence.paths[sequence.next - 1 + index]
            &&& after.failures[known + index].note == "load worker is closed"@
            &&& after.paths == sequence.paths.take(sequence.next)
            &&& after.next == sequence.next
            &&& after.loaded == sequence.loaded
            &&& after.pending == sequence.pending
            &&& asked_next(after) == after
        }),
{
    let after = worker_closed(sequence);
    let known = sequence.failures.len() as int;
    assert(after.failures.take(known) =~= sequence.failures);
}

/// A file that fails is put into the account under its own path, behind those
/// before it, and counts as nothing else.
pub proof fn law_a_failed_file_is_in_the_account(sequence: SequenceView, message: Seq<char>)
    requires
        1 <= sequence.next <= sequence.paths.len(),
    ensures
        ({
            let after = failed(sequence, message);
            &&& after.failures.len() == sequence.failures.len() + 1
            &&& after.failures.last().path == sequence.paths[sequence.next - 1]
            &&& after.failures.last().note == message
            &&& after.failures.drop_last() == sequence.failures
            &&& after.loaded == sequence.loaded
            &&& after.pending == sequence.pending
            &&& after.paths == sequence.paths
            &&& after.next == sequence.next
            &&& logical_count(after) == logical_count(sequence)
        }),
{
    assert(failed(sequence, message).failures.drop_last() =~= sequence.failures);
}

/// What sending the waiting scan to the timeline counts: the files of a scan put
/// together from several count as assembled, in one group more; a scan of one
/// file counts as neither.
pub proof fn law_what_a_flush_counts(sequence: SequenceView)
    ensures
        ({
            let after = flushed(sequence);
            &&& after.pending is None
            &&& sequence.pending is None ==> after == sequence
            &&& flushed_frame(sequence) is Some <==> sequence.pending is Some
            &&& sequence.pending matches Some(waiting) ==> {
                &&& flushed_frame(sequence) == Some(waiting.frame)
                &&& waiting.member_count <= 1 ==> after.assembled_files == sequence.assembled_files
                    && after.assembled_groups == sequence.assembled_groups
                &&& waiting.member_count > 1 ==> after.assembled_files == sequence.assembled_files
                    + waiting.member_count && after.assembled_groups == sequence.assembled_groups
                    + 1
            }
            &&& after.loaded == sequence.loaded
            &&& after.failures == sequence.failures
            &&& after.refusals == sequence.refusals
            &&& after.paths == sequence.paths
            &&& after.next == sequence.next
        }),
{
}

/// A scan put together names its first file, how many more there are, and its
/// number in the archive to three digits.
pub proof fn law_an_assembled_scan_names_its_files(pending: PendingView, extent: ScanExtent)
    requires
        pending.member_count >= 1,
    ensures
        ({
            let grown = extended(pending, extent);
            &&& grown.member_count == pending.member_count + 1
            &&& grown.frame.source_label == pending.first_source_label + " (+"@ + decimal(
                pending.member_count as nat,
            ) + " sweep files, internal volume "@ + decimal_padded3(pending.volume_sequence as nat)
                + ")"@
            &&& grown.first_source_label == pending.first_source_label
            &&& grown.frame.cuts == extent.cuts
            &&& grown.frame.radials == extent.radials
            &&& grown.frame.estimated_bytes == extent.estimated_bytes
        }),
{
}

/// The place that progress is told at: never under one, never over the number of
/// files, and else as many as were asked for.
pub proof fn law_the_place_told_is_in_the_list(sequence: SequenceView)
    requires
        sequence_wf(sequence),
        sequence.paths.len() > 0,
    ensures
        1 <= place_aloud(sequence) <= sequence.paths.len(),
        1 <= sequence.next ==> place_aloud(sequence) == sequence.next,
        sequence.next == 0 ==> place_aloud(sequence) == 1,
{
}

/// A summary names up to five entries, each by its label and its note, and counts
/// what is left over.
pub proof fn law_a_summary_names_five(list: Seq<NoteView>)
    requires
        list.len() > 0,
    ensures
        (path_label(list[0].path) + " ("@ + list[0].note + ")"@).is_prefix_of(summarised(list)),
        list.len() == 1 ==> summarised(list) == path_label(list[0].path) + " ("@ + list[0].note
            + ")"@,
        list.len() > 5 ==> ("; and "@ + decimal((list.len() - 5) as nat)
            + " more"@).is_suffix_of(summarised(list)),
{
    let count = if list.len() > NAMED_ENTRIES {
        NAMED_ENTRIES as nat
    } else {
        list.len()
    };
    lemma_first_note_leads(list, count);
    let first = path_label(list[0].path) + " ("@ + list[0].note + ")"@;
    let named = named_notes(list, count);
    let whole = summarised(list);
    assert(first =~= whole.subrange(0, first.len() as int)) by {
        assert(named.subrange(0, first.len() as int) =~= whole.subrange(0, first.len() as int));
    }
    if list.len() == 1 {
        reveal_with_fuel(named_notes, 2);
        assert(named =~= first);
    }
    if list.len() > 5 {
        let rest = "; and "@ + decimal((list.len() - 5) as nat) + " more"@;
        assert(rest =~= whole.subrange(whole.len() - rest.len(), whole.len() as int));
    }
}

proof fn lemma_first_note_leads(list: Seq<NoteView>, count: nat)
    requires
        1 <= count <= list.len(),
    ensures
        (path_label(list[0].path) + " ("@ + list[0].note + ")"@).is_prefix_of(
            named_notes(list, count),
        ),
    decreases count,
{
    let first = path_label(list[0].path) + " ("@ + list[0].note + ")"@;
    let named = named_notes(list, count);
    if count == 1 {
        reveal_with_fuel(named_notes, 2);
        assert(named =~= first);
        assert(first =~= named.subrange(0, first.len() as int));
    } else {
        lemma_first_note_leads(list, (count - 1) as nat);
        let rest = named_notes(list, (count - 1) as nat);
        assert(rest.subrange(0, first.len() as int) =~= named.subrange(0, first.len() as int));
    }
}

/// What is told when a playlist is over: how many files were selected, how many
/// decoded, how many scans they made, how many are kept, and how many failed.
pub proof fn law_the_end_tells_the_account(sequence: SequenceView, retained: nat)
    requires
        sequence_wf(sequence),
        sequence.pending is None,
    ensures
        completion_text(sequence, retained) == "Playlist complete \u{b7} "@ + decimal(
            sequence.paths.len(),
        ) + " selected \u{b7} "@ + decimal(sequence.loaded as nat) + " decoded \u{b7} "@ + decimal(
            (sequence.loaded - sequence.assembled_files + sequence.assembled_groups) as nat,
        ) + " logical volume(s) \u{b7} "@ + decimal(retained) + " retained \u{b7} "@ + decimal(
            sequence.failures.len(),
        ) + " failed"@,
{
    law_scans_are_counted_exactly(sequence);
}

} // verus!
