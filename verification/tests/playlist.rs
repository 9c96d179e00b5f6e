use workstation_app::app::{PulseSession, WorkstationApp};
use workstation_app::clock::Generation;
use workstation_app::frame::{FrameIdentity, FrameOrigin, FrameStage, VolumeFrame};
use workstation_app::history::HistoryPolicy;
use workstation_app::install::LoadedVolume;
use workstation_app::moment::Moment;
use workstation_app::paths::ordered_unique_paths;
use workstation_app::planner::{PlanAnswer, PlaylistPlanner};
use workstation_app::sequence::{FileSequence, PreflightEstimate, ScanExtent};
use workstation_app::session::{DecodedFile, NextFile, SweepMembership};
use workstation_app::settings::{iq_controls_from, Annotation, SettingsCache, WINDOW_VON_HANN};
use workstation_app::windows::{PreflightClicks, PreflightWindow};
use workstation_app::workspace::{PaneProduct, RELATIVE_POWER};

fn untouched() -> SettingsCache {
    let annotation = Annotation {
        ring_count: 4,
        ring_labels: true,
        site_declutter_max: 40,
        site_marker_max: 200,
        range_decimals: 1,
        coordinate_decimals: 4,
    };
    SettingsCache::new(true, annotation, iq_controls_from(64, WINDOW_VON_HANN))
}

fn unlimited() -> HistoryPolicy {
    HistoryPolicy { max_frames: 0, max_estimated_bytes: 0 }
}

fn estimate(bytes: u64) -> PreflightEstimate {
    PreflightEstimate { input_size_text: "0 B".to_owned(), estimated_decoded_bytes: bytes }
}

fn frame(site: &str, seconds: i64, source: &str) -> VolumeFrame {
    VolumeFrame {
        identity: FrameIdentity {
            site_id: site.to_owned(),
            volume_time: Moment::new(seconds, 0).expect("a moment in range"),
        },
        origin: FrameOrigin::Local,
        stage: FrameStage::Complete,
        source_label: source.to_owned(),
        cuts: 1,
        radials: 360,
        estimated_bytes: 1_000,
        located: true,
        volume: seconds as u64,
    }
}

fn loaded(app: &WorkstationApp, frame: VolumeFrame, pulses: Option<PulseSession>) -> LoadedVolume {
    LoadedVolume {
        generation: app.display.board.session_clock.current(),
        frame,
        pulses,
        elapsed_ms: "1.0".to_owned(),
    }
}

fn sequence(paths: Vec<&str>, next: usize, decoded: usize, site: Option<&str>) -> FileSequence {
    let mut sequence = FileSequence::new(
        paths.into_iter().map(str::to_owned).collect(),
        estimate(0),
    );
    sequence.next = next;
    sequence.loaded = decoded;
    sequence.site_id = site.map(str::to_owned);
    sequence
}

/// What the window does with what a decode gave: every frame goes on the
/// timeline in order, the next file is asked for, and a playlist that ran out is
/// closed.
fn settle(app: &mut WorkstationApp, frames: Vec<VolumeFrame>, pulses: Option<PulseSession>) -> bool {
    let mut held = pulses;
    for one in frames {
        let volume = loaded(app, one, held.take());
        app.install_sequence_frame(volume, &vec![]);
    }
    match app.request_next_sequence_file() {
        NextFile::Nothing => false,
        NextFile::Load(_) => true,
        NextFile::Ended(last) => {
            if let Some(one) = last {
                let volume = loaded(app, one, None);
                app.install_sequence_frame(volume, &vec![]);
            }
            app.finish_file_sequence();
            false
        }
    }
}

#[test]
fn a_1075_path_selection_is_preserved_and_large_estimate_waits_for_confirmation() {
    let paths = (0..1_075)
        .rev()
        .map(|index| format!("C:/not-present/volume-{index:04}.msg31"))
        .collect::<Vec<_>>();
    let ordered = ordered_unique_paths(paths.clone());
    assert_eq!(ordered.len(), 1_075);
    assert_eq!(ordered.first().unwrap(), "C:/not-present/volume-0000.msg31");
    assert_eq!(ordered.last().unwrap(), "C:/not-present/volume-1074.msg31");

    let mut app = WorkstationApp::new(unlimited(), untouched());
    let generation = app.display.board.session_clock.current();
    let request = app.begin_load_sequence(paths).expect("a selection is planned");
    assert!(
        app.playlist.sequence.is_none(),
        "a warned selection must not start before Continue"
    );
    assert_eq!(
        app.planner.pending.as_ref().expect("metadata planning starts on its worker").selected,
        1_075
    );
    let started = app.poll_playlist_preflight(
        request.generation,
        request.paths,
        estimate(17 * 1_073_741_824),
        true,
    );
    assert!(started.is_none());
    assert!(app.planner.pending.is_none());
    let pending = app
        .planner
        .confirmation
        .as_ref()
        .expect("the >16 GiB estimate opens the warning");
    assert_eq!(pending.paths.len(), 1_075);
    assert_eq!(
        app.display.board.session_clock.current(),
        generation,
        "preflight must not clear or replace the current session"
    );
}

#[test]
fn one_user_selected_path_also_enters_worker_preflight() {
    let mut app = WorkstationApp::new(unlimited(), untouched());
    let generation = app.display.board.session_clock.current();
    let request = app.begin_load_sequence(vec![
        "C:/not-present/single-large-candidate.msg31".to_owned(),
    ]);
    assert_eq!(
        request.expect("the worker is asked").paths,
        ["C:/not-present/single-large-candidate.msg31"]
    );

    let pending = app
        .planner
        .pending
        .as_ref()
        .expect("a single browser/drop selection must not bypass RAM planning");
    assert_eq!(pending.selected, 1);
    assert_eq!(app.display.board.session_clock.current(), generation);
    assert!(app.playlist.sequence.is_none());
    app.cancel_playlist_preflight();
    assert!(app.planner.pending.is_none());
}

#[test]
fn an_approved_single_path_uses_direct_load_instead_of_a_playlist() {
    let mut app = WorkstationApp::new(unlimited(), untouched());
    let path = "C:/not-present/single-level-one-candidate.iq";

    let (next, _) = app.start_load_sequence(vec![path.to_owned()], estimate(0), unlimited());

    assert!(
        app.playlist.sequence.is_none(),
        "one approved file must retain the direct loader's raw I/Q session"
    );
    assert_eq!(app.source_path_text, path);
    assert!(app.status.starts_with("Loading "));
    match next {
        NextFile::Load(request) => assert_eq!(request.path, path),
        _ => panic!("the one file is loaded at once"),
    }
}

#[test]
fn multiple_approved_paths_still_use_a_playlist() {
    let mut app = WorkstationApp::new(unlimited(), untouched());
    let _ = app.start_load_sequence(
        vec![
            "C:/not-present/first-level-one-candidate.iq".to_owned(),
            "C:/not-present/second-level-one-candidate.iq".to_owned(),
        ],
        estimate(0),
        unlimited(),
    );
    assert_eq!(
        app.playlist
            .sequence
            .as_ref()
            .expect("multiple approved files remain a playlist")
            .paths
            .len(),
        2
    );
}

#[test]
fn playlist_buffers_proven_sweeps_into_one_logical_volume() {
    let mut app = WorkstationApp::new(unlimited(), untouched());
    let mut files = sequence(vec!["first.msg31", "second.msg31"], 2, 0, Some("DOW7"));

    files.loaded = 1;
    let ended =
        files.accept_proven_sweep_member(frame("DOW7", 1_768_605_610, "sweep-10000.msg31"), 210, None);
    assert!(ended.is_none());
    assert_eq!(
        files.logical_volumes(),
        1,
        "a nonempty pending group is already one logical volume in progress"
    );
    files.loaded = 2;
    let ended = files.accept_proven_sweep_member(
        frame("DOW7", 1_768_605_613, "sweep-13590.msg31"),
        210,
        Some(ScanExtent { cuts: 2, radials: 720, estimated_bytes: 2_000 }),
    );
    assert!(ended.is_none());

    assert!(app.display.history.is_empty(), "the group waits for a boundary");
    assert_eq!(files.pending_assembly.as_ref().unwrap().member_count, 2);
    assert_eq!(
        files.logical_volumes(),
        1,
        "additional cuts in the pending group do not make progress fall to zero"
    );
    let scan = files.flush_pending_sweep_assembly().expect("the group becomes a frame");
    app.playlist.sequence = Some(files);
    let volume = loaded(&app, scan, None);
    app.install_sequence_frame(volume, &vec![]);

    assert_eq!(app.display.history.len(), 1);
    assert_eq!(app.display.history.current().unwrap().cuts, 2);
    let files = app.playlist.sequence.as_ref().unwrap();
    assert_eq!(files.assembled_files, 2);
    assert_eq!(files.assembled_groups, 1);
}

#[test]
fn failed_member_is_a_hard_assembly_boundary() {
    let mut app = WorkstationApp::new(unlimited(), untouched());
    let mut files = sequence(vec!["first.msg31", "broken.msg31"], 2, 1, Some("DOW7"));
    let ended =
        files.accept_proven_sweep_member(frame("DOW7", 1_768_605_610, "sweep-10000.msg31"), 210, None);
    assert!(ended.is_none());
    app.playlist.sequence = Some(files);

    let ended = app.finish_sequence_failure("truncated Message 31 member".to_owned());
    assert!(!settle(&mut app, ended.into_iter().collect(), None));

    assert!(app.playlist.sequence.is_none(), "the exhausted playlist finished");
    assert_eq!(app.display.history.len(), 1, "the proven prefix was not discarded");
    let status = app.playlist.status.as_deref().unwrap();
    assert!(status.contains("2 selected"), "{status}");
    assert!(status.contains("1 decoded"), "{status}");
    assert!(status.contains("1 logical volume"), "{status}");
    assert!(status.contains("1 retained"), "{status}");
    assert!(status.contains("1 failed"), "{status}");
    assert!(
        app.playlist.detail.as_deref().unwrap().contains("broken.msg31"),
        "the corrupt member must remain individually named"
    );
}

#[test]
fn candidate_refusal_is_named_without_becoming_a_load_failure() {
    let mut app = WorkstationApp::new(unlimited(), untouched());
    app.playlist.sequence = Some(sequence(vec!["uncertain.msg31"], 1, 0, None));

    let (ended, own) = app.finish_sequence_volume(DecodedFile {
        site: "DOW7".to_owned(),
        same_position: true,
        level_one: false,
        refusal: Some("no complete recorded radar position".to_owned()),
        membership: None,
        frame: frame("DOW7", 1_768_605_610, "sweep-10000.msg31"),
    });
    assert!(ended.is_none());
    assert!(!settle(&mut app, own.into_iter().collect(), None));

    assert_eq!(app.display.history.len(), 1, "the sweep remains an independent frame");
    let status = app.playlist.status.as_deref().unwrap();
    assert!(status.contains("1 selected"), "{status}");
    assert!(status.contains("1 decoded"), "{status}");
    assert!(status.contains("1 logical volume"), "{status}");
    assert!(status.contains("1 retained"), "{status}");
    assert!(status.contains("0 failed"), "{status}");
    let detail = app.playlist.detail.as_deref().unwrap();
    assert!(detail.contains("uncertain.msg31"), "{detail}");
    assert!(detail.contains("no complete recorded radar position"), "{detail}");
}

#[test]
fn file_playlist_continues_after_failure_and_refuses_a_second_radar() {
    let mut app = WorkstationApp::new(unlimited(), untouched());
    // Deliberately reversed: the session owns and reports its order.
    let request = app
        .begin_load_sequence(vec![
            "dir/004-other-radar".to_owned(),
            "dir/003-cfrad-copy.nc".to_owned(),
            "dir/002-missing.nc".to_owned(),
            "dir/001-cfrad.nc".to_owned(),
        ])
        .expect("a selection is planned");
    let (paths, planned) = app
        .poll_playlist_preflight(request.generation, request.paths, estimate(4_000), false)
        .expect("a small selection starts at once");
    let (mut next, _) = app.start_load_sequence(paths, planned, unlimited());

    let mut order: Vec<String> = Vec::new();
    loop {
        let path = match next {
            NextFile::Load(request) => request.path,
            NextFile::Nothing => panic!("the playlist stopped"),
            NextFile::Ended(last) => {
                if let Some(one) = last {
                    let volume = loaded(&app, one, None);
                    app.install_sequence_frame(volume, &vec![]);
                }
                app.finish_file_sequence();
                break;
            }
        };
        order.push(path.clone());
        if path.ends_with("002-missing.nc") {
            let ended = app.finish_sequence_failure("could not read".to_owned());
            assert!(ended.is_none());
        } else {
            let site = if path.ends_with("004-other-radar") { "NOXP" } else { "XSAPR-SGP" };
            let (ended, own) = app.finish_sequence_volume(DecodedFile {
                site: site.to_owned(),
                same_position: site == "XSAPR-SGP",
                level_one: false,
                refusal: None,
                membership: None,
                frame: frame(site, 1_305_888_000, &path),
            });
            assert!(ended.is_none());
            if let Some(one) = own {
                let volume = loaded(&app, one, None);
                app.install_sequence_frame(volume, &vec![]);
            }
        }
        next = app.request_next_sequence_file();
    }
    assert_eq!(
        order,
        [
            "dir/001-cfrad.nc",
            "dir/002-missing.nc",
            "dir/003-cfrad-copy.nc",
            "dir/004-other-radar",
        ]
    );
    assert!(app.playlist.sequence.is_none(), "the playlist worker never finished");
    assert_eq!(
        app.display.history.len(),
        2,
        "different selected paths remain independent even when site/time metadata matches"
    );
    let retained_sources = app
        .display
        .history
        .frames()
        .iter()
        .map(|frame| frame.source_label.as_str())
        .collect::<Vec<_>>();
    assert!(
        retained_sources.iter().any(|source| source.ends_with("001-cfrad.nc")),
        "{retained_sources:?}"
    );
    assert!(
        retained_sources.iter().any(|source| source.ends_with("003-cfrad-copy.nc")),
        "{retained_sources:?}"
    );
    assert_eq!(app.display.history.current().unwrap().identity.site_id, "XSAPR-SGP");
    let status = app.playlist.status.as_deref().expect("playlist status");
    assert!(status.contains("complete"), "{status}");
    assert!(status.contains("4 selected"), "{status}");
    assert!(status.contains("2 decoded"), "{status}");
    assert!(status.contains("2 logical volume"), "{status}");
    assert!(status.contains("2 retained"), "{status}");
    assert!(status.contains("2 failed"), "{status}");
    let detail = app.playlist.detail.as_deref().expect("playlist detail");
    assert!(detail.contains("002-missing.nc"), "{detail}");
    assert!(detail.contains("does not match playlist radar"), "{detail}");
    assert!(app.pulses.is_none(), "a playlist never retains one file's raw I/Q");
}

#[test]
fn relative_iq_playlist_keeps_relative_power_but_discards_raw_session() {
    let mut app = WorkstationApp::new(unlimited(), untouched());
    let active = app.workspace.active_pane;
    app.playlist.sequence = Some(sequence(vec!["ouprime-relative.mat"], 1, 0, None));

    let (ended, own) = app.finish_sequence_volume(DecodedFile {
        site: "OUPRIME".to_owned(),
        same_position: true,
        level_one: true,
        refusal: None,
        membership: None,
        frame: frame("OUPRIME", 1_369_079_161, "stare.iqd"),
    });
    assert!(ended.is_none());
    let pulses = PulseSession { site_id: "OUPRIME".to_owned(), snr_available: false };
    assert!(!settle(&mut app, own.into_iter().collect(), Some(pulses)));

    assert!(app.playlist.sequence.is_none(), "the one-frame playlist ended");
    assert!(app.pulses.is_none(), "playlist raw pulses must not escape install");
    assert_eq!(app.display.history.len(), 1);
    assert!(
        matches!(app.workspace.panes[active].product, PaneProduct::Modeled(RELATIVE_POWER)),
        "discarding raw pulses must not also discard the honest display fallback"
    );
    assert!(app.fallback_from_ref[active]);
}

#[test]
fn a_cancelled_plan_is_answered_by_nothing() {
    let mut planner = PlaylistPlanner::new();
    let (request, line) = planner
        .begin(vec!["b".to_owned(), "a".to_owned(), "a".to_owned()])
        .expect("something was selected");
    assert_eq!(request.paths, ["a", "b"]);
    assert!(line.contains('2'), "{line}");
    planner.cancel();
    assert!(matches!(
        planner.take_estimate(request.generation, request.paths, estimate(1), false),
        PlanAnswer::Ignored
    ));
    assert!(planner.begin(vec![]).is_none());
}

#[test]
fn the_last_selection_counts() {
    let mut planner = PlaylistPlanner::new();
    let (first, _) = planner.begin(vec!["a".to_owned()]).unwrap();
    let (second, _) = planner.begin(vec!["b".to_owned()]).unwrap();
    assert!(matches!(
        planner.take_estimate(first.generation, first.paths, estimate(1), false),
        PlanAnswer::Ignored
    ));
    match planner.take_estimate(second.generation, second.paths, estimate(1), false) {
        PlanAnswer::Start(paths, planned) => {
            assert_eq!(paths, ["b"]);
            assert_eq!(planned.estimated_decoded_bytes, 1);
        }
        _ => panic!("the last selection starts"),
    }
}

#[test]
fn a_warned_selection_starts_on_continue_and_not_on_cancel() {
    let mut app = WorkstationApp::new(unlimited(), untouched());
    for go_on in [true, false] {
        let request = app
            .begin_load_sequence(vec!["dir/a.nc".to_owned(), "dir/b.nc".to_owned()])
            .unwrap();
        assert!(matches!(app.preflight_window(), PreflightWindow::Estimating(_)));
        let _ = app.poll_playlist_preflight(
            request.generation,
            request.paths,
            estimate(3 * 1_073_741_824),
            true,
        );
        match app.preflight_window() {
            PreflightWindow::Confirm { selected, input, estimated } => {
                assert!(selected.contains('2'), "{selected}");
                assert!(input.contains("0 B"), "{input}");
                assert!(estimated.contains("3.0 GiB"), "{estimated}");
            }
            _ => panic!("the warning is up"),
        }
        let begun = app.playlist_preflight_window(
            PreflightClicks { continue_loading: go_on, cancel: !go_on, closed: false },
            unlimited(),
        );
        assert_eq!(begun.is_some(), go_on);
        assert_eq!(app.playlist.sequence.is_some(), go_on);
        assert!(app.planner.confirmation.is_none());
        assert!(matches!(app.preflight_window(), PreflightWindow::Closed));
        app.playlist.sequence = None;
    }
}

#[test]
fn a_worker_that_closed_ends_the_playlist_with_its_file_named() {
    let mut app = WorkstationApp::new(unlimited(), untouched());
    let (next, _) = app.start_load_sequence(
        vec!["dir/a.nc".to_owned(), "dir/b.nc".to_owned()],
        estimate(0),
        unlimited(),
    );
    assert!(matches!(next, NextFile::Load(_)));
    app.note_sequence_worker_closed();
    assert!(app.playlist.sequence.is_none());
    let status = app.playlist.status.as_deref().unwrap();
    assert!(status.contains("2 failed"), "{status}");
    let detail = app.playlist.detail.as_deref().unwrap();
    assert!(detail.contains("a.nc") && detail.contains("b.nc"), "{detail}");
}

#[test]
fn a_group_that_ends_gives_its_scan_and_begins_the_next() {
    let mut files = sequence(vec!["a", "b", "c"], 3, 1, Some("DOW7"));
    assert!(files.accept_proven_sweep_member(frame("DOW7", 10, "a"), 1, None).is_none());
    files.loaded = 2;
    // Another scan: the first one is handed out as it stands.
    let scan = files
        .accept_proven_sweep_member(frame("DOW7", 20, "b"), 2, None)
        .expect("the first scan ended");
    assert_eq!(scan.identity.volume_time.seconds(), 10);
    assert_eq!(scan.source_label, "a");
    assert_eq!(files.pending_assembly.as_ref().unwrap().volume_sequence, 2);
    assert_eq!(files.pending_assembly.as_ref().unwrap().member_count, 1);
}

#[test]
fn an_estimate_of_another_request_is_ignored() {
    let mut app = WorkstationApp::new(unlimited(), untouched());
    let request = app.begin_load_sequence(vec!["a".to_owned()]).unwrap();
    let other = Generation { value: request.generation.value.wrapping_add(7) };
    assert!(app.poll_playlist_preflight(other, vec!["z".to_owned()], estimate(1), false).is_none());
    assert!(app.planner.pending.is_some());
}

#[test]
fn a_plan_that_cannot_start_is_said_and_waits_for_nothing() {
    let mut app = WorkstationApp::new(unlimited(), untouched());
    let request = app
        .begin_load_sequence(vec!["b".to_owned(), "a".to_owned(), "b".to_owned()])
        .expect("a selection is planned");
    assert_eq!(app.status, "Estimating playlist memory · 2 selected");
    app.note_plan_refused("no thread", request.paths.len());
    assert_eq!(
        app.status,
        "Playlist preflight could not start (no thread) · 2 selected · 0 decoded · 0 logical volumes · 0 failed"
    );
    let late = app.poll_playlist_preflight(request.generation, request.paths, estimate(0), false);
    assert!(late.is_none(), "nothing waits for that plan any more");
}
