use workstation_app::frame::{FrameIdentity, FrameOrigin, FrameStage, VolumeFrame};
use workstation_app::live::{FeedFreshness, LiveFeed};
use workstation_app::moment::Moment;
use workstation_app::probe::{
    gate_spectrum_absence, gate_spectrum_for, source_probe_text, BlankCell, CensorKey, CensorStep,
    GateEstimate, ProbeCensor, ProbeReading, SpectrumStep,
};
use workstation_app::readouts::{
    active_profile_line, pane_header_status, queued_panes, source_field_status, SourcePalette,
};
use workstation_app::tilt::{
    active_censoring_readouts, active_tilt_hover, active_tilt_label, resolve_modeled_cut,
    resolve_source_cut, source_field_tilt_hover, step_source_cut, ChosenCut, ModeledCuts,
    SourceCut, SourceFacts, SweepCensoring, TiltFacts,
};
use workstation_app::workspace::TiltSelection;

const FILTERED_WORD: &str = "FILTERED";

fn storm_mode() -> &'static str {
    "FILTERED · REF below 20 dBZ hidden"
}

fn now() -> Moment {
    Moment::new(1_787_225_220, 0).unwrap()
}

fn weak_echo_volume() -> VolumeFrame {
    VolumeFrame {
        identity: FrameIdentity {
            site_id: "KTLX".to_owned(),
            volume_time: Moment::new(1_787_156_686, 0).unwrap(),
        },
        origin: FrameOrigin::Live,
        stage: FrameStage::Complete,
        source_label: "test".to_owned(),
        cuts: 1,
        radials: 360,
        estimated_bytes: 1,
        located: true,
        volume: 1,
    }
}

#[test]
fn a_pane_says_filtered_before_any_render_has_answered() {
    let status = pane_header_status(Some(storm_mode()), &None, None, &None, None, "", &now());
    assert!(
        status.starts_with(FILTERED_WORD),
        "a pane with no render behind it said {status:?}"
    );
    assert!(status.contains("REF below 20 dBZ"), "{status:?}");
}

#[test]
fn the_header_takes_the_engines_counts_only_while_they_still_describe_the_filter() {
    // What the worker would have installed for this filter.
    let landed = Some(format!("{} · 269,740 of 298,195 gates", storm_mode()));
    let status = pane_header_status(Some(storm_mode()), &landed, None, &None, None, "", &now());
    assert!(
        status.starts_with(landed.as_ref().unwrap().as_str()),
        "the header dropped the engine's own counts: {status:?}"
    );
    assert!(status.contains("269,740 of 298,195"), "{status:?}");

    // Now the analyst moves a criterion. The installed report is about the old
    // one until a new render lands.
    let status = pane_header_status(None, &landed, None, &None, None, "", &now());
    assert!(
        !status.contains(FILTERED_WORD),
        "the filter is off and the header still quotes a filtered render: {status:?}"
    );

    let loosened = "FILTERED · REF below 30 dBZ hidden";
    let status = pane_header_status(Some(loosened), &landed, None, &None, None, "", &now());
    assert!(
        !status.contains("269,740"),
        "the header printed one filter's counts under another filter's criteria: {status:?}"
    );
    assert!(
        status.contains("REF below 30 dBZ hidden"),
        "the header stopped naming what is being hidden: {status:?}"
    );
}

#[test]
fn the_filter_statement_comes_first_on_the_header_row() {
    let frame = weak_echo_volume();
    // Old enough that the age and the stall word are both in the row.
    let feed = Some(LiveFeed {
        site: "KTLX".to_owned(),
        newest_volume_time: Moment::new(1_787_156_686, 0).unwrap(),
        freshness: FeedFreshness::Current,
    });
    let status = pane_header_status(
        Some(storm_mode()),
        &None,
        None,
        &feed,
        Some(&frame),
        "27.5 ms",
        &now(),
    );
    assert!(
        status.starts_with(FILTERED_WORD),
        "the header buries its filter statement behind {status:?}"
    );
    assert!(
        status.contains("old"),
        "this row carries no age, so the ordering claim is vacuous: {status:?}"
    );
    assert_eq!(
        status,
        "FILTERED · REF below 20 dBZ hidden · STALLED · 19 h old · 27.5 ms"
    );
}

#[test]
fn the_bar_states_the_snr_threshold_the_sweep_on_screen_was_censored_at() {
    for (moment, threshold, expected) in [
        ("REF", "2.0", "REF SNR threshold 2.0 dB"),
        ("VEL", "3.5", "VEL SNR threshold 3.5 dB"),
    ] {
        let (snr, recombined) = active_censoring_readouts(&Some(SweepCensoring {
            moment,
            snr_threshold_db: Some(threshold),
            recombination: None,
        }));
        assert_eq!(snr.as_deref(), Some(expected));
        assert_eq!(recombined, None, "an un-recombined sweep was reported as coarsened");
    }
}

#[test]
fn a_recombined_sweep_states_its_loss_in_full() {
    let (snr, recombined) = active_censoring_readouts(&Some(SweepCensoring {
        moment: "REF",
        snr_threshold_db: Some("2.125"),
        recombination: Some("radials and range gates recombined to legacy resolution"),
    }));
    assert_eq!(snr.as_deref(), Some("REF SNR threshold 2.125 dB"));
    assert_eq!(
        recombined.as_deref(),
        Some(
            "Resolution reduced on this sweep: radials and range gates recombined to legacy \
             resolution"
        )
    );
}

#[test]
fn a_volume_that_never_stated_a_threshold_draws_no_readout() {
    assert_eq!(active_censoring_readouts(&None), (None, None));
    assert_eq!(
        active_censoring_readouts(&Some(SweepCensoring {
            moment: "REF",
            snr_threshold_db: None,
            recombination: None,
        })),
        (None, None)
    );
}

#[test]
fn source_field_tilt_hover_reads_the_exact_grid_and_states_the_2d_limit() {
    let hover = source_field_tilt_hover(
        "VL1_CRR",
        &SourceFacts::Found(SourceCut {
            index: 0,
            count: 1,
            nominal_deg: "0.50",
            stored_deg: "0.50",
            rows: 360,
            radials: 360,
            coverage: Some(("360", true)),
            description: Some("verbatim producer description"),
            units: Some("dBm"),
        }),
    );
    assert!(hover.contains("Exact source field VL1_CRR · 2D only"), "{hover}");
    assert!(
        hover.contains("Producer description: verbatim producer description"),
        "{hover}"
    );
    assert!(hover.contains("Producer unit token: dBm"), "{hover}");
    assert!(hover.contains("no modeled product was substituted"), "{hover}");
    assert!(!hover.contains("REF"), "REF leaked into {hover}");
    assert!(!hover.contains("Reflectivity"), "reflectivity leaked into {hover}");
    assert!(source_field_tilt_hover("VL1", &SourceFacts::NotCarried).contains("VL1"));
    assert!(source_field_tilt_hover("VL1", &SourceFacts::Selected).contains("VL1"));
}

fn key(moment: &str) -> CensorKey {
    CensorKey {
        site: "KTLX".to_owned(),
        volume_time: now(),
        cut_index: 0,
        moment: moment.to_owned(),
        filter: 20,
    }
}

#[test]
fn the_readout_and_the_renderer_censor_the_same_panes() {
    // All of these read reflectivity; the renderer censors a pane exactly when
    // its product is not derived from the volume as a whole.
    let mut censor = ProbeCensor::new();
    for derived in [false, true, false, true] {
        let step = censor.probe_censor(true, derived, key("REF"));
        assert_eq!(matches!(step, CensorStep::Off), derived);
    }
    assert!(matches!(censor.probe_censor(false, false, key("REF")), CensorStep::Off));
}

#[test]
fn a_censor_is_evaluated_once_for_what_it_is_of() {
    let mut censor = ProbeCensor::new();
    assert!(matches!(censor.probe_censor(true, false, key("REF")), CensorStep::Evaluate));
    assert!(matches!(censor.probe_censor(true, false, key("REF")), CensorStep::Keep));
    assert!(matches!(censor.probe_censor(true, false, key("VEL")), CensorStep::Evaluate));
    assert!(matches!(censor.probe_censor(true, false, key("REF")), CensorStep::Evaluate));
}

#[test]
fn hovering_a_censored_gate_gets_a_panel_that_says_why_it_is_empty() {
    // 9.5 dB over the receiver noise: on screen, and its panel is a spectrum.
    let shown = gate_spectrum_for(
        true,
        ProbeReading::Value,
        Some(GateEstimate { below_noise: false, censored: false }),
    );
    assert!(matches!(shown, SpectrumStep::Transform));

    // With the threshold above it the pane draws nothing there, and the panel
    // says why.
    let hidden = gate_spectrum_for(
        true,
        ProbeReading::Absent(BlankCell { masked: false, label: "NO DATA - SAMPLED BUT UNUSABLE" }),
        Some(GateEstimate { below_noise: false, censored: true }),
    );
    match hidden {
        SpectrumStep::Explain(reason) => {
            assert!(reason.contains("below the SNR threshold"), "{reason}")
        }
        _ => panic!("hovering a censored bin produced no explanation"),
    }
    assert!(matches!(
        gate_spectrum_for(false, ProbeReading::Value, None),
        SpectrumStep::Hide
    ));
    assert!(matches!(
        gate_spectrum_for(true, ProbeReading::OutsideSweep, None),
        SpectrumStep::Hide
    ));
}

#[test]
fn every_blank_bin_has_its_reason() {
    let blank = |masked| Some(BlankCell { masked, label: "RANGE FOLDED" });
    let masked = gate_spectrum_absence(&blank(true), None).unwrap();
    let noise = gate_spectrum_absence(
        &None,
        Some(GateEstimate { below_noise: true, censored: false }),
    );
    let censored = gate_spectrum_absence(
        &None,
        Some(GateEstimate { below_noise: false, censored: true }),
    );
    assert_ne!(noise, censored);
    assert!(!masked.is_empty());
    assert_eq!(
        gate_spectrum_absence(&None, Some(GateEstimate { below_noise: false, censored: false })),
        None
    );
    assert!(gate_spectrum_absence(&blank(false), None).is_some());
}

#[test]
fn a_source_reading_carries_its_unit_token() {
    assert_eq!(
        source_probe_text("7.0".to_owned(), None),
        "7.0 | producer unit token: not provided"
    );
    assert_eq!(
        source_probe_text("7.0".to_owned(), Some("dBm")),
        "7.0 | producer unit token: dBm"
    );
}

#[test]
fn the_lines_around_the_picture() {
    assert_eq!(queued_panes(0), None);
    assert_eq!(queued_panes(2).as_deref(), Some("2 pane(s) queued"));
    assert_eq!(active_profile_line(false, Some(("Storm", false))), None);
    assert!(active_profile_line(true, Some(("Storm", true))).unwrap().contains("Storm"));
    assert_ne!(
        active_profile_line(true, Some(("Storm", true))),
        active_profile_line(true, Some(("Storm", false)))
    );
    for palette in [SourcePalette::Unavailable, SourcePalette::Automatic, SourcePalette::Custom] {
        let text = source_field_status(palette, "2 min old");
        assert!(text.starts_with("SOURCE FIELD"), "{text}");
        assert!(text.contains("2 min old"), "{text}");
    }
}

#[test]
fn a_tilt_resolves_to_a_sweep_that_has_the_field() {
    let available = vec![false, true, false, true];
    let distance = vec![0, 5, 1, 2];
    assert_eq!(
        resolve_source_cut(TiltSelection::LowestAvailable, &available, &distance),
        Some(1)
    );
    assert_eq!(
        resolve_source_cut(TiltSelection::CutIndex(3), &available, &distance),
        Some(3)
    );
    assert_eq!(
        resolve_source_cut(TiltSelection::NearestElevationTenths(10), &available, &distance),
        Some(3)
    );
    assert_eq!(
        resolve_source_cut(TiltSelection::LowestAvailable, &vec![false], &vec![0]),
        None
    );
    assert_eq!(step_source_cut(&available, 1, 1), Some(3));
    assert_eq!(step_source_cut(&available, 3, -1), Some(1));
    let cuts = ModeledCuts {
        measured: true,
        first_listed: Some(0),
        lowest: Some(1),
        nearest: Some(2),
        wanted_carries: true,
    };
    assert_eq!(resolve_modeled_cut(TiltSelection::LowestAvailable, &cuts), Some(1));
    assert_eq!(
        resolve_modeled_cut(TiltSelection::NearestElevationTenths(13), &cuts),
        Some(2)
    );
    assert_eq!(resolve_modeled_cut(TiltSelection::CutIndex(7), &cuts), Some(7));
    let unmeasured = ModeledCuts { measured: false, ..cuts };
    assert_eq!(resolve_modeled_cut(TiltSelection::LowestAvailable, &unmeasured), Some(0));
}

#[test]
fn a_tilt_is_labelled_by_what_was_flown() {
    let measured = active_tilt_label(true, Some(0), Some("0.48"), Some("0.50"));
    assert!(measured.contains("0.48"), "{measured}");
    let stored = active_tilt_label(true, Some(0), None, Some("0.50"));
    assert!(stored.contains("0.50"), "{stored}");
    assert_ne!(active_tilt_label(false, None, None, None), measured);
    let chosen = active_tilt_hover(&TiltFacts::Chosen(ChosenCut {
        index: 1,
        count: 4,
        leg: "surveillance",
        nominal_deg: "0.48",
        stored_deg: "0.50",
        radials: 720,
        coverage_deg: "360",
        complete: true,
        nyquist_mps: Some("26.0"),
        repeats_passed_over: 2,
        fresher_seconds: Some("90"),
    }));
    assert!(chosen.contains("0.48") && chosen.contains("26.0"), "{chosen}");
    assert!(!active_tilt_hover(&TiltFacts::Unmeasured).is_empty());
    assert!(active_tilt_hover(&TiltFacts::NotCarried("VEL")).contains("VEL"));
    assert!(!active_tilt_hover(&TiltFacts::NotSelected).is_empty());
}
