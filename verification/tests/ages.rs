use workstation_app::age::{age_repaint_interval, format_age, volume_age_at};
use workstation_app::app::WorkstationApp;
use workstation_app::frame::{FrameIdentity, FrameOrigin, FrameStage, VolumeFrame};
use workstation_app::history::HistoryPolicy;
use workstation_app::install::LoadedVolume;
use workstation_app::live::{
    classify_feed_age, live_feed_archive_fallback, live_feed_stalled, live_stall_hover,
    live_stall_notice, transfer_status, FeedFreshness, LiveFeed,
};
use workstation_app::moment::Moment;
use workstation_app::readouts::{
    displayed_frame_age, frame_position_is_known, pane_badges, pane_header_status, timeline_status,
};
use workstation_app::settings::{iq_controls_from, Annotation, SettingsCache, WINDOW_VON_HANN};

fn untouched() -> SettingsCache {
    let annotation = Annotation {
        ring_count: 4,
        ring_labels: true,
        site_declutter_max: 40,
        site_marker_max: 200,
        range_decimals: 1,
        coordinate_decimals: 4,
    };
    SettingsCache::new(true, annotation, iq_controls_from(64, WINDOW_VON_HANN))
}

const MINUTE: i64 = 60;
const HOUR: i64 = 3_600;
const DAY: i64 = 86_400;

/// 2026-08-19T16:27:00Z.
fn observed_now() -> Moment {
    Moment::new(1_787_156_820, 0).unwrap()
}

/// 2026-08-16T11:08:02Z.
fn kuex_last_volume_time() -> Moment {
    Moment::new(1_786_878_482, 0).unwrap()
}

/// 2026-08-19T16:24:46Z.
fn koax_live_volume_time() -> Moment {
    Moment::new(1_787_156_686, 0).unwrap()
}

fn later(moment: &Moment, seconds: i64) -> Moment {
    Moment::new(moment.seconds() + seconds, moment.nanos()).unwrap()
}

fn test_app() -> WorkstationApp {
    WorkstationApp::new(HistoryPolicy { max_frames: 0, max_estimated_bytes: 0 }, untouched())
}

fn frame_at(site: &str, volume_time: Moment, stage: FrameStage) -> VolumeFrame {
    VolumeFrame {
        identity: FrameIdentity { site_id: site.to_owned(), volume_time },
        origin: FrameOrigin::Live,
        stage,
        source_label: "test".to_owned(),
        cuts: 0,
        radials: 0,
        estimated_bytes: 0,
        located: false,
        volume: 0,
    }
}

fn install(app: &mut WorkstationApp, frame: VolumeFrame) {
    let generation = app.display.board.session_clock.current();
    let _ = app.install_loaded_volume(
        LoadedVolume { generation, frame, pulses: None, elapsed_ms: "1.0".to_owned() },
        &vec![],
    );
}

fn stalled_kuex_feed() -> LiveFeed {
    LiveFeed {
        site: "KUEX".to_owned(),
        newest_volume_time: kuex_last_volume_time(),
        freshness: FeedFreshness::Stalled,
    }
}

fn current_koax_feed() -> LiveFeed {
    LiveFeed {
        site: "KOAX".to_owned(),
        newest_volume_time: koax_live_volume_time(),
        freshness: FeedFreshness::Current,
    }
}

fn status_line(app: &WorkstationApp, now: &Moment) -> String {
    let when = match app.display.history.current() {
        Some(frame) => frame.identity.volume_time.rfc3339(),
        None => String::new(),
    };
    timeline_status(&app.display.history, &app.live.feed, &app.status, &when, now)
}

fn header(app: &WorkstationApp, now: &Moment) -> String {
    pane_header_status(
        None,
        &None,
        None,
        &app.live.feed,
        app.display.history.current(),
        &app.display.board.panes[0].status,
        now,
    )
}

fn badges(app: &WorkstationApp, now: &Moment) -> Vec<String> {
    pane_badges(false, &app.live.feed, app.display.history.current(), None, None, now)
}

#[test]
fn an_age_reads_as_one_number_and_one_unit() {
    assert_eq!(format_age(0), "0 s");
    assert_eq!(format_age(42), "42 s");
    assert_eq!(format_age(59), "59 s");
    assert_eq!(format_age(60), "1 min");
    assert_eq!(format_age(6 * MINUTE), "6 min");
    assert_eq!(format_age(59 * MINUTE), "59 min");
    assert_eq!(format_age(60 * MINUTE), "1 h");
    assert_eq!(format_age(23 * HOUR), "23 h");
    assert_eq!(format_age(24 * HOUR), "1 d");
    assert_eq!(format_age(3 * DAY), "3 d");
    // Floored, not rounded: "3 d" covers three days to just under four.
    assert_eq!(format_age((3 * 24 + 23) * HOUR), "3 d");
    assert_eq!(format_age(364 * DAY), "364 d");
    // Archive loads, so a 2013 case study does not read "4614 d old".
    assert_eq!(format_age(365 * DAY), "1 y");
    // A radar clock a few seconds ahead of this machine's must not print a
    // negative age, which reads as a bug in the app rather than as skew.
    assert_eq!(format_age(-4), "0 s");
}

#[test]
fn the_status_line_and_the_pane_header_both_carry_the_age_of_what_is_on_screen() {
    let mut app = test_app();
    install(&mut app, frame_at("KOAX", koax_live_volume_time(), FrameStage::Complete));

    let status = status_line(&app, &observed_now());
    assert!(status.contains("2026-08-19T16:24:46"), "the Z time must stay: {status}");
    assert!(
        status.ends_with("· 2 min old"),
        "the age must ride behind the Z time: {status}"
    );

    assert_eq!(header(&app, &observed_now()), "2 min old");

    // Same volume, two hours later: the number moves without anything new
    // arriving, which is what makes it a live quantity rather than a stamp.
    assert_eq!(header(&app, &later(&observed_now(), 2 * HOUR)), "2 h old");
}

#[test]
fn a_pane_header_puts_the_age_ahead_of_the_render_time() {
    let mut app = test_app();
    install(&mut app, frame_at("KOAX", koax_live_volume_time(), FrameStage::Complete));
    app.display.board.panes[0].status = "12.3 ms".to_owned();

    assert_eq!(header(&app, &observed_now()), "2 min old · 12.3 ms");
}

#[test]
fn a_stalled_feed_names_the_site_the_state_and_the_age() {
    let mut app = test_app();
    app.live.site = Some("KUEX".to_owned());
    app.status = "Live KUEX".to_owned();
    app.live.feed = Some(stalled_kuex_feed());

    // The window before the first volume lands: the feed report arrives ahead of
    // the download, so the status line must already have stopped saying "Live
    // KUEX" by the time the transfer starts.
    assert_eq!(
        status_line(&app, &observed_now()),
        "KUEX feed stalled · newest data 3 d old"
    );

    install(&mut app, frame_at("KUEX", kuex_last_volume_time(), FrameStage::Complete));

    assert_eq!(
        live_stall_notice(&app.live.feed, &observed_now()).as_deref(),
        Some("KUEX feed stalled · newest data 3 d old")
    );
    // The hover carries the exact instant, so "3 d" can be checked against the
    // bucket rather than believed.
    let hover = live_stall_hover(&app.live.feed, "2026-08-16T11:08:02Z");
    assert!(hover.contains("2026-08-16T11:08:02Z"), "hover: {hover}");
    // The pane header leads with the word, not just the number: "3 d old" alone
    // is also what a deliberate archive load looks like.
    assert_eq!(header(&app, &observed_now()), "STALLED · 3 d old");
    assert!(live_feed_stalled(&app.live.feed, &observed_now()));
}

#[test]
fn an_archive_fallback_names_the_bucket_not_a_stall() {
    let archive_volume_time = later(&observed_now(), -40);
    let mut app = test_app();
    app.live.site = Some("KUEX".to_owned());
    app.status = "Live KUEX".to_owned();
    app.live.feed = Some(LiveFeed {
        site: "KUEX".to_owned(),
        newest_volume_time: later(&observed_now(), -40),
        freshness: FeedFreshness::ArchiveFallback,
    });
    install(&mut app, frame_at("KUEX", archive_volume_time, FrameStage::Complete));

    assert_eq!(
        live_stall_notice(&app.live.feed, &observed_now()).as_deref(),
        Some("KUEX archive fallback · newest data 40 s old")
    );
    assert_eq!(header(&app, &observed_now()), "ARCHIVE FALLBACK · 40 s old");
    assert_eq!(
        badges(&app, &observed_now()).first().map(String::as_str),
        Some("ARCHIVE FALLBACK · 40 s OLD")
    );
    // The hover explains the bucket and must not hand out the dead-feed advice:
    // on the fallback, "pick another radar" is walking away from data that is
    // fine.
    let hover = live_stall_hover(&app.live.feed, "2026-08-19T16:26:20Z");
    assert!(hover.contains("archive bucket"), "hover: {hover}");
    assert!(!hover.contains("Pick another radar"), "hover: {hover}");
    assert!(live_feed_stalled(&app.live.feed, &observed_now()));
    assert!(live_feed_archive_fallback(&app.live.feed));
}

#[test]
fn a_feed_that_is_keeping_up_raises_no_banner_and_no_badge() {
    let mut app = test_app();
    app.live.site = Some("KOAX".to_owned());
    app.live.feed = Some(current_koax_feed());
    install(&mut app, frame_at("KOAX", koax_live_volume_time(), FrameStage::Complete));

    assert_eq!(live_stall_notice(&app.live.feed, &observed_now()), None);
    assert!(!live_feed_stalled(&app.live.feed, &observed_now()));
    assert_eq!(header(&app, &observed_now()), "2 min old");
}

#[test]
fn the_stall_state_does_not_survive_a_site_change_or_a_local_file() {
    let policy = HistoryPolicy { max_frames: 0, max_estimated_bytes: 0 };
    let mut app = test_app();
    app.live.site = Some("KUEX".to_owned());
    app.live.feed = Some(stalled_kuex_feed());

    app.stop_live();
    assert!(app.live.feed.is_none(), "stopping the session clears it");

    app.live.feed = Some(stalled_kuex_feed());
    let _ = app.begin_load("no-such-file_V06".to_owned(), policy);
    assert!(app.live.feed.is_none(), "a local file is not a feed");

    app.live.feed = Some(stalled_kuex_feed());
    let _ = app.start_live("12", policy);
    assert!(
        app.live.feed.is_none(),
        "a new site inherits nothing from the old one's feed"
    );
}

#[test]
fn a_feed_reported_current_goes_stalled_on_wall_clock_alone() {
    let mut app = test_app();
    app.live.site = Some("KOAX".to_owned());
    // Exactly what a healthy KOAX poll reported at 16:27Z - and then no further
    // report ever arrives.
    app.live.feed = Some(current_koax_feed());
    install(&mut app, frame_at("KOAX", koax_live_volume_time(), FrameStage::Complete));

    assert!(!live_feed_stalled(&app.live.feed, &observed_now()));
    assert_eq!(live_stall_notice(&app.live.feed, &observed_now()), None);

    // Fourteen minutes on: still a clear-air VCP plus publication latency, and
    // still not a stall.
    let quiet = later(&koax_live_volume_time(), 14 * MINUTE);
    assert!(!live_feed_stalled(&app.live.feed, &quiet), "14 min is not a stall");

    // Past the threshold, with nothing having arrived to say so.
    let stalled_at = later(&koax_live_volume_time(), 900);
    assert!(
        live_feed_stalled(&app.live.feed, &stalled_at),
        "the app must reach the verdict itself when no report comes"
    );
    assert_eq!(
        live_stall_notice(&app.live.feed, &stalled_at).as_deref(),
        Some("KOAX feed stalled · newest data 15 min old")
    );
    assert_eq!(
        badges(&app, &stalled_at).first().map(String::as_str),
        Some("FEED STALLED · 15 min OLD")
    );
    // And no later moment takes that back.
    assert!(live_feed_stalled(&app.live.feed, &later(&stalled_at, DAY)));
}

#[test]
fn the_stall_badge_leads_the_badge_stack_and_names_the_age() {
    let mut app = test_app();
    app.live.site = Some("KUEX".to_owned());
    app.live.feed = Some(stalled_kuex_feed());
    // Partial, so there is a second badge for the stall to be ahead of.
    install(&mut app, frame_at("KUEX", kuex_last_volume_time(), FrameStage::Partial));

    let stack = badges(&app, &observed_now());
    assert_eq!(
        stack.first().map(String::as_str),
        Some("FEED STALLED · 3 d OLD"),
        "badges: {stack:?}"
    );
    assert!(
        stack.iter().any(|badge| badge == "PARTIAL"),
        "the partial badge must still be behind it: {stack:?}"
    );

    // The healthy feed on the same machine raises nothing, so the badge is a
    // measurement rather than the only thing this can produce.
    app.live.feed = Some(current_koax_feed());
    let stack = badges(&app, &observed_now());
    assert!(
        !stack.iter().any(|badge| badge.contains("STALLED")),
        "badges: {stack:?}"
    );
}

#[test]
fn the_age_readout_wakes_the_app_before_the_string_it_drew_would_change() {
    // Under a minute the string changes every second.
    assert_eq!(age_repaint_interval(0), 1);
    assert_eq!(age_repaint_interval(59), 1);
    // On and above the minute it sleeps to the minute boundary, so "6 min"
    // becomes "7 min" the moment that is true rather than a frame later.
    assert_eq!(age_repaint_interval(60), 60);
    assert_eq!(age_repaint_interval(61), 59);
    assert_eq!(age_repaint_interval(6 * MINUTE + 30), 30);
    // Never zero and never long, at any band: zero is a 60 Hz spin over a
    // picture that cannot change, and a long sleep in the hour or day band would
    // also delay the moment the stall threshold is crossed.
    for age in [3 * HOUR, 3 * DAY, 3 * DAY + 59, -30] {
        let interval = age_repaint_interval(age);
        assert!(interval >= 1 && interval <= 60, "{age:?} asked for {interval:?}");
    }
}

#[test]
fn ages_of_nothing_and_of_the_future() {
    assert_eq!(displayed_frame_age(None, &observed_now()), None);
    let frame = frame_at("KOAX", koax_live_volume_time(), FrameStage::Complete);
    assert_eq!(displayed_frame_age(Some(&frame), &observed_now()), Some(134));
    assert!(!frame_position_is_known(Some(&frame)));
    assert!(frame_position_is_known(None), "nothing on screen is out of place");
    assert_eq!(volume_age_at(&observed_now(), &koax_live_volume_time()), 0);
    assert_eq!(classify_feed_age(899), FeedFreshness::Current);
    assert_eq!(classify_feed_age(900), FeedFreshness::Stalled);
    assert_eq!(live_stall_hover(&None, "now"), "");
    assert_eq!(transfer_status(3, 1_572_864, true), "3 chunk(s) · 1.5 MiB · cached");
    assert_eq!(transfer_status(1, 0, false), "1 chunk(s) · 0.0 MiB · downloaded");
}
