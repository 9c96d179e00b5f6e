//! What the panes and the timeline say of the picture.

use crate::age::{format_age, volume_age_at};
use crate::bytes::append_tenths;
use crate::frame::{FrameStage, VolumeFrame};
use crate::history::VolumeHistory;
use crate::live::{live_feed_archive_fallback, live_feed_stalled, live_stall_notice, LiveFeed};
use crate::moment::Moment;
use crate::text::{append_decimal, join, starts_with};
use vstd::prelude::*;

verus! {

use crate::age::{age_text, volume_age};
use crate::bytes::tenths_text;
use crate::frame::{stage_badge, stage_name, FrameView};
use crate::history::{current_frame, history_wf, HistoryView};
use crate::live::{feed_view, on_fallback, stall_notice, stalled_at, FeedView};
use crate::panes::text_view;
use crate::text::{decimal, joined, texts};
use crate::tilt::str_view;

/// What separates the parts of a line.
pub open spec fn separator() -> Seq<char> {
    " \u{b7} "@
}

/// A frame that may be absent, as contracts see it.
pub open spec fn frame_view(frame: Option<&VolumeFrame>) -> Option<FrameView> {
    match frame {
        Some(f) => Some(f@),
        None => None,
    }
}

/// Whether the frame on screen knows where on earth it was measured. An empty
/// instrument claims nothing, so it does.
pub open spec fn position_is_known(frame: Option<FrameView>) -> bool {
    match frame {
        Some(f) => f.located,
        None => true,
    }
}

/// Whether the frame on screen knows where on earth it was measured.
pub fn frame_position_is_known(frame: Option<&VolumeFrame>) -> (known: bool)
    ensures
        known == position_is_known(frame_view(frame)),
{
    match frame {
        Some(f) => f.located,
        None => true,
    }
}

/// How old the volume on screen is.
pub open spec fn displayed_age(frame: Option<FrameView>, now: Moment) -> Option<int> {
    match frame {
        Some(f) => Some(volume_age(f.identity.volume_time, now) as int),
        None => None,
    }
}

/// How old the volume on screen is at `now`, in seconds: that of the frame that
/// is displayed, not of the newest one fetched.
pub fn displayed_frame_age(frame: Option<&VolumeFrame>, now: &Moment) -> (age: Option<i64>)
    ensures
        match (age, displayed_age(frame_view(frame), *now)) {
            (Some(found), Some(expected)) => found == expected,
            (None, None) => true,
            _ => false,
        },
{
    match frame {
        Some(f) => Some(volume_age_at(&f.identity.volume_time, now)),
        None => None,
    }
}

// ---------------------------------------------------------------------------
// Badges
// ---------------------------------------------------------------------------

/// What the badge of a stopped feed says.
pub open spec fn stall_badge(
    feed: Option<FeedView>,
    frame: Option<FrameView>,
    now: Moment,
) -> Seq<char> {
    let words = if on_fallback(feed) {
        "ARCHIVE FALLBACK"@
    } else {
        "FEED STALLED"@
    };
    match displayed_age(frame, now) {
        Some(age) => words + separator() + age_text(age) + " OLD"@,
        None => words,
    }
}

/// Nothing, or one badge.
pub open spec fn maybe(present: bool, badge: Seq<char>) -> Seq<Seq<char>> {
    if present {
        seq![badge]
    } else {
        Seq::empty()
    }
}

/// What limits a pane's picture, most important first: that its numbers were
/// computed here, that the feed stopped, that gates are hidden, that the volume
/// is not all there, and what a hail product assumed.
pub open spec fn badge_list(
    level_one: bool,
    feed: Option<FeedView>,
    frame: Option<FrameView>,
    filter_badge: Option<Seq<char>>,
    hail_summary: Option<Seq<char>>,
    now: Moment,
) -> Seq<Seq<char>> {
    (if level_one {
        seq!["LEVEL 1"@, "COMPUTED"@]
    } else {
        Seq::empty()
    }) + maybe(stalled_at(feed, now), stall_badge(feed, frame, now)) + (match filter_badge {
        Some(badge) => seq![badge],
        None => Seq::empty(),
    }) + (match frame {
        Some(f) => maybe(f.stage !is Complete, stage_badge(f.stage)),
        None => Seq::empty(),
    }) + (match hail_summary {
        Some(summary) => seq![summary],
        None => Seq::empty(),
    })
}

/// What limits a pane's picture, most important first.
pub fn pane_badges(
    level_one: bool,
    feed: &Option<LiveFeed>,
    frame: Option<&VolumeFrame>,
    filter_badge: Option<&str>,
    hail_summary: Option<&str>,
    now: &Moment,
) -> (badges: Vec<String>)
    ensures
        texts(badges@) == badge_list(
            level_one,
            feed_view(*feed),
            frame_view(frame),
            str_view(filter_badge),
            str_view(hail_summary),
            *now,
        ),
{
    let mut badges: Vec<String> = Vec::new();
    if level_one {
        badges.push("LEVEL 1".to_owned());
        badges.push("COMPUTED".to_owned());
    }
    if live_feed_stalled(feed, now) {
        let mut badge = if live_feed_archive_fallback(feed) {
            "ARCHIVE FALLBACK".to_owned()
        } else {
            "FEED STALLED".to_owned()
        };
        if let Some(age) = displayed_frame_age(frame, now) {
            badge.append(" \u{b7} ");
            badge.append(format_age(age).as_str());
            badge.append(" OLD");
        }
        badges.push(badge);
    }
    if let Some(badge) = filter_badge {
        badges.push(badge.to_owned());
    }
    if let Some(f) = frame {
        match f.stage {
            FrameStage::Complete => {},
            _ => {
                badges.push(f.stage.badge().to_owned());
            },
        }
    }
    if let Some(summary) = hail_summary {
        badges.push(summary.to_owned());
    }
    assert(texts(badges@) =~= badge_list(
        level_one,
        feed_view(*feed),
        frame_view(frame),
        str_view(filter_badge),
        str_view(hail_summary),
        *now,
    ));
    badges
}

/// The badge of a stopped feed leads the stack of every picture a radar
/// delivered.
pub proof fn law_the_stall_badge_leads(
    feed: Option<FeedView>,
    frame: Option<FrameView>,
    filter_badge: Option<Seq<char>>,
    hail_summary: Option<Seq<char>>,
    now: Moment,
)
    requires
        stalled_at(feed, now),
    ensures
        badge_list(false, feed, frame, filter_badge, hail_summary, now)[0] == stall_badge(
            feed,
            frame,
            now,
        ),
{
}

// ---------------------------------------------------------------------------
// The pane header
// ---------------------------------------------------------------------------

/// The filter statement a header carries: the engine's own line where it still
/// describes the criteria in force, else the criteria.
pub open spec fn filter_statement(current: Seq<char>, landed: Option<Seq<char>>) -> Seq<char> {
    match landed {
        Some(line) => if current.is_prefix_of(line) {
            line
        } else {
            current
        },
        None => current,
    }
}

/// The parts of a pane's header behind its filter statement: what a record of
/// pulses was made with, that the feed stopped, how old the picture is, and how
/// the render went.
pub open spec fn header_tail(
    provenance: Option<Seq<char>>,
    feed: Option<FeedView>,
    frame: Option<FrameView>,
    render_status: Seq<char>,
    now: Moment,
) -> Seq<Seq<char>> {
    (match provenance {
        Some(made_with) => maybe(
            !position_is_known(frame),
            "POSITION UNKNOWN - radar-local kilometres only"@,
        ) + seq![made_with],
        None => Seq::empty(),
    }) + maybe(
        stalled_at(feed, now),
        if on_fallback(feed) {
            "ARCHIVE FALLBACK"@
        } else {
            "STALLED"@
        },
    ) + (match displayed_age(frame, now) {
        Some(age) => seq![age_text(age) + " old"@],
        None => Seq::empty(),
    }) + maybe(render_status.len() > 0, render_status)
}

/// The parts of a pane's header, in order: the filter statement first, so that a
/// narrow pane cannot cut it off.
pub open spec fn header_parts(
    filter: Option<Seq<char>>,
    landed: Option<Seq<char>>,
    tail: Seq<Seq<char>>,
) -> Seq<Seq<char>> {
    match filter {
        Some(current) => seq![filter_statement(current, landed)] + tail,
        None => tail,
    }
}

/// The right-hand end of a pane's header row. `filter` states the criteria in
/// force where gates are hidden, and `landed` is the engine's account of the
/// picture on screen.
pub fn pane_header_status(
    filter: Option<&str>,
    landed: &Option<String>,
    provenance: Option<&str>,
    feed: &Option<LiveFeed>,
    frame: Option<&VolumeFrame>,
    render_status: &str,
    now: &Moment,
) -> (status: String)
    ensures
        status@ == joined(
            header_parts(
                str_view(filter),
                text_view(*landed),
                header_tail(
                    str_view(provenance),
                    feed_view(*feed),
                    frame_view(frame),
                    render_status@,
                    *now,
                ),
            ),
            separator(),
        ),
{
    let mut parts: Vec<String> = Vec::new();
    if let Some(current) = filter {
        let statement = match landed {
            Some(line) => if starts_with(line.as_str(), current) {
                line.clone()
            } else {
                current.to_owned()
            },
            None => current.to_owned(),
        };
        parts.push(statement);
    }
    if let Some(made_with) = provenance {
        if !frame_position_is_known(frame) {
            parts.push("POSITION UNKNOWN - radar-local kilometres only".to_owned());
        }
        parts.push(made_with.to_owned());
    }
    if live_feed_stalled(feed, now) {
        parts.push(
            if live_feed_archive_fallback(feed) {
                "ARCHIVE FALLBACK".to_owned()
            } else {
                "STALLED".to_owned()
            },
        );
    }
    if let Some(age) = displayed_frame_age(frame, now) {
        let mut part = format_age(age);
        part.append(" old");
        parts.push(part);
    }
    if !render_status.is_empty() {
        parts.push(render_status.to_owned());
    }
    assert(texts(parts@) =~= header_parts(
        str_view(filter),
        text_view(*landed),
        header_tail(
            str_view(provenance),
            feed_view(*feed),
            frame_view(frame),
            render_status@,
            *now,
        ),
    ));
    join(&parts, " \u{b7} ")
}

/// A pane that hides gates says so first, in the words of the criteria in force,
/// whatever else its header says.
pub proof fn law_the_filter_statement_comes_first(
    current: Seq<char>,
    landed: Option<Seq<char>>,
    tail: Seq<Seq<char>>,
)
    ensures
        current.is_prefix_of(joined(header_parts(Some(current), landed, tail), separator())),
{
    let parts = header_parts(Some(current), landed, tail);
    let first = filter_statement(current, landed);
    assert(parts[0] == first);
    crate::text::lemma_joined_starts_with_first(parts, separator());
    assert(current.is_prefix_of(current)) by {
        assert(current =~= current.subrange(0, current.len() as int));
    }
    crate::text::lemma_prefix_transitive(current, first, joined(parts, separator()));
}

/// An engine's account of criteria that are no longer in force is never shown:
/// a header quotes it only where it starts with the criteria that are.
pub proof fn law_a_stale_account_is_never_quoted(current: Seq<char>, landed: Seq<char>)
    requires
        !current.is_prefix_of(landed),
    ensures
        filter_statement(current, Some(landed)) == current,
{
}

/// What the palette of a source field is, as far as the pane knows.
#[derive(Clone, Copy, Debug, PartialEq, Eq, Structural)]
pub enum SourcePalette {
    Unavailable,
    Automatic,
    Custom,
}

/// How a source field's palette reads.
pub open spec fn palette_words(palette: SourcePalette) -> Seq<char> {
    match palette {
        SourcePalette::Unavailable => "palette unavailable on this cut"@,
        SourcePalette::Automatic => "automatic observed-range palette"@,
        SourcePalette::Custom => "custom exact-field palette and fixed range"@,
    }
}

/// The header of a pane which carries a source field.
pub open spec fn source_header(palette: SourcePalette, status: Seq<char>) -> Seq<char> {
    if status.len() == 0 {
        "SOURCE FIELD \u{b7} native-grid \u{b7} "@ + palette_words(palette)
    } else {
        "SOURCE FIELD \u{b7} native-grid \u{b7} "@ + palette_words(palette) + separator() + status
    }
}

/// The header of a pane which carries a source field, from what it would say
/// otherwise.
pub fn source_field_status(palette: SourcePalette, status: &str) -> (text: String)
    ensures
        text@ == source_header(palette, status@),
{
    let mut text = "SOURCE FIELD \u{b7} native-grid \u{b7} ".to_owned();
    text.append(
        match palette {
            SourcePalette::Unavailable => "palette unavailable on this cut",
            SourcePalette::Automatic => "automatic observed-range palette",
            SourcePalette::Custom => "custom exact-field palette and fixed range",
        },
    );
    if !status.is_empty() {
        text.append(" \u{b7} ");
        text.append(status);
    }
    text
}

// ---------------------------------------------------------------------------
// The timeline
// ---------------------------------------------------------------------------

/// The timeline's line: the frame on screen, its place, and its age behind the
/// time it is computed from. With nothing on screen, the feed's own trouble, or
/// the status.
pub open spec fn timeline_text(
    history: HistoryView,
    feed: Option<FeedView>,
    status: Seq<char>,
    when: Seq<char>,
    now: Moment,
) -> Seq<char> {
    match current_frame(history) {
        None => match stall_notice(feed, now) {
            Some(notice) => notice,
            None => status,
        },
        Some(frame) => frame.identity.site_id + separator() + decimal(
            (history.selected + 1) as nat,
        ) + "/"@ + decimal(history.frames.len()) + separator() + stage_name(frame.stage)
            + separator() + when + separator() + age_text(
            volume_age(frame.identity.volume_time, now) as int,
        ) + " old"@,
    }
}

/// The timeline's line. `when` is the time of the frame on screen in the
/// analyst's words.
pub fn timeline_status(
    history: &VolumeHistory,
    feed: &Option<LiveFeed>,
    status: &str,
    when: &str,
    now: &Moment,
) -> (text: String)
    requires
        history_wf(history@),
    ensures
        text@ == timeline_text(history@, feed_view(*feed), status@, when@, *now),
{
    match history.current() {
        None => match live_stall_notice(feed, now) {
            Some(notice) => notice,
            None => status.to_owned(),
        },
        Some(frame) => {
            let index: usize = match history.selected_index() {
                Some(index) => index,
                None => 0,
            };
            let count: usize = history.len();
            let mut text = frame.identity.site_id.clone();
            text.append(" \u{b7} ");
            append_decimal(&mut text, index as u64 + 1);
            text.append("/");
            append_decimal(&mut text, count as u64);
            text.append(" \u{b7} ");
            text.append(frame.stage.name());
            text.append(" \u{b7} ");
            text.append(when);
            text.append(" \u{b7} ");
            text.append(
                format_age(volume_age_at(&frame.identity.volume_time, now)).as_str(),
            );
            text.append(" old");
            text
        },
    }
}

/// How much the timeline holds.
pub open spec fn history_size_text(bytes: nat) -> Seq<char> {
    "history "@ + tenths_text(bytes, 1_048_576) + " MiB"@
}

/// How much the timeline holds, in mebibytes.
pub fn history_size(history: &VolumeHistory) -> (text: String)
    ensures
        text@ == history_size_text(crate::history::total_bytes(history@.frames)),
{
    let mut text = "history ".to_owned();
    append_tenths(&mut text, history.estimated_bytes(), 1_048_576);
    text.append(" MiB");
    text
}

/// How many panes wait for a picture, where any does.
pub fn queued_panes(queued: usize) -> (text: Option<String>)
    ensures
        text_view(text) == (if queued == 0 {
            None
        } else {
            Some(decimal(queued as nat) + " pane(s) queued"@)
        }),
{
    if queued == 0 {
        None
    } else {
        let mut text = String::new();
        append_decimal(&mut text, queued as u64);
        text.append(" pane(s) queued");
        assert(text@ =~= decimal(queued as nat) + " pane(s) queued"@);
        Some(text)
    }
}

/// The running application's line on profiles.
pub open spec fn profile_text(name: Seq<char>, modified: bool) -> Seq<char> {
    if modified {
        "Profile: "@ + name + " (modified)"@
    } else {
        "Profile: "@ + name
    }
}

/// The running application's line on profiles: none where it is switched off or
/// there is no profile worth naming.
pub fn active_profile_line(show: bool, summary: Option<(&str, bool)>) -> (line: Option<String>)
    ensures
        text_view(line) == (if !show {
            None
        } else {
            match summary {
                Some((name, modified)) => Some(profile_text(name@, modified)),
                None => None,
            }
        }),
{
    if !show {
        return None;
    }
    match summary {
        Some((name, modified)) => {
            let mut line = "Profile: ".to_owned();
            line.append(name);
            if modified {
                line.append(" (modified)");
            }
            Some(line)
        },
        None => None,
    }
}

// ---------------------------------------------------------------------------
// Laws
// ---------------------------------------------------------------------------

/// How many badges a pane carries and which: two of a record of pulses, then one
/// for each that holds of a stalled feed, a filter, a frame that is not complete,
/// and hail; nothing else, and none of them twice.
pub proof fn law_which_badges_a_pane_carries(
    level_one: bool,
    feed: Option<FeedView>,
    frame: Option<FrameView>,
    filter_badge: Option<Seq<char>>,
    hail_summary: Option<Seq<char>>,
    now: Moment,
)
    ensures
        ({
            let list = badge_list(level_one, feed, frame, filter_badge, hail_summary, now);
            let pulses = if level_one {
                2int
            } else {
                0int
            };
            let stall = if stalled_at(feed, now) {
                1int
            } else {
                0int
            };
            let filter = if filter_badge is Some {
                1int
            } else {
                0int
            };
            let stage = if frame matches Some(f) && f.stage !is Complete {
                1int
            } else {
                0int
            };
            let hail = if hail_summary is Some {
                1int
            } else {
                0int
            };
            &&& list.len() == pulses + stall + filter + stage + hail
            &&& level_one ==> list[0] == "LEVEL 1"@ && list[1] == "COMPUTED"@
            &&& stall == 1 ==> list[pulses] == stall_badge(feed, frame, now)
            &&& filter == 1 ==> list[pulses + stall] == filter_badge->0
            &&& stage == 1 ==> list[pulses + stall + filter] == (if (frame->0).stage is Preview {
                "PREVIEW"@
            } else {
                "PARTIAL"@
            })
            &&& hail == 1 ==> list.last() == hail_summary->0
        }),
{
}

/// A stalled feed's badge says whether the archive is polled instead, and how old
/// the frame on screen is where there is one.
pub proof fn law_what_the_stall_badge_says(
    feed: FeedView,
    frame: Option<FrameView>,
    now: Moment,
)
    ensures
        ({
            let words = if feed.freshness is ArchiveFallback {
                "ARCHIVE FALLBACK"@
            } else {
                "FEED STALLED"@
            };
            &&& frame is None ==> stall_badge(Some(feed), frame, now) == words
            &&& frame matches Some(f) ==> stall_badge(Some(feed), frame, now) == words
                + " \u{b7} "@ + age_text(volume_age(f.identity.volume_time, now) as int) + " OLD"@
        }),
{
}

/// What a pane's header holds and in which order: the filter's line, that the
/// position is unknown, what the volume was made with, that the feed is stalled,
/// the age of the frame on screen, and what the drawing says.
pub proof fn law_what_a_header_holds(
    provenance: Option<Seq<char>>,
    feed: Option<FeedView>,
    frame: Option<FrameView>,
    render_status: Seq<char>,
    now: Moment,
)
    ensures
        ({
            let tail = header_tail(provenance, feed, frame, render_status, now);
            let unplaced = if provenance is Some && (frame matches Some(f) && !f.located) {
                1int
            } else {
                0int
            };
            let made = if provenance is Some {
                1int
            } else {
                0int
            };
            let stall = if stalled_at(feed, now) {
                1int
            } else {
                0int
            };
            let aged = if frame is Some {
                1int
            } else {
                0int
            };
            let said = if render_status.len() > 0 {
                1int
            } else {
                0int
            };
            &&& tail.len() == unplaced + made + stall + aged + said
            &&& unplaced == 1 ==> tail[0] == "POSITION UNKNOWN - radar-local kilometres only"@
            &&& made == 1 ==> tail[unplaced] == provenance->0
            &&& stall == 1 ==> tail[unplaced + made] == (if (feed->0).freshness is ArchiveFallback {
                "ARCHIVE FALLBACK"@
            } else {
                "STALLED"@
            })
            &&& aged == 1 ==> tail[unplaced + made + stall] == age_text(
                volume_age((frame->0).identity.volume_time, now) as int,
            ) + " old"@
            &&& said == 1 ==> tail.last() == render_status
        }),
{
}

/// The filter's line leads the header: the picture's own account of it where that
/// is of the filter that is set, and the filter itself where it is not.
pub proof fn law_the_filter_leads_the_header(
    filter: Option<Seq<char>>,
    landed: Option<Seq<char>>,
    tail: Seq<Seq<char>>,
)
    ensures
        filter is None ==> header_parts(filter, landed, tail) == tail,
        filter matches Some(current) ==> {
            let parts = header_parts(filter, landed, tail);
            &&& parts.len() == tail.len() + 1
            &&& parts.skip(1) == tail
            &&& current.is_prefix_of(parts[0])
            &&& landed matches Some(line) ==> (current.is_prefix_of(line) ==> parts[0] == line)
            &&& landed is None ==> parts[0] == current
        },
{
    if filter is Some {
        let current = filter->0;
        assert(current.is_prefix_of(current)) by {
            assert(current.subrange(0, current.len() as int) =~= current);
        }
        assert(header_parts(filter, landed, tail).skip(1) =~= tail);
    }
}

/// What the timeline says: of a frame, the radar, its place counted from one, how
/// many there are, its stage, its time and its age; without a frame, the loud line
/// of a stalled feed, and else the status.
pub proof fn law_what_the_timeline_says(
    history: HistoryView,
    feed: Option<FeedView>,
    status: Seq<char>,
    when: Seq<char>,
    now: Moment,
)
    ensures
        ({
            let text = timeline_text(history, feed, status, when, now);
            &&& history.frames.len() == 0 && !stalled_at(feed, now) ==> text == status
            &&& history.frames.len() == 0 && stalled_at(feed, now) ==> Some(text) == stall_notice(
                feed,
                now,
            )
            &&& history.frames.len() > 0 ==> {
                let frame = history.frames[history.selected];
                text == frame.identity.site_id + " \u{b7} "@ + decimal(
                    (history.selected + 1) as nat,
                ) + "/"@ + decimal(history.frames.len()) + " \u{b7} "@ + (if frame.stage is Preview {
                    "Preview"@
                } else if frame.stage is Partial {
                    "Partial"@
                } else {
                    "Complete"@
                }) + " \u{b7} "@ + when + " \u{b7} "@ + age_text(
                    volume_age(frame.identity.volume_time, now) as int,
                ) + " old"@
            }
        }),
{
}

} // verus!
