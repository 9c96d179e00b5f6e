//! The live feed: what it last said of itself, and when that has gone stale.

use crate::age::{format_age, volume_age_at, STALL_AFTER_SECONDS};
use crate::bytes::append_tenths;
use crate::moment::Moment;
use crate::text::append_decimal;
use vstd::prelude::*;

verus! {

use crate::age::{age_text, volume_age};
use crate::bytes::tenths_text;
use crate::text::decimal;

/// What a listing of the feed says of it.
#[derive(Clone, Copy, Debug, PartialEq, Eq, Structural)]
pub enum FeedFreshness {
    Current,
    Stalled,
    /// The chunks stopped, and whole volumes are polled from the archive.
    ArchiveFallback,
}

/// Whether a feed that is this fresh has stopped keeping up.
pub open spec fn has_stopped(freshness: FeedFreshness) -> bool {
    freshness !is Current
}

/// What an age says of a feed.
pub open spec fn freshness_at(age_seconds: int) -> FeedFreshness {
    if age_seconds >= STALL_AFTER_SECONDS {
        FeedFreshness::Stalled
    } else {
        FeedFreshness::Current
    }
}

/// What an age says of a feed.
pub fn classify_feed_age(age_seconds: i64) -> (freshness: FeedFreshness)
    ensures
        freshness == freshness_at(age_seconds as int),
{
    if age_seconds >= STALL_AFTER_SECONDS {
        FeedFreshness::Stalled
    } else {
        FeedFreshness::Current
    }
}

/// What the live poll last said of the feed. It keeps the newest volume's time
/// and not an age, so that the age is that of the moment it is read.
pub struct LiveFeed {
    pub site: String,
    pub newest_volume_time: Moment,
    pub freshness: FeedFreshness,
}

/// A feed as contracts see it.
pub ghost struct FeedView {
    pub site: Seq<char>,
    pub newest_volume_time: Moment,
    pub freshness: FeedFreshness,
}

impl View for LiveFeed {
    type V = FeedView;

    open spec fn view(&self) -> FeedView {
        FeedView {
            site: self.site@,
            newest_volume_time: self.newest_volume_time,
            freshness: self.freshness,
        }
    }
}

/// A feed that may be absent, as contracts see it.
pub open spec fn feed_view(feed: Option<LiveFeed>) -> Option<FeedView> {
    match feed {
        Some(f) => Some(f@),
        None => None,
    }
}

/// Whether the feed has stopped keeping up at `now`: it was reported so, or its
/// newest volume has got too old since.
pub open spec fn stalled_at(feed: Option<FeedView>, now: Moment) -> bool {
    feed matches Some(f) && (has_stopped(f.freshness) || volume_age(f.newest_volume_time, now)
        >= STALL_AFTER_SECONDS)
}

/// Whether whole volumes are polled from the archive.
pub open spec fn on_fallback(feed: Option<FeedView>) -> bool {
    feed matches Some(f) && f.freshness is ArchiveFallback
}

/// Once a feed counts as stalled it stays so until it is heard of again: no
/// passing of time makes it current.
pub proof fn law_time_alone_never_revives_a_feed(
    feed: Option<FeedView>,
    now: Moment,
    later: Moment,
)
    requires
        now.total_nanos() <= later.total_nanos(),
        stalled_at(feed, now),
    ensures
        stalled_at(feed, later),
{
    crate::age::law_age_grows_with_the_clock(feed->0.newest_volume_time, now, later);
}

/// A feed that is heard of no more is called stalled as soon as its newest
/// volume is old enough, whatever it was last reported as.
pub proof fn law_silence_becomes_a_stall(feed: FeedView, now: Moment)
    requires
        now.total_nanos() - feed.newest_volume_time.total_nanos() >= STALL_AFTER_SECONDS
            * crate::moment::SECOND_NANOS,
    ensures
        stalled_at(Some(feed), now),
{
}

/// Whether the feed has stopped keeping up at `now`.
pub fn live_feed_stalled(feed: &Option<LiveFeed>, now: &Moment) -> (stalled: bool)
    ensures
        stalled == stalled_at(feed_view(*feed), *now),
{
    match feed {
        Some(f) => {
            let reported = match f.freshness {
                FeedFreshness::Current => false,
                _ => true,
            };
            let aged = match classify_feed_age(volume_age_at(&f.newest_volume_time, now)) {
                FeedFreshness::Current => false,
                _ => true,
            };
            reported || aged
        },
        None => false,
    }
}

/// Whether the picture comes from the archive rather than from the feed.
pub fn live_feed_archive_fallback(feed: &Option<LiveFeed>) -> (fallback: bool)
    ensures
        fallback == on_fallback(feed_view(*feed)),
{
    match feed {
        Some(f) => match f.freshness {
            FeedFreshness::ArchiveFallback => true,
            _ => false,
        },
        None => false,
    }
}

/// The loud line: the site, the word, and how old the newest data is.
pub open spec fn stall_notice(feed: Option<FeedView>, now: Moment) -> Option<Seq<char>> {
    if !stalled_at(feed, now) {
        None
    } else {
        let f = feed->0;
        Some(
            f.site + " "@ + (if f.freshness is ArchiveFallback {
                "archive fallback"@
            } else {
                "feed stalled"@
            }) + " \u{b7} newest data "@ + age_text(volume_age(f.newest_volume_time, now) as int)
                + " old"@,
        )
    }
}

/// The loud line, where the feed has stopped keeping up.
pub fn live_stall_notice(feed: &Option<LiveFeed>, now: &Moment) -> (notice: Option<String>)
    ensures
        crate::panes::text_view(notice) == stall_notice(feed_view(*feed), *now),
{
    if !live_feed_stalled(feed, now) {
        return None;
    }
    match feed {
        Some(f) => {
            let words = match f.freshness {
                FeedFreshness::ArchiveFallback => "archive fallback",
                _ => "feed stalled",
            };
            let age: i64 = volume_age_at(&f.newest_volume_time, now);
            let mut notice = f.site.clone();
            notice.append(" ");
            notice.append(words);
            notice.append(" \u{b7} newest data ");
            notice.append(format_age(age).as_str());
            notice.append(" old");
            Some(notice)
        },
        None => None,
    }
}

/// When a feed counts as stalled: it was reported as anything but current, or
/// its newest volume is a quarter of an hour old. No feed is no
/// stalled feed.
pub proof fn law_when_a_feed_is_stalled(feed: FeedView, now: Moment)
    requires
        now.total_nanos() >= feed.newest_volume_time.total_nanos(),
        now.total_nanos() - feed.newest_volume_time.total_nanos()
            <= 9_000_000_000_000_000_000 * 1_000_000_000,
    ensures
        stalled_at(Some(feed), now) <==> feed.freshness !is Current || now.total_nanos()
            - feed.newest_volume_time.total_nanos() >= 900 * 1_000_000_000,
        !stalled_at(None, now),
        on_fallback(Some(feed)) <==> feed.freshness is ArchiveFallback,
        !on_fallback(None),
{
}

/// The loud line is there exactly while the feed is stalled, begins with the
/// radar's name and ends by saying how old the newest data is.
pub proof fn law_the_loud_line_names_the_radar(feed: FeedView, now: Moment)
    ensures
        stall_notice(Some(feed), now) is Some <==> stalled_at(Some(feed), now),
        stall_notice(None, now) is None,
        stall_notice(Some(feed), now) matches Some(line) ==> feed.site.is_prefix_of(line)
            && " old"@.is_suffix_of(line),
{
    if stalled_at(Some(feed), now) {
        let line = stall_notice(Some(feed), now)->0;
        assert(feed.site =~= line.subrange(0, feed.site.len() as int));
        assert(" old"@ =~= line.subrange(line.len() - " old"@.len(), line.len() as int));
    }
}

/// The detail behind the loud line.
pub open spec fn stall_hover(feed: Option<FeedView>, when: Seq<char>) -> Seq<char> {
    match feed {
        None => Seq::empty(),
        Some(f) => if f.freshness is ArchiveFallback {
            "The realtime chunks feed for "@ + f.site
                + " has stopped publishing, so this session is polling the Level II archive bucket instead. The newest archive volume starts at "@
                + when
                + ", and new ones keep arriving - whole volumes, roughly one scan behind a healthy chunk feed. The session returns to the chunk feed by itself the moment it leads again."@
        } else {
            "The newest volume anywhere in the realtime chunks feed for "@ + f.site
                + " starts at "@ + when
                + ". Nothing newer exists to fetch, so the panes are still drawing that volume - real data, old data. Warning polygons are current and will not line up with it. Pick another radar, or load this one from the archive."@
        },
    }
}

/// The detail behind the loud line: when the feed stopped, what is still true of
/// the picture, and what to do. `when` is the newest volume's time in the
/// analyst's words.
pub fn live_stall_hover(feed: &Option<LiveFeed>, when: &str) -> (text: String)
    ensures
        text@ == stall_hover(feed_view(*feed), when@),
{
    match feed {
        None => String::new(),
        Some(f) => match f.freshness {
            FeedFreshness::ArchiveFallback => {
                let mut text = "The realtime chunks feed for ".to_owned();
                text.append(f.site.as_str());
                text.append(
                    " has stopped publishing, so this session is polling the Level II archive bucket instead. The newest archive volume starts at ",
                );
                text.append(when);
                text.append(
                    ", and new ones keep arriving - whole volumes, roughly one scan behind a healthy chunk feed. The session returns to the chunk feed by itself the moment it leads again.",
                );
                text
            },
            _ => {
                let mut text =
                    "The newest volume anywhere in the realtime chunks feed for ".to_owned();
                text.append(f.site.as_str());
                text.append(" starts at ");
                text.append(when);
                text.append(
                    ". Nothing newer exists to fetch, so the panes are still drawing that volume - real data, old data. Warning polygons are current and will not line up with it. Pick another radar, or load this one from the archive.",
                );
                text
            },
        },
    }
}

/// What a transfer of a live volume came to.
pub open spec fn transfer_text(chunks: nat, bytes: nat, cached: bool) -> Seq<char> {
    decimal(chunks) + " chunk(s) \u{b7} "@ + tenths_text(bytes, 1_048_576) + " MiB \u{b7} "@ + (
    if cached {
        "cached"@
    } else {
        "downloaded"@
    })
}

/// What a transfer of a live volume came to.
pub fn transfer_status(chunks: usize, bytes: u64, cached: bool) -> (text: String)
    ensures
        text@ == transfer_text(chunks as nat, bytes as nat, cached),
{
    let mut text = String::new();
    append_decimal(&mut text, chunks as u64);
    text.append(" chunk(s) \u{b7} ");
    append_tenths(&mut text, bytes, 1_048_576);
    text.append(" MiB \u{b7} ");
    text.append(
        if cached {
            "cached"
        } else {
            "downloaded"
        },
    );
    assert(text@ =~= transfer_text(chunks as nat, bytes as nat, cached));
    text
}

/// What an age says of a feed: it is stalled from a quarter of an hour on.
pub proof fn law_when_an_age_means_a_stall(age_seconds: int)
    ensures
        freshness_at(age_seconds) is Stalled <==> age_seconds >= 15 * 60,
        freshness_at(age_seconds) is Current <==> age_seconds < 15 * 60,
{
}

/// What a transfer came to is told by how many chunks it took, how much it was and
/// whether it was downloaded.
pub proof fn law_what_a_transfer_tells(chunks: nat, bytes: nat)
    ensures
        decimal(chunks).is_prefix_of(transfer_text(chunks, bytes, true)),
        decimal(chunks).is_prefix_of(transfer_text(chunks, bytes, false)),
        "cached"@.is_suffix_of(transfer_text(chunks, bytes, true)),
        "downloaded"@.is_suffix_of(transfer_text(chunks, bytes, false)),
{
    let kept = transfer_text(chunks, bytes, true);
    let brought = transfer_text(chunks, bytes, false);
    let count = decimal(chunks);
    assert(count =~= kept.subrange(0, count.len() as int));
    assert(count =~= brought.subrange(0, count.len() as int));
    assert("cached"@ =~= kept.subrange(kept.len() - "cached"@.len(), kept.len() as int));
    assert("downloaded"@ =~= brought.subrange(
        brought.len() - "downloaded"@.len(),
        brought.len() as int,
    ));
}

} // verus!
