//! The timeline: the volumes that are kept, which one is on screen, and how
//! many may be kept.

use crate::frame::{FrameSignature, FrameKey, VolumeFrame};
use crate::bytes::format_binary_bytes;
use crate::text::{append_decimal, before, same_text};
use vstd::prelude::*;

verus! {

use crate::bytes::binary_bytes_text;
use crate::find::{first_where, lemma_first_where_is};
use crate::frame::{key_of, signature_of, signature_view, FrameView, IdentityView, SignatureView};
use crate::text::{
    decimal, lemma_text_before_irreflexive, lemma_text_before_transitive, text_before,
};

/// Whether the timeline is looping.
#[derive(Clone, Copy, Debug, PartialEq, Eq, Structural)]
pub enum PlaybackState {
    Playing,
    Paused,
}

// ---------------------------------------------------------------------------
// Retention
// ---------------------------------------------------------------------------

/// How much may be kept. Zero in a dimension means no limit in it.
#[derive(Clone, Copy, Debug, PartialEq, Eq, Structural)]
pub struct HistoryPolicy {
    pub max_frames: usize,
    pub max_estimated_bytes: usize,
}

/// The bounds a session that runs unattended gets where none is configured.
pub const LIVE_MAX_FRAMES: usize = 30;

pub const LIVE_MAX_BYTES: usize = 1_073_741_824;

/// Bytes in a mebibyte.
pub const MEBIBYTE: usize = 1_048_576;

/// A setting's number of mebibytes as bytes, as far as a machine word goes.
pub open spec fn configured_bytes(megabytes: int) -> int {
    if megabytes <= 0 {
        0
    } else if megabytes * MEBIBYTE > usize::MAX {
        usize::MAX as int
    } else {
        megabytes * MEBIBYTE
    }
}

/// The retention that is configured: zero or less is no limit.
pub fn configured_history_policy(max_frames: i64, max_megabytes: i64) -> (policy: HistoryPolicy)
    ensures
        max_frames <= 0 ==> policy.max_frames == 0,
        0 < max_frames <= usize::MAX ==> policy.max_frames == max_frames,
        max_frames > usize::MAX ==> policy.max_frames == usize::MAX,
        policy.max_estimated_bytes == configured_bytes(max_megabytes as int),
{
    let frames: usize = machine_count(max_frames);
    let megabytes: usize = machine_count(max_megabytes);
    HistoryPolicy {
        max_frames: frames,
        max_estimated_bytes: match megabytes.checked_mul(MEBIBYTE) {
            Some(bytes) => bytes,
            None => usize::MAX,
        },
    }
}

/// A setting's count as a machine word: nothing below zero, and no more than a
/// word holds.
pub fn machine_count(value: i64) -> (count: usize)
    ensures
        value <= 0 ==> count == 0,
        0 < value <= usize::MAX ==> count == value,
        value > usize::MAX ==> count == usize::MAX,
{
    if value <= 0 {
        0
    } else if value as u64 > usize::MAX as u64 {
        usize::MAX
    } else {
        value as usize
    }
}

/// The retention of a live session: every configured bound, and the
/// conservative one where a dimension has none.
pub open spec fn live_policy(configured: HistoryPolicy) -> HistoryPolicy {
    HistoryPolicy {
        max_frames: if configured.max_frames == 0 {
            LIVE_MAX_FRAMES
        } else {
            configured.max_frames
        },
        max_estimated_bytes: if configured.max_estimated_bytes == 0 {
            LIVE_MAX_BYTES
        } else {
            configured.max_estimated_bytes
        },
    }
}

/// The retention of a live session.
pub fn live_history_policy(configured: HistoryPolicy) -> (policy: HistoryPolicy)
    ensures
        policy == live_policy(configured),
{
    HistoryPolicy {
        max_frames: if configured.max_frames == 0 {
            LIVE_MAX_FRAMES
        } else {
            configured.max_frames
        },
        max_estimated_bytes: if configured.max_estimated_bytes == 0 {
            LIVE_MAX_BYTES
        } else {
            configured.max_estimated_bytes
        },
    }
}

/// A live session is bounded in both dimensions, and a bound that is configured
/// is the one that holds.
pub proof fn law_a_live_session_is_bounded(configured: HistoryPolicy)
    ensures
        live_policy(configured).max_frames > 0,
        live_policy(configured).max_estimated_bytes > 0,
        configured.max_frames > 0 ==> live_policy(configured).max_frames == configured.max_frames,
        configured.max_estimated_bytes > 0 ==> live_policy(configured).max_estimated_bytes
            == configured.max_estimated_bytes,
        live_policy(live_policy(configured)) == live_policy(configured),
{
}

/// How a retention policy reads.
pub open spec fn policy_text(policy: HistoryPolicy) -> Seq<char> {
    if policy.max_frames == 0 && policy.max_estimated_bytes == 0 {
        "retention Unlimited"@
    } else {
        "retention limit "@ + (if policy.max_frames == 0 {
            "Unlimited frames"@
        } else {
            decimal(policy.max_frames as nat) + " frames"@
        }) + " / "@ + (if policy.max_estimated_bytes == 0 {
            "Unlimited RAM"@
        } else {
            binary_bytes_text(policy.max_estimated_bytes as nat) + " RAM"@
        })
    }
}

/// How a retention policy reads on the timeline.
pub fn history_policy_status(policy: HistoryPolicy) -> (text: String)
    ensures
        text@ == policy_text(policy),
{
    if policy.max_frames == 0 && policy.max_estimated_bytes == 0 {
        return "retention Unlimited".to_owned();
    }
    let mut frames = String::new();
    if policy.max_frames == 0 {
        frames.append("Unlimited frames");
        assert(frames@ =~= "Unlimited frames"@);
    } else {
        append_decimal(&mut frames, policy.max_frames as u64);
        frames.append(" frames");
        assert(frames@ =~= decimal(policy.max_frames as nat) + " frames"@);
    }
    let mut bytes = String::new();
    if policy.max_estimated_bytes == 0 {
        bytes.append("Unlimited RAM");
        assert(bytes@ =~= "Unlimited RAM"@);
    } else {
        bytes = format_binary_bytes(policy.max_estimated_bytes as u64);
        bytes.append(" RAM");
    }
    let mut text = "retention limit ".to_owned();
    text.append(frames.as_str());
    text.append(" / ");
    text.append(bytes.as_str());
    text
}

// ---------------------------------------------------------------------------
// The timeline
// ---------------------------------------------------------------------------

/// Timeline order: by radar, then by scan time.
pub open spec fn identity_before(left: IdentityView, right: IdentityView) -> bool {
    text_before(left.site_id, right.site_id) || (left.site_id == right.site_id
        && left.volume_time.total_nanos() < right.volume_time.total_nanos())
}

/// Whether one frame comes before another.
fn comes_before(left: &VolumeFrame, right: &VolumeFrame) -> (yes: bool)
    ensures
        yes == identity_before(left@.identity, right@.identity),
{
    before(left.identity.site_id.as_str(), right.identity.site_id.as_str()) || (same_text(
        left.identity.site_id.as_str(),
        right.identity.site_id.as_str(),
    ) && right.identity.volume_time.is_after(&left.identity.volume_time))
}

/// What holding these frames costs, as far as a machine word counts.
pub open spec fn total_bytes(frames: Seq<FrameView>) -> nat
    decreases frames.len(),
{
    if frames.len() == 0 {
        0
    } else {
        let sum = total_bytes(frames.drop_last()) + frames.last().estimated_bytes;
        if sum > u64::MAX {
            u64::MAX as nat
        } else {
            sum as nat
        }
    }
}

/// Whether a policy allows these frames to be kept.
pub open spec fn within_policy(frames: Seq<FrameView>, policy: HistoryPolicy) -> bool {
    (policy.max_frames == 0 || frames.len() <= policy.max_frames) && (policy.max_estimated_bytes
        == 0 || total_bytes(frames) <= policy.max_estimated_bytes)
}

/// How many of the oldest frames have to go: as few as make the rest fit, and
/// never the last one.
pub open spec fn eviction_count(frames: Seq<FrameView>, policy: HistoryPolicy) -> nat
    decreases frames.len(),
{
    if frames.len() <= 1 || within_policy(frames, policy) {
        0
    } else {
        1 + eviction_count(frames.subrange(1, frames.len() as int), policy)
    }
}

/// The timeline as contracts see it.
pub ghost struct HistoryView {
    pub frames: Seq<FrameView>,
    /// The frame on screen; zero while there is none.
    pub selected: int,
    pub follows_live: bool,
    pub playback: PlaybackState,
    pub policy: HistoryPolicy,
}

/// The timeline.
pub struct VolumeHistory {
    frames: Vec<VolumeFrame>,
    selected: usize,
    follows_live: bool,
    playback: PlaybackState,
    policy: HistoryPolicy,
}

impl View for VolumeHistory {
    type V = HistoryView;

    closed spec fn view(&self) -> HistoryView {
        HistoryView {
            frames: self.frames@.map_values(|frame: VolumeFrame| frame@),
            selected: self.selected as int,
            follows_live: self.follows_live,
            playback: self.playback,
            policy: self.policy,
        }
    }
}

/// What holds of every timeline: the frame on screen is one of its frames, and
/// following the live edge means standing on it.
pub open spec fn history_wf(history: HistoryView) -> bool {
    &&& history.frames.len() == 0 ==> history.selected == 0
    &&& history.frames.len() > 0 ==> 0 <= history.selected < history.frames.len()
    &&& history.frames.len() > 0 && history.follows_live ==> history.selected
        == history.frames.len() - 1
}

/// The frame on screen.
pub open spec fn current_frame(history: HistoryView) -> Option<FrameView> {
    if history.frames.len() == 0 {
        None
    } else {
        Some(history.frames[history.selected])
    }
}

/// The signature of the frame on screen.
pub open spec fn current_signature(history: HistoryView) -> Option<SignatureView> {
    match current_frame(history) {
        Some(frame) => Some(signature_of(frame)),
        None => None,
    }
}

/// How much data the frame on screen holds.
pub open spec fn current_extent(history: HistoryView) -> Option<(usize, usize)> {
    match current_frame(history) {
        Some(frame) => Some((frame.cuts, frame.radials)),
        None => None,
    }
}

/// Whether the newest frame is on screen.
pub open spec fn at_live_edge(history: HistoryView) -> bool {
    history.frames.len() > 0 && history.selected == history.frames.len() - 1
}

/// Whether an arriving frame stands in the place of `kept`: it is the same scan,
/// and where frames are kept by their source as well, from the same source.
pub open spec fn replaces(arriving: FrameView, kept: FrameView, by_source: bool) -> bool {
    if by_source {
        key_of(kept) == key_of(arriving)
    } else {
        kept.identity == arriving.identity
    }
}

/// Where an arriving frame's predecessor stands, or the number of frames.
pub open spec fn replaced_index(
    frames: Seq<FrameView>,
    arriving: FrameView,
    by_source: bool,
) -> int {
    first_where(frames, |kept: FrameView| replaces(arriving, kept, by_source))
}

/// Where an arriving frame goes: in front of the first frame that comes after
/// it.
pub open spec fn insertion_index(frames: Seq<FrameView>, arriving: FrameView) -> int {
    first_where(frames, |kept: FrameView| identity_before(arriving.identity, kept.identity))
}

/// What became of an arriving frame.
#[derive(Clone, Copy, Debug, PartialEq, Eq, Structural)]
pub enum Disposition {
    Inserted,
    Replaced,
}

/// What an install did.
#[derive(Clone, Copy, Debug, PartialEq, Eq, Structural)]
pub struct InstallReport {
    pub disposition: Disposition,
    pub evicted: usize,
}

/// The timeline with a frame placed on it, before anything is evicted. What is
/// on screen stays on screen, except that a timeline which follows the live
/// edge moves to it.
pub open spec fn placed(history: HistoryView, arriving: FrameView, by_source: bool) -> HistoryView {
    let at = replaced_index(history.frames, arriving, by_source);
    if at < history.frames.len() {
        HistoryView { frames: history.frames.update(at, arriving), ..history }
    } else {
        let place = insertion_index(history.frames, arriving);
        HistoryView {
            frames: history.frames.insert(place, arriving),
            selected: if history.frames.len() == 0 {
                0
            } else if history.follows_live {
                history.frames.len() as int
            } else if place <= history.selected {
                history.selected + 1
            } else {
                history.selected
            },
            ..history
        }
    }
}

/// The timeline without its oldest frames. A frame on screen that goes gives
/// way to the oldest that is left.
pub open spec fn without_oldest(history: HistoryView, count: int) -> HistoryView {
    HistoryView {
        frames: history.frames.subrange(count, history.frames.len() as int),
        selected: if history.selected < count {
            0
        } else {
            history.selected - count
        },
        ..history
    }
}

/// The timeline cut down to its policy.
pub open spec fn trimmed_to_policy(history: HistoryView) -> HistoryView {
    without_oldest(history, eviction_count(history.frames, history.policy) as int)
}

/// The timeline after an install.
pub open spec fn installed(history: HistoryView, arriving: FrameView, by_source: bool) -> HistoryView {
    trimmed_to_policy(placed(history, arriving, by_source))
}

/// What an install reports.
pub open spec fn install_report(
    history: HistoryView,
    arriving: FrameView,
    by_source: bool,
) -> InstallReport {
    let after = placed(history, arriving, by_source);
    InstallReport {
        disposition: if replaced_index(history.frames, arriving, by_source)
            < history.frames.len() {
            Disposition::Replaced
        } else {
            Disposition::Inserted
        },
        evicted: eviction_count(after.frames, after.policy) as usize,
    }
}

/// As many go as have to, and one always stays.
pub proof fn lemma_eviction_count(frames: Seq<FrameView>, policy: HistoryPolicy)
    ensures
        frames.len() == 0 ==> eviction_count(frames, policy) == 0,
        frames.len() > 0 ==> eviction_count(frames, policy) < frames.len(),
    decreases frames.len(),
{
    if frames.len() > 1 {
        lemma_eviction_count(frames.subrange(1, frames.len() as int), policy);
    }
}

/// After an eviction what is left fits the policy, or is one frame that alone
/// does not.
pub proof fn law_what_is_kept_fits_the_policy(frames: Seq<FrameView>, policy: HistoryPolicy)
    ensures
        ({
            let kept = frames.subrange(
                eviction_count(frames, policy) as int,
                frames.len() as int,
            );
            kept.len() <= 1 || within_policy(kept, policy)
        }),
    decreases frames.len(),
{
    lemma_eviction_count(frames, policy);
    if frames.len() > 1 && !within_policy(frames, policy) {
        let rest = frames.subrange(1, frames.len() as int);
        law_what_is_kept_fits_the_policy(rest, policy);
        lemma_eviction_count(rest, policy);
        let count = eviction_count(rest, policy) as int;
        assert(rest.subrange(count, rest.len() as int) =~= frames.subrange(
            count + 1,
            frames.len() as int,
        ));
    } else {
        assert(frames.subrange(0, frames.len() as int) =~= frames);
    }
}

/// An unlimited timeline evicts nothing.
pub proof fn law_unlimited_keeps_everything(frames: Seq<FrameView>)
    ensures
        eviction_count(frames, HistoryPolicy { max_frames: 0, max_estimated_bytes: 0 }) == 0,
{
}

/// Installing keeps the timeline whole.
pub proof fn lemma_installed_wf(history: HistoryView, arriving: FrameView, by_source: bool)
    requires
        history_wf(history),
    ensures
        history_wf(placed(history, arriving, by_source)),
        history_wf(installed(history, arriving, by_source)),
{
    crate::find::lemma_first_where(
        history.frames,
        |kept: FrameView| replaces(arriving, kept, by_source),
    );
    crate::find::lemma_first_where(
        history.frames,
        |kept: FrameView| identity_before(arriving.identity, kept.identity),
    );
    let after = placed(history, arriving, by_source);
    lemma_eviction_count(after.frames, after.policy);
}

/// What the analyst is looking at stays on screen when another scan arrives:
/// unless the timeline follows the live edge, or the frame itself is evicted,
/// the frame on screen after an install is the one before it.
pub proof fn law_an_arrival_does_not_move_the_picture(
    history: HistoryView,
    arriving: FrameView,
    by_source: bool,
)
    requires
        history_wf(history),
        history.frames.len() > 0,
        !history.follows_live,
        !replaces(arriving, history.frames[history.selected], by_source),
        ({
            let after = placed(history, arriving, by_source);
            eviction_count(after.frames, after.policy) <= after.selected
        }),
    ensures
        current_frame(installed(history, arriving, by_source)) == current_frame(history),
{
    let replacing = |kept: FrameView| replaces(arriving, kept, by_source);
    crate::find::lemma_first_where(history.frames, replacing);
    crate::find::lemma_first_where(
        history.frames,
        |kept: FrameView| identity_before(arriving.identity, kept.identity),
    );
    let after = placed(history, arriving, by_source);
    lemma_eviction_count(after.frames, after.policy);
    let at = replaced_index(history.frames, arriving, by_source);
    if at < history.frames.len() {
        assert(replacing(history.frames[at]));
        assert(at != history.selected);
    }
    assert(after.frames[after.selected] == history.frames[history.selected]);
}

/// Whether frames stand in timeline order.
pub open spec fn in_timeline_order(frames: Seq<FrameView>) -> bool {
    forall|i: int, j: int|
        0 <= i < j < frames.len() ==> !identity_before(
            (#[trigger] frames[j]).identity,
            (#[trigger] frames[i]).identity,
        )
}

/// No two frames are of one scan.
pub open spec fn scans_are_distinct(frames: Seq<FrameView>) -> bool {
    forall|i: int, j: int|
        0 <= i < j < frames.len() ==> (#[trigger] frames[i]).identity != (
        #[trigger] frames[j]).identity
}

/// No two frames go by one key.
pub open spec fn keys_are_distinct(frames: Seq<FrameView>) -> bool {
    forall|i: int, j: int|
        0 <= i < j < frames.len() ==> key_of(#[trigger] frames[i]) != key_of(#[trigger] frames[j])
}

/// Timeline order carries from one pair to the next, and no scan comes before
/// itself.
proof fn lemma_identity_order(a: IdentityView, b: IdentityView, c: IdentityView)
    ensures
        !identity_before(a, a),
        identity_before(a, b) && identity_before(b, c) ==> identity_before(a, c),
{
    lemma_text_before_irreflexive(a.site_id);
    if text_before(a.site_id, b.site_id) && text_before(b.site_id, c.site_id) {
        lemma_text_before_transitive(a.site_id, b.site_id, c.site_id);
    }
}

/// A timeline in order stays in order, whatever is installed: what stands, then
/// what replaces it, what is put between and what is let go keep the radars
/// together and their scans in time.
pub proof fn law_the_timeline_stays_in_order(
    history: HistoryView,
    arriving: FrameView,
    by_source: bool,
)
    requires
        in_timeline_order(history.frames),
    ensures
        in_timeline_order(installed(history, arriving, by_source).frames),
{
    let frames = history.frames;
    let replacing = |kept: FrameView| replaces(arriving, kept, by_source);
    let behind = |kept: FrameView| identity_before(arriving.identity, kept.identity);
    crate::find::lemma_first_where(frames, replacing);
    crate::find::lemma_first_where(frames, behind);
    let at = replaced_index(frames, arriving, by_source);
    let place = insertion_index(frames, arriving);
    let after = placed(history, arriving, by_source).frames;
    if at < frames.len() {
        assert(replacing(frames[at]));
        assert forall|i: int, j: int| 0 <= i < j < after.len() implies !identity_before(
            (#[trigger] after[j]).identity,
            (#[trigger] after[i]).identity,
        ) by {
            assert(after[i].identity == frames[i].identity);
            assert(after[j].identity == frames[j].identity);
        }
    } else {
        assert forall|i: int, j: int| 0 <= i < j < after.len() implies !identity_before(
            (#[trigger] after[j]).identity,
            (#[trigger] after[i]).identity,
        ) by {
            if j == place {
                assert(after[i] == frames[i]);
                assert(!behind(frames[i]));
            } else if i == place {
                assert(after[j] == frames[j - 1]);
                assert(behind(frames[place]));
                if identity_before(frames[j - 1].identity, arriving.identity) {
                    lemma_identity_order(
                        frames[j - 1].identity,
                        arriving.identity,
                        frames[place].identity,
                    );
                    if j - 1 == place {
                        lemma_identity_order(
                            frames[place].identity,
                            frames[place].identity,
                            frames[place].identity,
                        );
                    }
                }
            } else {
                let left = if i < place {
                    i
                } else {
                    i - 1
                };
                let right = if j < place {
                    j
                } else {
                    j - 1
                };
                assert(after[i] == frames[left]);
                assert(after[j] == frames[right]);
            }
        }
    }
    let count = eviction_count(after, history.policy) as int;
    lemma_eviction_count(after, history.policy);
    let kept = after.subrange(count, after.len() as int);
    assert forall|i: int, j: int| 0 <= i < j < kept.len() implies !identity_before(
        (#[trigger] kept[j]).identity,
        (#[trigger] kept[i]).identity,
    ) by {
        assert(kept[i] == after[i + count]);
        assert(kept[j] == after[j + count]);
    }
}

/// The same scan is never listed twice: a frame of a scan that is there takes
/// its place.
pub proof fn law_a_scan_is_listed_once(history: HistoryView, arriving: FrameView)
    requires
        scans_are_distinct(history.frames),
    ensures
        scans_are_distinct(installed(history, arriving, false).frames),
{
    let frames = history.frames;
    let replacing = |kept: FrameView| replaces(arriving, kept, false);
    crate::find::lemma_first_where(frames, replacing);
    crate::find::lemma_first_where(
        frames,
        |kept: FrameView| identity_before(arriving.identity, kept.identity),
    );
    let at = replaced_index(frames, arriving, false);
    let place = insertion_index(frames, arriving);
    let after = placed(history, arriving, false).frames;
    assert forall|i: int, j: int| 0 <= i < j < after.len() implies (#[trigger] after[i]).identity
        != (#[trigger] after[j]).identity by {
        if at < frames.len() {
            assert(replacing(frames[at]));
            assert(after[i].identity == frames[i].identity);
            assert(after[j].identity == frames[j].identity);
        } else {
            assert(i < place ==> after[i] == frames[i]);
            assert(i > place ==> after[i] == frames[i - 1]);
            assert(j < place ==> after[j] == frames[j]);
            assert(j > place ==> after[j] == frames[j - 1]);
            if i == place {
                assert(!replacing(frames[j - 1]));
            } else if j == place {
                assert(!replacing(frames[i]));
            }
        }
    }
    let count = eviction_count(after, history.policy) as int;
    lemma_eviction_count(after, history.policy);
    let kept = after.subrange(count, after.len() as int);
    assert forall|i: int, j: int| 0 <= i < j < kept.len() implies (#[trigger] kept[i]).identity
        != (#[trigger] kept[j]).identity by {
        assert(kept[i] == after[i + count]);
        assert(kept[j] == after[j + count]);
    }
}

/// Different sources stay apart even where they are of one scan, and no source
/// is listed twice.
pub proof fn law_sources_stay_apart(history: HistoryView, arriving: FrameView)
    requires
        keys_are_distinct(history.frames),
    ensures
        keys_are_distinct(installed(history, arriving, true).frames),
{
    let frames = history.frames;
    let replacing = |kept: FrameView| replaces(arriving, kept, true);
    crate::find::lemma_first_where(frames, replacing);
    crate::find::lemma_first_where(
        frames,
        |kept: FrameView| identity_before(arriving.identity, kept.identity),
    );
    let at = replaced_index(frames, arriving, true);
    let place = insertion_index(frames, arriving);
    let after = placed(history, arriving, true).frames;
    assert forall|i: int, j: int| 0 <= i < j < after.len() implies key_of(#[trigger] after[i])
        != key_of(#[trigger] after[j]) by {
        if at < frames.len() {
            assert(replacing(frames[at]));
            assert(key_of(after[i]) == key_of(frames[i]));
            assert(key_of(after[j]) == key_of(frames[j]));
        } else {
            assert(i < place ==> after[i] == frames[i]);
            assert(i > place ==> after[i] == frames[i - 1]);
            assert(j < place ==> after[j] == frames[j]);
            assert(j > place ==> after[j] == frames[j - 1]);
            if i == place {
                assert(!replacing(frames[j - 1]));
            } else if j == place {
                assert(!replacing(frames[i]));
            }
        }
    }
    let count = eviction_count(after, history.policy) as int;
    lemma_eviction_count(after, history.policy);
    let kept = after.subrange(count, after.len() as int);
    assert forall|i: int, j: int| 0 <= i < j < kept.len() implies key_of(#[trigger] kept[i])
        != key_of(#[trigger] kept[j]) by {
        assert(kept[i] == after[i + count]);
        assert(kept[j] == after[j + count]);
    }
}

/// The sum of what holding these frames costs.
pub open spec fn byte_sum(frames: Seq<FrameView>) -> int {
    frames.fold_left(0int, |sum: int, frame: FrameView| sum + frame.estimated_bytes)
}

/// A sum that no machine word cuts off is the plain sum.
proof fn lemma_total_bytes(frames: Seq<FrameView>)
    ensures
        byte_sum(frames) >= 0,
        total_bytes(frames) == (if byte_sum(frames) > u64::MAX {
            u64::MAX as int
        } else {
            byte_sum(frames)
        }),
    decreases frames.len(),
{
    if frames.len() > 0 {
        lemma_total_bytes(frames.drop_last());
    }
}

/// The sum of the bytes is the first frame's and those of the rest.
proof fn lemma_byte_sum_first(frames: Seq<FrameView>)
    requires
        frames.len() > 0,
    ensures
        byte_sum(frames) == frames[0].estimated_bytes + byte_sum(
            frames.subrange(1, frames.len() as int),
        ),
    decreases frames.len(),
{
    let rest = frames.subrange(1, frames.len() as int);
    if frames.len() == 1 {
        assert(frames.drop_last() =~= Seq::empty());
        assert(rest =~= Seq::empty());
    } else {
        lemma_byte_sum_first(frames.drop_last());
        assert(frames.drop_last().subrange(1, frames.len() - 1) =~= rest.drop_last());
    }
}

/// Nothing is evicted that fits, and nothing is kept that does not: the oldest
/// frames go, as few of them as bring the number of frames within the limit on
/// frames and the sum of their bytes within the limit on bytes, a limit of zero
/// being none; only the last frame stays though it does not fit.
pub proof fn law_nothing_is_evicted_that_fits(
    frames: Seq<FrameView>,
    policy: HistoryPolicy,
    count: int,
)
    requires
        policy.max_estimated_bytes < u64::MAX || byte_sum(frames) <= u64::MAX,
    ensures
        (policy.max_frames == 0 || frames.len() <= policy.max_frames) && (
        policy.max_estimated_bytes == 0 || byte_sum(frames) <= policy.max_estimated_bytes)
            ==> eviction_count(frames, policy) == 0,
        ({
            let kept = frames.subrange(
                eviction_count(frames, policy) as int,
                frames.len() as int,
            );
            frames.len() > 0 ==> kept.len() >= 1 && (kept.len() == 1 || ((policy.max_frames == 0
                || kept.len() <= policy.max_frames) && (policy.max_estimated_bytes == 0
                || byte_sum(kept) <= policy.max_estimated_bytes)))
        }),
        0 <= count < eviction_count(frames, policy) ==> ({
            let kept = frames.subrange(count, frames.len() as int);
            ||| (policy.max_frames != 0 && kept.len() > policy.max_frames)
            ||| (policy.max_estimated_bytes != 0 && byte_sum(kept) > policy.max_estimated_bytes)
        }),
    decreases frames.len(),
{
    lemma_eviction_count(frames, policy);
    lemma_total_bytes(frames);
    assert(frames.subrange(0, frames.len() as int) =~= frames);
    if eviction_count(frames, policy) > 0 {
        let rest = frames.subrange(1, frames.len() as int);
        lemma_byte_sum_first(frames);
        law_nothing_is_evicted_that_fits(rest, policy, count - 1);
        lemma_eviction_count(rest, policy);
        let gone = eviction_count(rest, policy) as int;
        assert(rest.subrange(gone, rest.len() as int) =~= frames.subrange(
            gone + 1,
            frames.len() as int,
        ));
        if 1 <= count <= gone {
            assert(rest.subrange(count - 1, rest.len() as int) =~= frames.subrange(
                count,
                frames.len() as int,
            ));
        }
    }
}

/// An install is of one frame and loses none: before anything is evicted the
/// timeline holds the arriving frame, and beside it every frame it held, each in
/// its place, but for one of the same scan, which it takes the place of. Where
/// sources are told apart that one is of the same source as well.
pub proof fn law_an_install_loses_no_frame(
    history: HistoryView,
    arriving: FrameView,
    by_source: bool,
) -> (place: int)
    ensures
        ({
            let before = history.frames;
            let after = placed(history, arriving, by_source).frames;
            let same = |kept: FrameView|
                kept.identity == arriving.identity && (by_source ==> kept.source_label
                    == arriving.source_label);
            &&& 0 <= place < after.len()
            &&& after[place] == arriving
            &&& if exists|i: int| 0 <= i < before.len() && same(#[trigger] before[i]) {
                after.remove(place) == before.remove(place) && same(before[place])
            } else {
                after.remove(place) == before
            }
        }),
        ({
            let after = placed(history, arriving, by_source);
            &&& installed(history, arriving, by_source).frames == after.frames.subrange(
                install_report(history, arriving, by_source).evicted as int,
                after.frames.len() as int,
            )
            &&& installed(history, arriving, by_source).policy == history.policy
            &&& installed(history, arriving, by_source).playback == history.playback
            &&& installed(history, arriving, by_source).follows_live == history.follows_live
        }) || placed(history, arriving, by_source).frames.len() > usize::MAX,
{
    let before = history.frames;
    let replacing = |kept: FrameView| replaces(arriving, kept, by_source);
    crate::find::lemma_first_where(before, replacing);
    crate::find::lemma_first_where(
        before,
        |kept: FrameView| identity_before(arriving.identity, kept.identity),
    );
    let same = |kept: FrameView|
        kept.identity == arriving.identity && (by_source ==> kept.source_label
            == arriving.source_label);
    assert forall|kept: FrameView| #[trigger] replacing(kept) == same(kept) by {
        if kept.identity == arriving.identity && kept.source_label == arriving.source_label {
            assert(key_of(kept) == key_of(arriving));
        }
    }
    let after = placed(history, arriving, by_source).frames;
    lemma_eviction_count(after, history.policy);
    let at = replaced_index(before, arriving, by_source);
    if at < before.len() {
        assert(replacing(before[at]));
        assert(same(before[at]));
        assert(after.remove(at) =~= before.remove(at));
        at
    } else {
        assert forall|i: int| 0 <= i < before.len() implies !same(#[trigger] before[i]) by {
            assert(!replacing(before[i]));
        }
        let place = insertion_index(before, arriving);
        assert(after.remove(place) =~= before);
        place
    }
}

/// A timeline that follows the live edge shows its newest frame after every
/// install, and one frame is on screen wherever there is one.
pub proof fn law_the_live_edge_is_followed(
    history: HistoryView,
    arriving: FrameView,
    by_source: bool,
)
    requires
        history_wf(history),
    ensures
        ({
            let after = installed(history, arriving, by_source);
            &&& after.frames.len() > 0
            &&& 0 <= after.selected < after.frames.len()
            &&& history.follows_live ==> after.selected == after.frames.len() - 1
        }),
{
    lemma_installed_wf(history, arriving, by_source);
    crate::find::lemma_first_where(
        history.frames,
        |kept: FrameView| replaces(arriving, kept, by_source),
    );
    crate::find::lemma_first_where(
        history.frames,
        |kept: FrameView| identity_before(arriving.identity, kept.identity),
    );
    let after = placed(history, arriving, by_source);
    lemma_eviction_count(after.frames, after.policy);
}

impl VolumeHistory {
    /// An empty timeline under a policy, at the live edge and paused.
    pub fn new(policy: HistoryPolicy) -> (history: Self)
        ensures
            history@ == (HistoryView {
                frames: Seq::empty(),
                selected: 0,
                follows_live: true,
                playback: PlaybackState::Paused,
                policy,
            }),
            history_wf(history@),
    {
        let history = VolumeHistory {
            frames: Vec::new(),
            selected: 0,
            follows_live: true,
            playback: PlaybackState::Paused,
            policy,
        };
        assert(history@.frames =~= Seq::empty());
        history
    }

    /// How many frames are kept.
    pub fn len(&self) -> (count: usize)
        ensures
            count == self@.frames.len(),
    {
        self.frames.len()
    }

    /// Whether nothing is kept.
    pub fn is_empty(&self) -> (empty: bool)
        ensures
            empty == (self@.frames.len() == 0),
    {
        self.frames.len() == 0
    }

    /// The frames, oldest first.
    pub fn frames(&self) -> (frames: &Vec<VolumeFrame>)
        ensures
            frames@.map_values(|frame: VolumeFrame| frame@) == self@.frames,
    {
        &self.frames
    }

    /// Whether the timeline moves to each new frame.
    pub fn follows_live(&self) -> (follows: bool)
        ensures
            follows == self@.follows_live,
    {
        self.follows_live
    }

    /// Whether the newest frame is on screen.
    pub fn at_live_edge(&self) -> (yes: bool)
        requires
            history_wf(self@),
        ensures
            yes == at_live_edge(self@),
    {
        self.frames.len() > 0 && self.selected == self.frames.len() - 1
    }

    /// Whether the timeline is looping.
    pub fn playback(&self) -> (playback: PlaybackState)
        ensures
            playback == self@.playback,
    {
        self.playback
    }

    /// The retention in force.
    pub fn policy(&self) -> (policy: HistoryPolicy)
        ensures
            policy == self@.policy,
    {
        self.policy
    }

    /// The place of the frame on screen.
    pub fn selected_index(&self) -> (index: Option<usize>)
        requires
            history_wf(self@),
        ensures
            index matches Some(i) ==> i == self@.selected && i < self@.frames.len(),
            index is Some <==> self@.frames.len() > 0,
    {
        if self.frames.len() == 0 {
            None
        } else {
            Some(self.selected)
        }
    }

    /// The frame on screen.
    pub fn current(&self) -> (frame: Option<&VolumeFrame>)
        requires
            history_wf(self@),
        ensures
            match (frame, current_frame(self@)) {
                (Some(found), Some(expected)) => found@ == expected,
                (None, None) => true,
                _ => false,
            },
    {
        if self.frames.len() == 0 {
            None
        } else {
            assert(self@.frames[self.selected as int] == self.frames@[self.selected as int]@);
            Some(&self.frames[self.selected])
        }
    }

    /// The signature of the frame on screen.
    pub fn current_frame_signature(&self) -> (signature: Option<FrameSignature>)
        requires
            history_wf(self@),
        ensures
            signature_view(signature) == current_signature(self@),
    {
        match self.current() {
            Some(frame) => Some(
                FrameSignature { key: FrameKey::from_frame(frame), stage: frame.stage },
            ),
            None => None,
        }
    }

    /// How much data the frame on screen holds, as cuts and radials.
    pub fn current_frame_extent(&self) -> (extent: Option<(usize, usize)>)
        requires
            history_wf(self@),
        ensures
            extent == current_extent(self@),
    {
        match self.current() {
            Some(frame) => Some((frame.cuts, frame.radials)),
            None => None,
        }
    }

    /// Empties the timeline and returns it to the live edge.
    pub fn clear(&mut self)
        ensures
            final(self)@ == (HistoryView {
                frames: Seq::empty(),
                selected: 0,
                follows_live: true,
                playback: PlaybackState::Paused,
                policy: old(self)@.policy,
            }),
            history_wf(final(self)@),
    {
        self.frames = Vec::new();
        self.selected = 0;
        self.follows_live = true;
        self.playback = PlaybackState::Paused;
        assert(self@.frames =~= Seq::empty());
    }

    /// Starts or pauses the loop.
    pub fn set_playback(&mut self, playback: PlaybackState)
        ensures
            final(self)@ == (HistoryView { playback, ..old(self)@ }),
    {
        self.playback = playback;
    }

    /// Puts a frame on screen by its place, and stops following the live edge.
    /// Says whether there is such a frame; nothing moves where there is none.
    pub fn select(&mut self, index: usize) -> (found: bool)
        requires
            history_wf(old(self)@),
        ensures
            found == (index < old(self)@.frames.len()),
            final(self)@ == selected_at(old(self)@, index as int),
            history_wf(final(self)@),
    {
        if index < self.frames.len() {
            self.selected = index;
            self.follows_live = false;
            true
        } else {
            false
        }
    }

    /// Puts the newest frame on screen and follows the live edge.
    pub fn go_live(&mut self)
        requires
            history_wf(old(self)@),
        ensures
            final(self)@ == gone_live(old(self)@),
            history_wf(final(self)@),
    {
        if self.frames.len() > 0 {
            self.selected = self.frames.len() - 1;
        }
        self.follows_live = true;
    }

    /// Puts the next frame on screen, the oldest behind the newest.
    pub fn advance_wrapping(&mut self)
        requires
            history_wf(old(self)@),
        ensures
            final(self)@ == advanced(old(self)@),
            history_wf(final(self)@),
    {
        if self.frames.len() > 0 {
            self.selected = if self.selected + 1 < self.frames.len() {
                self.selected + 1
            } else {
                0
            };
            self.follows_live = false;
        }
    }

    /// What the kept frames cost.
    pub fn estimated_bytes(&self) -> (bytes: u64)
        ensures
            bytes == total_bytes(self@.frames),
    {
        let mut sum: u64 = 0;
        let mut at: usize = 0;
        assert(self@.frames.take(0) =~= Seq::empty());
        while at < self.frames.len()
            invariant
                at <= self.frames@.len(),
                sum == total_bytes(self@.frames.take(at as int)),
            decreases self.frames@.len() - at,
        {
            proof {
                let next = self@.frames.take(at + 1);
                assert(next.drop_last() =~= self@.frames.take(at as int));
                assert(next.last() == self.frames@[at as int]@);
            }
            sum = sum.saturating_add(self.frames[at].estimated_bytes);
            at = at + 1;
        }
        assert(self@.frames.take(self.frames@.len() as int) =~= self@.frames);
        sum
    }

    /// Evicts the oldest frames until the policy is met, and counts them.
    fn trim(&mut self) -> (evicted: usize)
        requires
            history_wf(old(self)@),
        ensures
            final(self)@ == trimmed_to_policy(old(self)@),
            evicted == eviction_count(old(self)@.frames, old(self)@.policy),
            history_wf(final(self)@),
    {
        let mut evicted: usize = 0;
        let count: usize = self.frames.len();
        proof {
            lemma_eviction_count(self@.frames, self@.policy);
            assert(self@.frames.subrange(0, self@.frames.len() as int) =~= self@.frames);
        }
        loop
            invariant
                history_wf(old(self)@),
                old(self)@.frames.len() == count,
                evicted <= count,
                self@ == without_oldest(old(self)@, evicted as int),
                evicted + eviction_count(self@.frames, self@.policy) == eviction_count(
                    old(self)@.frames,
                    old(self)@.policy,
                ),
                eviction_count(old(self)@.frames, old(self)@.policy) <= old(self)@.frames.len(),
                history_wf(self@),
            ensures
                eviction_count(self@.frames, self@.policy) == 0,
            decreases self@.frames.len(),
        {
            let bytes: u64 = self.estimated_bytes();
            let frames_fit = self.policy.max_frames == 0 || self.frames.len()
                <= self.policy.max_frames;
            let bytes_fit = self.policy.max_estimated_bytes == 0 || bytes
                <= self.policy.max_estimated_bytes as u64;
            if self.frames.len() <= 1 || (frames_fit && bytes_fit) {
                break;
            }
            let ghost before = self@;
            let _ = self.frames.remove(0);
            if self.selected > 0 {
                self.selected = self.selected - 1;
            }
            evicted = evicted + 1;
            proof {
                assert(self@.frames =~= before.frames.subrange(1, before.frames.len() as int));
                assert(self@.frames =~= old(self)@.frames.subrange(
                    evicted as int,
                    old(self)@.frames.len() as int,
                ));
            }
        }
        evicted
    }

    /// Changes the retention, evicts what no longer fits, and counts it.
    pub fn set_policy(&mut self, policy: HistoryPolicy) -> (evicted: usize)
        requires
            history_wf(old(self)@),
        ensures
            final(self)@ == trimmed_to_policy(HistoryView { policy, ..old(self)@ }),
            evicted == eviction_count(old(self)@.frames, policy),
            history_wf(final(self)@),
    {
        self.policy = policy;
        self.trim()
    }

    /// Installs a frame: in the place of the same scan, or in timeline order.
    pub fn install(&mut self, frame: VolumeFrame) -> (report: InstallReport)
        requires
            history_wf(old(self)@),
        ensures
            final(self)@ == installed(old(self)@, frame@, false),
            report == install_report(old(self)@, frame@, false),
            history_wf(final(self)@),
    {
        self.install_by(frame, false)
    }

    /// Installs a frame beside other sources of the same scan.
    pub fn install_distinct(&mut self, frame: VolumeFrame) -> (report: InstallReport)
        requires
            history_wf(old(self)@),
        ensures
            final(self)@ == installed(old(self)@, frame@, true),
            report == install_report(old(self)@, frame@, true),
            history_wf(final(self)@),
    {
        self.install_by(frame, true)
    }

    /// Installs a frame, in the place of the same scan, and where frames are
    /// kept by source, of the same source.
    pub fn install_by(&mut self, frame: VolumeFrame, by_source: bool) -> (report: InstallReport)
        requires
            history_wf(old(self)@),
        ensures
            final(self)@ == installed(old(self)@, frame@, by_source),
            report == install_report(old(self)@, frame@, by_source),
            history_wf(final(self)@),
    {
        let ghost before = self@;
        let ghost arriving = frame@;
        let mut at: usize = 0;
        while at < self.frames.len() && !(frame.identity.same(&self.frames[at].identity) && (
        !by_source || same_text(
            frame.source_label.as_str(),
            self.frames[at].source_label.as_str(),
        )))
            invariant
                at <= self.frames@.len(),
                arriving == frame@,
                before == self@,
                before == old(self)@,
                forall|i: int|
                    0 <= i < at ==> !replaces(arriving, #[trigger] before.frames[i], by_source),
            decreases self.frames@.len() - at,
        {
            assert(before.frames[at as int] == self.frames@[at as int]@);
            at = at + 1;
        }
        proof {
            if at < self.frames@.len() {
                assert(before.frames[at as int] == self.frames@[at as int]@);
            }
            lemma_first_where_is(
                before.frames,
                |kept: FrameView| replaces(arriving, kept, by_source),
                at as int,
            );
            lemma_installed_wf(before, arriving, by_source);
        }
        let disposition;
        if at < self.frames.len() {
            self.frames.set(at, frame);
            disposition = Disposition::Replaced;
            assert(self@.frames =~= before.frames.update(at as int, arriving));
        } else {
            let mut place: usize = 0;
            while place < self.frames.len() && !comes_before(&frame, &self.frames[place])
                invariant
                    place <= self.frames@.len(),
                    arriving == frame@,
                    before == self@,
                    before == old(self)@,
                    forall|i: int|
                        0 <= i < place ==> !identity_before(
                            arriving.identity,
                            (#[trigger] before.frames[i]).identity,
                        ),
                decreases self.frames@.len() - place,
            {
                assert(before.frames[place as int] == self.frames@[place as int]@);
                place = place + 1;
            }
            proof {
                if place < self.frames@.len() {
                    assert(before.frames[place as int] == self.frames@[place as int]@);
                }
                lemma_first_where_is(
                    before.frames,
                    |kept: FrameView| identity_before(arriving.identity, kept.identity),
                    place as int,
                );
            }
            let count: usize = self.frames.len();
            self.frames.insert(place, frame);
            if count == 0 {
                self.selected = 0;
            } else if self.follows_live {
                self.selected = count;
            } else if place <= self.selected {
                self.selected = self.selected + 1;
            }
            disposition = Disposition::Inserted;
            assert(self@.frames =~= before.frames.insert(place as int, arriving));
        }
        assert(self@ == placed(before, arriving, by_source));
        let evicted: usize = self.trim();
        InstallReport { disposition, evicted }
    }
}

/// The timeline with the frame at `index` on screen, where there is one.
pub open spec fn selected_at(history: HistoryView, index: int) -> HistoryView {
    if 0 <= index < history.frames.len() {
        HistoryView { selected: index, follows_live: false, ..history }
    } else {
        history
    }
}

/// The timeline at the live edge.
pub open spec fn gone_live(history: HistoryView) -> HistoryView {
    HistoryView {
        selected: if history.frames.len() > 0 {
            history.frames.len() - 1
        } else {
            history.selected
        },
        follows_live: true,
        ..history
    }
}

/// The timeline one frame on.
pub open spec fn advanced(history: HistoryView) -> HistoryView {
    if history.frames.len() == 0 {
        history
    } else {
        HistoryView {
            selected: if history.selected + 1 < history.frames.len() {
                history.selected + 1
            } else {
                0
            },
            follows_live: false,
            ..history
        }
    }
}

/// Stepping through the timeline goes to the very next frame and from the last
/// to the first; going to a frame or to the live edge goes there. None of them
/// touches a frame, the retention or the loop.
pub proof fn law_stepping_visits_every_frame(history: HistoryView, index: int)
    requires
        history_wf(history),
        history.frames.len() > 0,
    ensures
        advanced(history).selected == (history.selected + 1) % (history.frames.len() as int),
        !advanced(history).follows_live,
        advanced(history).frames == history.frames,
        advanced(history).policy == history.policy,
        advanced(history).playback == history.playback,
        0 <= index < history.frames.len() ==> current_frame(selected_at(history, index)) == Some(
            history.frames[index],
        ) && !selected_at(history, index).follows_live && selected_at(history, index).selected
            == index,
        !(0 <= index < history.frames.len()) ==> selected_at(history, index) == history,
        selected_at(history, index).frames == history.frames,
        selected_at(history, index).policy == history.policy,
        selected_at(history, index).playback == history.playback,
        current_frame(gone_live(history)) == Some(history.frames.last()),
        gone_live(history).follows_live,
        gone_live(history).frames == history.frames,
        gone_live(history).policy == history.policy,
        gone_live(history).playback == history.playback,
{
    let at = history.selected;
    let count = history.frames.len() as int;
    assert((at + 1) % count == (if at + 1 < count {
        at + 1
    } else {
        0
    })) by (nonlinear_arith)
        requires
            0 <= at < count,
    ;
}

/// An eviction takes the oldest frames and no others, and what is on screen
/// stays there unless it is among them.
pub proof fn law_the_oldest_go(history: HistoryView, count: int, index: int)
    requires
        history_wf(history),
        0 <= count < history.frames.len(),
    ensures
        ({
            let left = without_oldest(history, count);
            &&& left.frames.len() == history.frames.len() - count
            &&& 0 <= index < left.frames.len() ==> left.frames[index] == history.frames[index
                + count]
            &&& history.selected >= count ==> current_frame(left) == current_frame(history)
            &&& history.selected < count ==> current_frame(left) == Some(history.frames[count])
            &&& left.follows_live == history.follows_live
            &&& left.playback == history.playback
            &&& left.policy == history.policy
        }),
        trimmed_to_policy(history) == without_oldest(
            history,
            eviction_count(history.frames, history.policy) as int,
        ),
{
}

/// The live default keeps thirty frames within one gibibyte.
pub proof fn law_the_live_default(configured: HistoryPolicy)
    ensures
        configured.max_frames == 0 ==> live_policy(configured).max_frames == 30,
        configured.max_estimated_bytes == 0 ==> live_policy(configured).max_estimated_bytes
            == 1_073_741_824,
{
}

/// The order of the timeline: radars by their names, and the scans of one radar by
/// their times, the earlier first.
pub proof fn law_scans_stand_by_radar_and_time(one: IdentityView, other: IdentityView)
    ensures
        one.site_id == other.site_id ==> (identity_before(one, other)
            <==> one.volume_time.total_nanos() < other.volume_time.total_nanos()),
        one.site_id != other.site_id ==> (identity_before(one, other) <==> text_before(
            one.site_id,
            other.site_id,
        )),
        identity_before(one, other) ==> !identity_before(other, one),
{
    crate::text::lemma_text_before_irreflexive(one.site_id);
    if text_before(one.site_id, other.site_id) && text_before(other.site_id, one.site_id) {
        crate::text::lemma_text_before_transitive(one.site_id, other.site_id, one.site_id);
    }
    if identity_before(one, other) && identity_before(other, one) {
        crate::text::lemma_text_before_irreflexive(other.site_id);
    }
}

/// What an install reports is what happened: a frame was replaced exactly where
/// the timeline held one of that scan, from the same source where sources are told
/// apart; and as many went as the timeline has less than it would have.
pub proof fn law_an_install_reports_what_happened(
    history: HistoryView,
    arriving: FrameView,
    by_source: bool,
)
    requires
        history.frames.len() < usize::MAX,
    ensures
        ({
            let report = install_report(history, arriving, by_source);
            let held = exists|i: int|
                0 <= i < history.frames.len() && (#[trigger] history.frames[i]).identity
                    == arriving.identity && (by_source ==> history.frames[i].source_label
                    == arriving.source_label);
            &&& report.disposition is Replaced <==> held
            &&& installed(history, arriving, by_source).frames.len() + report.evicted
                == history.frames.len() + (if held {
                0int
            } else {
                1int
            })
        }),
{
    let place = law_an_install_loses_no_frame(history, arriving, by_source);
    let replacing = |kept: FrameView| replaces(arriving, kept, by_source);
    crate::find::lemma_first_where(history.frames, replacing);
    crate::find::lemma_first_where(
        history.frames,
        |kept: FrameView| identity_before(arriving.identity, kept.identity),
    );
    let at = replaced_index(history.frames, arriving, by_source);
    if at < history.frames.len() {
        assert(replacing(history.frames[at]));
    } else {
        assert forall|i: int| 0 <= i < history.frames.len() implies !(
        (#[trigger] history.frames[i]).identity == arriving.identity && (by_source
            ==> history.frames[i].source_label == arriving.source_label)) by {
            assert(!replacing(history.frames[i]));
        }
    }
    lemma_eviction_count(placed(history, arriving, by_source).frames, history.policy);
}

/// What is read off the timeline is of the frame that is on screen.
pub proof fn law_what_is_on_screen(history: HistoryView)
    requires
        history_wf(history),
    ensures
        history.frames.len() == 0 ==> current_frame(history) is None && current_signature(history)
            is None && current_extent(history) is None && !at_live_edge(history),
        history.frames.len() > 0 ==> {
            let frame = history.frames[history.selected];
            &&& current_frame(history) == Some(frame)
            &&& current_extent(history) == Some((frame.cuts, frame.radials))
            &&& current_signature(history) matches Some(signature)
            &&& signature.key.identity == frame.identity
            &&& signature.key.source_label == frame.source_label
            &&& signature.stage == frame.stage
            &&& at_live_edge(history) <==> history.selected == history.frames.len() - 1
        },
{
}

/// How limits are told and counted: a limit of nothing is no limit, and a limit in
/// mebibytes is that many bytes as far as the machine can count.
pub proof fn law_how_limits_are_told(policy: HistoryPolicy, megabytes: int)
    ensures
        policy_text(policy) == "retention Unlimited"@ || policy.max_frames > 0
            || policy.max_estimated_bytes > 0,
        policy.max_frames > 0 && policy.max_estimated_bytes > 0 ==> policy_text(policy)
            == "retention limit "@ + (decimal(policy.max_frames as nat) + " frames"@) + " / "@ + (
        binary_bytes_text(policy.max_estimated_bytes as nat) + " RAM"@),
        policy.max_frames > 0 && policy.max_estimated_bytes == 0 ==> policy_text(policy)
            == "retention limit "@ + (decimal(policy.max_frames as nat) + " frames"@) + " / "@
            + "Unlimited RAM"@,
        policy.max_frames == 0 && policy.max_estimated_bytes > 0 ==> policy_text(policy)
            == "retention limit "@ + "Unlimited frames"@ + " / "@ + (binary_bytes_text(
            policy.max_estimated_bytes as nat,
        ) + " RAM"@),
        megabytes <= 0 ==> configured_bytes(megabytes) == 0,
        0 < megabytes && megabytes * 1_048_576 <= usize::MAX ==> configured_bytes(megabytes)
            == megabytes * 1_048_576,
        megabytes * 1_048_576 > usize::MAX ==> configured_bytes(megabytes) == usize::MAX,
{
}

} // verus!
