//! Volumes on the timeline, as the rest of the workstation speaks of them.

use crate::moment::Moment;
use crate::text::same_text;
use vstd::prelude::*;

verus! {

/// Where a volume came from.
#[derive(Clone, Copy, Debug, PartialEq, Eq, Structural)]
pub enum FrameOrigin {
    Local,
    Live,
}

/// How much of a volume has arrived.
#[derive(Clone, Copy, Debug, PartialEq, Eq, Structural)]
pub enum FrameStage {
    Preview,
    Partial,
    Complete,
}

/// The stage's name.
pub open spec fn stage_name(stage: FrameStage) -> Seq<char> {
    match stage {
        FrameStage::Preview => "Preview"@,
        FrameStage::Partial => "Partial"@,
        FrameStage::Complete => "Complete"@,
    }
}

/// The stage's name in capitals, as a badge.
pub open spec fn stage_badge(stage: FrameStage) -> Seq<char> {
    match stage {
        FrameStage::Preview => "PREVIEW"@,
        FrameStage::Partial => "PARTIAL"@,
        FrameStage::Complete => "COMPLETE"@,
    }
}

impl FrameStage {
    /// The stage's name.
    pub fn name(&self) -> (name: &'static str)
        ensures
            name@ == stage_name(*self),
    {
        match self {
            FrameStage::Preview => "Preview",
            FrameStage::Partial => "Partial",
            FrameStage::Complete => "Complete",
        }
    }

    /// The stage's name in capitals.
    pub fn badge(&self) -> (name: &'static str)
        ensures
            name@ == stage_badge(*self),
    {
        match self {
            FrameStage::Preview => "PREVIEW",
            FrameStage::Partial => "PARTIAL",
            FrameStage::Complete => "COMPLETE",
        }
    }
}

/// Which scan a volume is: the radar and the time the scan started.
pub struct FrameIdentity {
    pub site_id: String,
    pub volume_time: Moment,
}

/// An identity as contracts see it.
pub ghost struct IdentityView {
    pub site_id: Seq<char>,
    pub volume_time: Moment,
}

impl View for FrameIdentity {
    type V = IdentityView;

    open spec fn view(&self) -> IdentityView {
        IdentityView { site_id: self.site_id@, volume_time: self.volume_time }
    }
}

impl FrameIdentity {
    /// Whether two identities are the same scan.
    pub fn same(&self, other: &FrameIdentity) -> (same: bool)
        ensures
            same == (self@ == other@),
    {
        same_text(self.site_id.as_str(), other.site_id.as_str()) && self.volume_time
            == other.volume_time
    }

    /// A copy.
    pub fn copy(&self) -> (copy: FrameIdentity)
        ensures
            copy == *self,
    {
        FrameIdentity { site_id: self.site_id.clone(), volume_time: self.volume_time }
    }
}

/// One volume on the timeline.
pub struct VolumeFrame {
    pub identity: FrameIdentity,
    pub origin: FrameOrigin,
    pub stage: FrameStage,
    /// What the volume was read from, in the words the analyst sees.
    pub source_label: String,
    /// How much data it holds.
    pub cuts: usize,
    pub radials: usize,
    /// What holding it costs, in bytes.
    pub estimated_bytes: u64,
    /// Whether it says where its radar stood.
    pub located: bool,
    /// The volume's data, by the number the loader keeps it under.
    pub volume: u64,
}

/// A frame as contracts see it.
pub ghost struct FrameView {
    pub identity: IdentityView,
    pub origin: FrameOrigin,
    pub stage: FrameStage,
    pub source_label: Seq<char>,
    pub cuts: usize,
    pub radials: usize,
    pub estimated_bytes: u64,
    pub located: bool,
    pub volume: u64,
}

impl View for VolumeFrame {
    type V = FrameView;

    open spec fn view(&self) -> FrameView {
        FrameView {
            identity: self.identity@,
            origin: self.origin,
            stage: self.stage,
            source_label: self.source_label@,
            cuts: self.cuts,
            radials: self.radials,
            estimated_bytes: self.estimated_bytes,
            located: self.located,
            volume: self.volume,
        }
    }
}

impl VolumeFrame {
    /// A copy.
    pub fn copy(&self) -> (copy: VolumeFrame)
        ensures
            copy == *self,
    {
        VolumeFrame {
            identity: self.identity.copy(),
            origin: self.origin,
            stage: self.stage,
            source_label: self.source_label.clone(),
            cuts: self.cuts,
            radials: self.radials,
            estimated_bytes: self.estimated_bytes,
            located: self.located,
            volume: self.volume,
        }
    }
}

/// What names a picture on the timeline: equal timestamps are legitimate in
/// independently selected files, so the scan alone does not.
pub struct FrameKey {
    pub identity: FrameIdentity,
    pub source_label: String,
}

/// A frame key as contracts see it.
pub ghost struct FrameKeyView {
    pub identity: IdentityView,
    pub source_label: Seq<char>,
}

impl View for FrameKey {
    type V = FrameKeyView;

    open spec fn view(&self) -> FrameKeyView {
        FrameKeyView { identity: self.identity@, source_label: self.source_label@ }
    }
}

/// The key of a frame.
pub open spec fn key_of(frame: FrameView) -> FrameKeyView {
    FrameKeyView { identity: frame.identity, source_label: frame.source_label }
}

impl FrameKey {
    /// The key of a frame.
    pub fn from_frame(frame: &VolumeFrame) -> (key: FrameKey)
        ensures
            key@ == key_of(frame@),
    {
        FrameKey { identity: frame.identity.copy(), source_label: frame.source_label.clone() }
    }

    /// Whether a frame goes by this key.
    pub fn names(&self, frame: &VolumeFrame) -> (yes: bool)
        ensures
            yes == (self@ == key_of(frame@)),
    {
        self.identity.same(&frame.identity) && same_text(
            self.source_label.as_str(),
            frame.source_label.as_str(),
        )
    }

    /// A copy.
    pub fn copy(&self) -> (copy: FrameKey)
        ensures
            copy == *self,
    {
        FrameKey { identity: self.identity.copy(), source_label: self.source_label.clone() }
    }
}

/// What makes one displayed frame another: which picture it is, and how far it
/// has come.
pub struct FrameSignature {
    pub key: FrameKey,
    pub stage: FrameStage,
}

/// A signature as contracts see it.
pub ghost struct SignatureView {
    pub key: FrameKeyView,
    pub stage: FrameStage,
}

impl View for FrameSignature {
    type V = SignatureView;

    open spec fn view(&self) -> SignatureView {
        SignatureView { key: self.key@, stage: self.stage }
    }
}

/// The signature of a frame.
pub open spec fn signature_of(frame: FrameView) -> SignatureView {
    SignatureView { key: key_of(frame), stage: frame.stage }
}

/// The signature of the frame on screen, where there is one.
pub open spec fn signature_view(signature: Option<FrameSignature>) -> Option<SignatureView> {
    match signature {
        Some(s) => Some(s@),
        None => None,
    }
}

/// Whether two readings of what is on screen are the same.
pub fn same_signature(left: &Option<FrameSignature>, right: &Option<FrameSignature>) -> (same: bool)
    ensures
        same == (signature_view(*left) == signature_view(*right)),
{
    match (left, right) {
        (Some(l), Some(r)) => l.stage == r.stage && l.key.identity.same(&r.key.identity)
            && same_text(l.key.source_label.as_str(), r.key.source_label.as_str()),
        (None, None) => true,
        _ => false,
    }
}

/// Two frames go by one key where they are the same scan from the same source, and
/// have one signature where their stage is the same too.
pub proof fn law_what_a_frame_goes_by(one: FrameView, other: FrameView)
    ensures
        key_of(one) == key_of(other) <==> one.identity == other.identity && one.source_label
            == other.source_label,
        signature_of(one) == signature_of(other) <==> one.identity == other.identity
            && one.source_label == other.source_label && one.stage == other.stage,
{
}

} // verus!
