//! The bar's two styles: which controls each carries, in which order, and how
//! they read.

use crate::settings::ToolbarStyle;
use crate::text::append_decimal;
use vstd::prelude::*;

verus! {

use crate::panes::text_view;
use crate::text::{decimal, texts};

/// A menu of the bar.
#[derive(Clone, Copy, Debug, PartialEq, Eq, Structural)]
pub enum MenuTitle {
    File,
    View,
    /// Titled `Map`.
    Ground,
    Tools,
}

/// A control of the bar, or a readout on it.
#[derive(Clone, Copy, Debug, PartialEq, Eq, Structural)]
pub enum Control {
    Menu(MenuTitle),
    Layers,
    PathBox,
    Load,
    Browse,
    ExportView,
    ExportLoop,
    OnlineData,
    ProfileLine,
    Profiles,
    Settings,
    Layout,
    Quality,
    CameraLinks,
    Basemap,
    Imagery,
    Volume3d,
    Section,
    Vrot,
    ClearVrot,
    ProductPicker,
    Palette,
    GateFilter,
    TiltDown,
    TiltReadout,
    TiltUp,
    AutoTilt,
    SnrReadout,
    ResolutionNotice,
    SiteBox,
    Live,
    LiveStatus,
    StallNotice,
    Warnings,
    VrotReadout,
    ActivePane,
}

/// The row of a style, from left to right. The compact one keeps what is touched
/// in a storm and files the rest under titles; the other puts everything on the
/// row.
pub open spec fn row_of(style: ToolbarStyle) -> Seq<Control> {
    match style {
        ToolbarStyle::Menus => seq![
            Control::Menu(MenuTitle::File),
            Control::Menu(MenuTitle::View),
            Control::Menu(MenuTitle::Ground),
            Control::Layers,
            Control::Menu(MenuTitle::Tools),
            Control::ProductPicker,
            Control::Palette,
            Control::GateFilter,
            Control::TiltDown,
            Control::TiltReadout,
            Control::TiltUp,
            Control::AutoTilt,
            Control::SnrReadout,
            Control::ResolutionNotice,
            Control::SiteBox,
            Control::Live,
            Control::LiveStatus,
            Control::StallNotice,
            Control::Warnings,
            Control::VrotReadout,
        ],
        ToolbarStyle::Everything => seq![
            Control::PathBox,
            Control::Load,
            Control::Browse,
            Control::ExportView,
            Control::ExportLoop,
            Control::OnlineData,
            Control::SiteBox,
            Control::Live,
            Control::LiveStatus,
            Control::StallNotice,
            Control::Warnings,
            Control::Layout,
            Control::ProductPicker,
            Control::Palette,
            Control::Basemap,
            Control::Imagery,
            Control::Layers,
            Control::Quality,
            Control::GateFilter,
            Control::TiltDown,
            Control::TiltReadout,
            Control::TiltUp,
            Control::AutoTilt,
            Control::SnrReadout,
            Control::ResolutionNotice,
            Control::CameraLinks,
            Control::Volume3d,
            Control::Section,
            Control::Vrot,
            Control::ClearVrot,
            Control::VrotReadout,
            Control::Settings,
            Control::ActivePane,
        ],
    }
}

/// What is filed under a title, from top to bottom.
pub open spec fn filed_under(title: MenuTitle) -> Seq<Control> {
    match title {
        MenuTitle::File => seq![
            Control::PathBox,
            Control::Load,
            Control::Browse,
            Control::ExportView,
            Control::ExportLoop,
            Control::OnlineData,
            Control::ProfileLine,
            Control::Profiles,
            Control::Settings,
        ],
        MenuTitle::View => seq![Control::Layout, Control::Quality, Control::CameraLinks],
        MenuTitle::Ground => seq![Control::Basemap, Control::Imagery],
        MenuTitle::Tools => seq![
            Control::Volume3d,
            Control::Section,
            Control::Vrot,
            Control::ClearVrot,
        ],
    }
}

/// Whether an analyst touches or reads a control in a storm: the product and its
/// colours, what is hidden, the tilt, the radar, and whether its feed and the
/// warnings can be believed.
pub open spec fn is_storm_control(control: Control) -> bool {
    match control {
        Control::ProductPicker | Control::Palette | Control::GateFilter => true,
        Control::TiltDown | Control::TiltReadout | Control::TiltUp | Control::AutoTilt => true,
        Control::SnrReadout | Control::ResolutionNotice => true,
        Control::SiteBox | Control::Live | Control::LiveStatus | Control::StallNotice => true,
        Control::Warnings | Control::VrotReadout => true,
        _ => false,
    }
}

/// The controls of a style's row, from left to right.
pub fn bar_controls(style: ToolbarStyle) -> (row: Vec<Control>)
    ensures
        row@ == row_of(style),
{
    match style {
        ToolbarStyle::Menus => vec![
            Control::Menu(MenuTitle::File),
            Control::Menu(MenuTitle::View),
            Control::Menu(MenuTitle::Ground),
            Control::Layers,
            Control::Menu(MenuTitle::Tools),
            Control::ProductPicker,
            Control::Palette,
            Control::GateFilter,
            Control::TiltDown,
            Control::TiltReadout,
            Control::TiltUp,
            Control::AutoTilt,
            Control::SnrReadout,
            Control::ResolutionNotice,
            Control::SiteBox,
            Control::Live,
            Control::LiveStatus,
            Control::StallNotice,
            Control::Warnings,
            Control::VrotReadout,
        ],
        ToolbarStyle::Everything => vec![
            Control::PathBox,
            Control::Load,
            Control::Browse,
            Control::ExportView,
            Control::ExportLoop,
            Control::OnlineData,
            Control::SiteBox,
            Control::Live,
            Control::LiveStatus,
            Control::StallNotice,
            Control::Warnings,
            Control::Layout,
            Control::ProductPicker,
            Control::Palette,
            Control::Basemap,
            Control::Imagery,
            Control::Layers,
            Control::Quality,
            Control::GateFilter,
            Control::TiltDown,
            Control::TiltReadout,
            Control::TiltUp,
            Control::AutoTilt,
            Control::SnrReadout,
            Control::ResolutionNotice,
            Control::CameraLinks,
            Control::Volume3d,
            Control::Section,
            Control::Vrot,
            Control::ClearVrot,
            Control::VrotReadout,
            Control::Settings,
            Control::ActivePane,
        ],
    }
}

/// The controls filed under a title, from top to bottom.
pub fn menu_controls(title: MenuTitle) -> (filed: Vec<Control>)
    ensures
        filed@ == filed_under(title),
{
    match title {
        MenuTitle::File => vec![
            Control::PathBox,
            Control::Load,
            Control::Browse,
            Control::ExportView,
            Control::ExportLoop,
            Control::OnlineData,
            Control::ProfileLine,
            Control::Profiles,
            Control::Settings,
        ],
        MenuTitle::View => vec![Control::Layout, Control::Quality, Control::CameraLinks],
        MenuTitle::Ground => vec![Control::Basemap, Control::Imagery],
        MenuTitle::Tools => vec![
            Control::Volume3d,
            Control::Section,
            Control::Vrot,
            Control::ClearVrot,
        ],
    }
}

/// Storm controls stay on the row of either style, and what is filed under a
/// title is not on the row beside it.
pub proof fn law_storm_controls_stay_on_the_row(
    control: Control,
    style: ToolbarStyle,
    title: MenuTitle,
)
    ensures
        is_storm_control(control) ==> row_of(style).contains(control),
        filed_under(title).contains(control) ==> !row_of(ToolbarStyle::Menus).contains(control)
            && !is_storm_control(control),
{
    let row = row_of(style);
    if is_storm_control(control) {
        match style {
            ToolbarStyle::Menus => {
                assert(row[5] == Control::ProductPicker && row[6] == Control::Palette);
                assert(row[7] == Control::GateFilter && row[8] == Control::TiltDown);
                assert(row[9] == Control::TiltReadout && row[10] == Control::TiltUp);
                assert(row[11] == Control::AutoTilt && row[12] == Control::SnrReadout);
                assert(row[13] == Control::ResolutionNotice && row[14] == Control::SiteBox);
                assert(row[15] == Control::Live && row[16] == Control::LiveStatus);
                assert(row[17] == Control::StallNotice && row[18] == Control::Warnings);
                assert(row[19] == Control::VrotReadout);
            },
            ToolbarStyle::Everything => {
                assert(row[12] == Control::ProductPicker && row[13] == Control::Palette);
                assert(row[18] == Control::GateFilter && row[19] == Control::TiltDown);
                assert(row[20] == Control::TiltReadout && row[21] == Control::TiltUp);
                assert(row[22] == Control::AutoTilt && row[23] == Control::SnrReadout);
                assert(row[24] == Control::ResolutionNotice && row[6] == Control::SiteBox);
                assert(row[7] == Control::Live && row[8] == Control::LiveStatus);
                assert(row[9] == Control::StallNotice && row[10] == Control::Warnings);
                assert(row[30] == Control::VrotReadout);
            },
        }
    }
}

/// The style that shows everything has no titles, and has on its row all that
/// the compact one has on its own or files away, but for the profiles.
pub proof fn law_the_other_style_shows_all(control: Control, title: MenuTitle)
    ensures
        !row_of(ToolbarStyle::Everything).contains(Control::Menu(title)),
        row_of(ToolbarStyle::Menus).contains(control) && control !is Menu ==> row_of(
            ToolbarStyle::Everything,
        ).contains(control),
        filed_under(title).contains(control) && control != Control::ProfileLine && control
            != Control::Profiles ==> row_of(ToolbarStyle::Everything).contains(control),
{
    let row = row_of(ToolbarStyle::Everything);
    assert(row[0] == Control::PathBox && row[1] == Control::Load && row[2] == Control::Browse);
    assert(row[3] == Control::ExportView && row[4] == Control::ExportLoop);
    assert(row[5] == Control::OnlineData && row[11] == Control::Layout);
    assert(row[14] == Control::Basemap && row[15] == Control::Imagery && row[16]
        == Control::Layers);
    assert(row[17] == Control::Quality && row[25] == Control::CameraLinks);
    assert(row[26] == Control::Volume3d && row[27] == Control::Section);
    assert(row[28] == Control::Vrot && row[29] == Control::ClearVrot);
    assert(row[31] == Control::Settings);
    law_storm_controls_stay_on_the_row(control, ToolbarStyle::Everything, title);
}

/// What the labels of the bar are made of.
pub struct BarWords {
    pub source_path: String,
    pub site_text: String,
    pub profile: Option<String>,
    pub layout: String,
    pub quality: String,
    pub basemap: String,
    pub imagery: String,
    /// Whether a gate was sampled, or two of them measured.
    pub vrot_begun: bool,
    pub product: String,
    pub palette: Option<String>,
    pub filter: String,
    pub tilt: String,
    pub follow: String,
    pub snr: Option<String>,
    pub resolution: Option<String>,
    pub live: bool,
    pub live_status: String,
    pub stall: Option<String>,
    pub warnings: String,
    pub vrot: Option<String>,
    pub active_pane: usize,
}

/// How a box reads: what was typed, or a hint.
pub open spec fn typed_or(typed: Seq<char>, hint: Seq<char>) -> Seq<char> {
    if typed.len() == 0 {
        hint
    } else {
        typed
    }
}

/// One of two words, by style.
pub open spec fn by_style(style: ToolbarStyle, menus: Seq<char>, everything: Seq<char>) -> Seq<
    char,
> {
    match style {
        ToolbarStyle::Menus => menus,
        ToolbarStyle::Everything => everything,
    }
}

/// How a control reads; nothing where it is not drawn.
pub open spec fn label_of(style: ToolbarStyle, control: Control, words: BarWords) -> Option<
    Seq<char>,
> {
    match control {
        Control::Menu(MenuTitle::File) => Some("File"@),
        Control::Menu(MenuTitle::View) => Some("View"@),
        Control::Menu(MenuTitle::Ground) => Some("Map"@),
        Control::Menu(MenuTitle::Tools) => Some("Tools"@),
        Control::Layers => Some("Layers"@),
        Control::PathBox => Some(typed_or(words.source_path@, "Radar volume file path"@)),
        Control::Load => Some(by_style(style, "Load file"@, "Load"@)),
        Control::Browse => Some("Browse\u{2026}"@),
        Control::ExportView => Some("Export current view"@),
        Control::ExportLoop => Some("Export loop\u{2026}"@),
        Control::OnlineData => Some(
            by_style(style, "Download Level I data\u{2026}"@, "Online Level I\u{2026}"@),
        ),
        Control::ProfileLine => text_view(words.profile),
        Control::Profiles => Some("Profiles\u{2026}"@),
        Control::Settings => Some(by_style(style, "Settings\u{2026}"@, "Settings"@)),
        Control::Layout => Some(by_style(style, "Layout"@, words.layout@)),
        Control::Quality => Some(by_style(style, "Display quality"@, words.quality@)),
        Control::CameraLinks => Some("Link cameras"@),
        Control::Basemap => Some(words.basemap@),
        Control::Imagery => Some(words.imagery@),
        Control::Volume3d => Some(by_style(style, "3D volume explorer"@, "3D"@)),
        Control::Section => Some(by_style(style, "Cross-section"@, "XSec"@)),
        Control::Vrot => Some(by_style(style, "Vrot sampling"@, "Vrot"@)),
        Control::ClearVrot => if words.vrot_begun {
            Some("Clear Vrot"@)
        } else {
            None
        },
        Control::ProductPicker => Some(
            by_style(style, words.product@ + " \u{23f7}"@, words.product@),
        ),
        Control::Palette => text_view(words.palette),
        Control::GateFilter => Some(words.filter@),
        Control::TiltDown => Some("\u{2212} Tilt"@),
        Control::TiltReadout => Some(words.tilt@),
        Control::TiltUp => Some("+ Tilt"@),
        Control::AutoTilt => Some(words.follow@),
        Control::SnrReadout => text_view(words.snr),
        Control::ResolutionNotice => text_view(words.resolution),
        Control::SiteBox => Some(typed_or(words.site_text@, "KRTX"@)),
        Control::Live => Some(
            if words.live {
                "Stop live"@
            } else {
                "Start live"@
            },
        ),
        Control::LiveStatus => if words.live_status@.len() == 0 {
            None
        } else {
            Some(words.live_status@)
        },
        Control::StallNotice => text_view(words.stall),
        Control::Warnings => Some(words.warnings@),
        Control::VrotReadout => text_view(words.vrot),
        Control::ActivePane => Some("Pane "@ + decimal((words.active_pane + 1) as nat)),
    }
}

/// What was typed into a box, or a hint.
fn typed_text(typed: &String, hint: &str) -> (text: String)
    ensures
        text@ == typed_or(typed@, hint@),
{
    if is_empty(typed) {
        hint.to_owned()
    } else {
        typed.clone()
    }
}

fn is_empty(text: &String) -> (yes: bool)
    ensures
        yes == (text@.len() == 0),
{
    crate::text::chars_of(text.as_str()).len() == 0
}

fn styled(style: ToolbarStyle, menus: &str, everything: &str) -> (text: String)
    ensures
        text@ == by_style(style, menus@, everything@),
{
    match style {
        ToolbarStyle::Menus => menus.to_owned(),
        ToolbarStyle::Everything => everything.to_owned(),
    }
}

fn copied(text: &Option<String>) -> (copy: Option<String>)
    ensures
        text_view(copy) == text_view(*text),
{
    match text {
        Some(words) => Some(words.clone()),
        None => None,
    }
}

/// How a control reads; nothing where it is not drawn.
pub fn control_label(style: ToolbarStyle, control: Control, words: &BarWords) -> (label: Option<
    String,
>)
    requires
        words.active_pane < usize::MAX,
    ensures
        text_view(label) == label_of(style, control, *words),
{
    match control {
        Control::Menu(MenuTitle::File) => Some("File".to_owned()),
        Control::Menu(MenuTitle::View) => Some("View".to_owned()),
        Control::Menu(MenuTitle::Ground) => Some("Map".to_owned()),
        Control::Menu(MenuTitle::Tools) => Some("Tools".to_owned()),
        Control::Layers => Some("Layers".to_owned()),
        Control::PathBox => Some(typed_text(&words.source_path, "Radar volume file path")),
        Control::Load => Some(styled(style, "Load file", "Load")),
        Control::Browse => Some("Browse\u{2026}".to_owned()),
        Control::ExportView => Some("Export current view".to_owned()),
        Control::ExportLoop => Some("Export loop\u{2026}".to_owned()),
        Control::OnlineData => Some(
            styled(style, "Download Level I data\u{2026}", "Online Level I\u{2026}"),
        ),
        Control::ProfileLine => copied(&words.profile),
        Control::Profiles => Some("Profiles\u{2026}".to_owned()),
        Control::Settings => Some(styled(style, "Settings\u{2026}", "Settings")),
        Control::Layout => Some(styled(style, "Layout", words.layout.as_str())),
        Control::Quality => Some(styled(style, "Display quality", words.quality.as_str())),
        Control::CameraLinks => Some("Link cameras".to_owned()),
        Control::Basemap => Some(words.basemap.clone()),
        Control::Imagery => Some(words.imagery.clone()),
        Control::Volume3d => Some(styled(style, "3D volume explorer", "3D")),
        Control::Section => Some(styled(style, "Cross-section", "XSec")),
        Control::Vrot => Some(styled(style, "Vrot sampling", "Vrot")),
        Control::ClearVrot => if words.vrot_begun {
            Some("Clear Vrot".to_owned())
        } else {
            None
        },
        Control::ProductPicker => {
            let mut pointed = words.product.clone();
            pointed.append(" \u{23f7}");
            Some(styled(style, pointed.as_str(), words.product.as_str()))
        },
        Control::Palette => copied(&words.palette),
        Control::GateFilter => Some(words.filter.clone()),
        Control::TiltDown => Some("\u{2212} Tilt".to_owned()),
        Control::TiltReadout => Some(words.tilt.clone()),
        Control::TiltUp => Some("+ Tilt".to_owned()),
        Control::AutoTilt => Some(words.follow.clone()),
        Control::SnrReadout => copied(&words.snr),
        Control::ResolutionNotice => copied(&words.resolution),
        Control::SiteBox => Some(typed_text(&words.site_text, "KRTX")),
        Control::Live => Some(
            if words.live {
                "Stop live".to_owned()
            } else {
                "Start live".to_owned()
            },
        ),
        Control::LiveStatus => if is_empty(&words.live_status) {
            None
        } else {
            Some(words.live_status.clone())
        },
        Control::StallNotice => copied(&words.stall),
        Control::Warnings => Some(words.warnings.clone()),
        Control::VrotReadout => copied(&words.vrot),
        Control::ActivePane => {
            let mut text = "Pane ".to_owned();
            append_decimal(&mut text, (words.active_pane + 1) as u64);
            Some(text)
        },
    }
}

/// The words of the controls of a row that are drawn.
pub open spec fn drawn_words(row: Seq<Control>, style: ToolbarStyle, words: BarWords) -> Seq<
    Seq<char>,
>
    decreases row.len(),
{
    if row.len() == 0 {
        Seq::empty()
    } else {
        let before = drawn_words(row.drop_last(), style, words);
        match label_of(style, row.last(), words) {
            Some(label) => before.push(label),
            None => before,
        }
    }
}

/// The words on a style's row with every menu closed, from left to right.
pub fn bar_texts(style: ToolbarStyle, words: &BarWords) -> (drawn: Vec<String>)
    requires
        words.active_pane < usize::MAX,
    ensures
        texts(drawn@) == drawn_words(row_of(style), style, *words),
{
    let row = bar_controls(style);
    let mut drawn: Vec<String> = Vec::new();
    assert(texts(drawn@) =~= drawn_words(row@.take(0), style, *words));
    let mut at: usize = 0;
    while at < row.len()
        invariant
            at <= row@.len(),
            words.active_pane < usize::MAX,
            texts(drawn@) == drawn_words(row@.take(at as int), style, *words),
        decreases row@.len() - at,
    {
        let ghost before = texts(drawn@);
        proof {
            let next = row@.take(at + 1);
            assert(next.drop_last() =~= row@.take(at as int));
            assert(next.last() == row@[at as int]);
        }
        match control_label(style, row[at], words) {
            Some(label) => {
                drawn.push(label);
                assert(texts(drawn@) =~= before.push(label@));
            },
            None => {},
        }
        at = at + 1;
    }
    assert(row@.take(row@.len() as int) =~= row@);
    drawn
}

} // verus!
