//! The tray icon: its picture, its title and its menu.

use vstd::prelude::*;
use crate::text::owned;

verus! {

/// Shared state between tray and main app
#[derive(Debug, Clone, Copy, PartialEq, Eq, Structural)]
pub struct TrayState {
    pub is_locked: bool,
    pub quit_requested: bool,
    pub show_requested: bool,
    pub bunker_enabled: bool,
}

impl TrayState {
    pub fn new() -> (state: TrayState)
        ensures
            !state.is_locked,
            !state.quit_requested,
            !state.show_requested,
            !state.bunker_enabled,
    {
        TrayState { is_locked: false, quit_requested: false, show_requested: false, bunker_enabled: false }
    }
}

/// The icon is a square of this many pixels a side.
pub const ICON_SIZE: usize = 22;

/// The colours of the icon.
#[derive(Debug, Clone, Copy, PartialEq, Eq, Structural)]
pub enum Paint {
    Clear,
    Gold,
    DarkGold,
}

/// A colour as four bytes: alpha, red, green, blue.
pub open spec fn argb(paint: Paint) -> Seq<u8> {
    match paint {
        Paint::Clear => seq![0u8, 0u8, 0u8, 0u8],
        Paint::Gold => seq![255u8, 218u8, 165u8, 32u8],
        Paint::DarkGold => seq![255u8, 184u8, 134u8, 11u8],
    }
}

/// The head of the key: a ring around (7, 7), from two pixels out to four
/// and a half.
pub open spec fn in_head(x: int, y: int) -> bool {
    &&& 3 <= x < 12
    &&& 3 <= y < 12
    &&& 4 <= (x - 7) * (x - 7) + (y - 7) * (y - 7) <= 20
}

/// The shaft of the key: two rows from the head to the right.
pub open spec fn in_shaft(x: int, y: int) -> bool {
    10 <= x < 20 && (y == 7 || y == 8)
}

/// The two teeth of the key, pointing down from the shaft.
pub open spec fn in_teeth(x: int, y: int) -> bool {
    ((x == 14 || x == 15) && 8 <= y < 12) || ((x == 17 || x == 18) && 8 <= y < 11)
}

/// The three pixels that give the key some depth.
pub open spec fn is_shaded(x: int, y: int) -> bool {
    (x == 10 && y == 6) || (x == 19 && y == 6) || (x == 19 && y == 9)
}

/// The colour of the pixel at column `x` and row `y`.
pub open spec fn paint_at(x: int, y: int) -> Paint {
    if is_shaded(x, y) {
        Paint::DarkGold
    } else if in_head(x, y) || in_shaft(x, y) || in_teeth(x, y) {
        Paint::Gold
    } else {
        Paint::Clear
    }
}

/// The four bytes of the pixel at column `x` and row `y`.
pub open spec fn pixel_at(pixels: Seq<u8>, x: int, y: int) -> Seq<u8> {
    pixels.subrange((y * 22 + x) * 4, (y * 22 + x) * 4 + 4)
}

/// Whether `pixels` is the picture of the key: row by row, each pixel in
/// its colour.
pub open spec fn is_key_icon(pixels: Seq<u8>) -> bool {
    &&& pixels.len() == 22 * 22 * 4
    &&& forall|x: int, y: int|
        0 <= x < 22 && 0 <= y < 22 ==> #[trigger] pixel_at(pixels, x, y) == argb(paint_at(x, y))
}

fn paint(x: usize, y: usize) -> (p: Paint)
    requires
        x < 22,
        y < 22,
    ensures
        p == paint_at(x as int, y as int),
{
    if (x == 10 && y == 6) || (x == 19 && y == 6) || (x == 19 && y == 9) {
        return Paint::DarkGold;
    }
    let dx: i64 = x as i64 - 7;
    let dy: i64 = y as i64 - 7;
    assert(0 <= dx * dx <= 196 && 0 <= dy * dy <= 196) by (nonlinear_arith)
        requires
            -7 <= dx <= 14,
            -7 <= dy <= 14,
    ;
    let d2 = dx * dx + dy * dy;
    let head = 3 <= x && x < 12 && 3 <= y && y < 12 && 4 <= d2 && d2 <= 20;
    let shaft = 10 <= x && x < 20 && (y == 7 || y == 8);
    let teeth = ((x == 14 || x == 15) && 8 <= y && y < 12) || ((x == 17 || x == 18) && 8 <= y && y < 11);
    if head || shaft || teeth {
        Paint::Gold
    } else {
        Paint::Clear
    }
}

/// Generate a simple key icon as ARGB pixel data: a golden key, 22 pixels
/// by 22.
pub fn generate_key_icon() -> (pixels: Vec<u8>)
    ensures
        is_key_icon(pixels@),
{
    let mut pixels: Vec<u8> = Vec::new();
    let mut k: usize = 0;
    while k < 484
        invariant
            k <= 484,
            pixels@.len() == k * 4,
            forall|j: int| 0 <= j < k ==> #[trigger] pixels@.subrange(j * 4, j * 4 + 4) == argb(paint_at(j % 22, j / 22)),
        decreases 484 - k,
    {
        let x = k % 22;
        let y = k / 22;
        let ghost before = pixels@;
        match paint(x, y) {
            Paint::Clear => {
                pixels.push(0);
                pixels.push(0);
                pixels.push(0);
                pixels.push(0);
            },
            Paint::Gold => {
                pixels.push(255);
                pixels.push(218);
                pixels.push(165);
                pixels.push(32);
            },
            Paint::DarkGold => {
                pixels.push(255);
                pixels.push(184);
                pixels.push(134);
                pixels.push(11);
            },
        }
        assert forall|j: int| 0 <= j < k + 1 implies #[trigger] pixels@.subrange(j * 4, j * 4 + 4) == argb(
            paint_at(j % 22, j / 22),
        ) by {
            if j < k {
                assert(pixels@.subrange(j * 4, j * 4 + 4) =~= before.subrange(j * 4, j * 4 + 4));
            } else {
                assert(pixels@.subrange(j * 4, j * 4 + 4) =~= argb(paint_at(x as int, y as int)));
            }
        }
        k += 1;
    }
    assert forall|x: int, y: int| 0 <= x < 22 && 0 <= y < 22 implies #[trigger] pixel_at(pixels@, x, y) == argb(
        paint_at(x, y),
    ) by {
        let j = y * 22 + x;
        assert(j % 22 == x && j / 22 == y);
        assert(pixels@.subrange(j * 4, j * 4 + 4) == argb(paint_at(j % 22, j / 22)));
    }
    pixels
}

/// What a menu entry does when it is chosen.
#[derive(Debug, Clone, Copy, PartialEq, Eq, Structural)]
pub enum TrayAction {
    ShowWindow,
    Quit,
}

/// One entry of the tray's menu.
#[derive(Debug)]
pub enum MenuEntry {
    /// A line of text that cannot be chosen
    Label(String),
    Separator,
    /// A line that can be chosen, with the name of its icon, empty for none
    Action { label: String, icon_name: String, action: TrayAction },
}

/// System tray icon implementation
pub struct PlebSignerTray {
    pub state: TrayState,
    pub icon_pixels: Vec<u8>,
}

impl PlebSignerTray {
    pub fn new(state: TrayState) -> (tray: PlebSignerTray)
        ensures
            tray.state == state,
            is_key_icon(tray.icon_pixels@),
    {
        PlebSignerTray { state, icon_pixels: generate_key_icon() }
    }

    pub fn id(&self) -> (id: String)
        ensures
            id@ == "pleb-signer"@,
    {
        owned("pleb-signer")
    }

    /// The title says whether the signer is locked.
    pub fn title(&self) -> (title: String)
        ensures
            title@ == if self.state.is_locked {
                "Pleb Signer (Locked)"@
            } else {
                "Pleb Signer"@
            },
    {
        if self.state.is_locked {
            owned("Pleb Signer (Locked)")
        } else {
            owned("Pleb Signer")
        }
    }

    /// The menu: the status of the signer and of the bunker, then the two
    /// things the user can do.
    pub fn menu(&self) -> (entries: Vec<MenuEntry>)
        ensures
            entries@.len() == 6,
            entries@[0] matches MenuEntry::Label(status) && status@ == if self.state.is_locked {
                "Status: 🔒 Locked"@
            } else {
                "Status: 🟢 Ready"@
            },
            entries@[1] matches MenuEntry::Label(bunker) && bunker@ == if self.state.bunker_enabled {
                "Bunker: 🌐 Active"@
            } else {
                "Bunker: ⭘ Off"@
            },
            entries@[2] is Separator,
            entries@[3] matches MenuEntry::Action { label, icon_name, action } && label@ == "Show Window"@
                && icon_name@ == ""@ && action == TrayAction::ShowWindow,
            entries@[4] is Separator,
            entries@[5] matches MenuEntry::Action { label, icon_name, action } && label@ == "Quit"@
                && icon_name@ == "application-exit"@ && action == TrayAction::Quit,
    {
        let mut entries: Vec<MenuEntry> = Vec::new();
        entries.push(
            MenuEntry::Label(
                owned(
                    if self.state.is_locked {
                        "Status: 🔒 Locked"
                    } else {
                        "Status: 🟢 Ready"
                    },
                ),
            ),
        );
        entries.push(
            MenuEntry::Label(
                owned(
                    if self.state.bunker_enabled {
                        "Bunker: 🌐 Active"
                    } else {
                        "Bunker: ⭘ Off"
                    },
                ),
            ),
        );
        entries.push(MenuEntry::Separator);
        entries.push(
            MenuEntry::Action { label: owned("Show Window"), icon_name: owned(""), action: TrayAction::ShowWindow },
        );
        entries.push(MenuEntry::Separator);
        entries.push(
            MenuEntry::Action { label: owned("Quit"), icon_name: owned("application-exit"), action: TrayAction::Quit },
        );
        entries
    }

    /// Records what the user chose from the menu.
    pub fn select(&mut self, action: TrayAction)
        ensures
            final(self).icon_pixels == old(self).icon_pixels,
            final(self).state == match action {
                TrayAction::ShowWindow => (TrayState { show_requested: true, ..old(self).state }),
                TrayAction::Quit => (TrayState { quit_requested: true, ..old(self).state }),
            },
    {
        match action {
            TrayAction::ShowWindow => {
                self.state.show_requested = true;
            },
            TrayAction::Quit => {
                self.state.quit_requested = true;
            },
        }
    }

    /// A click on the icon asks for the window.
    pub fn activate(&mut self, _x: i32, _y: i32)
        ensures
            final(self).icon_pixels == old(self).icon_pixels,
            final(self).state == (TrayState { show_requested: true, ..old(self).state }),
    {
        self.state.show_requested = true;
    }
}

} // verus!
