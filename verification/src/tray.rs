//! What the tray shows: the bar-gauge icon of free RAM, the menu's status
//! line and threshold presets, and the tooltip listing the top processes.

use vstd::prelude::*;
use vstd::string::*;
use crate::config::{is_sane, with_threshold, Config};
use crate::text::{decimal, push_decimal};

verus! {

/// Width and height of the tray icon, in pixels.
pub const ICON_SIZE: usize = 22;

/// Rows of the icon's inner bar: a 2-pixel border on each side.
pub const BAR_ROWS: u64 = 18;

/// An ARGB32 image: `width * height` pixels, row by row from the top, each
/// four bytes `[A, R, G, B]` (network byte order).
#[derive(Debug, Clone)]
pub struct IconImage {
    pub width: i32,
    pub height: i32,
    pub data: Vec<u8>,
}

/// The colour of the gauge: grey while no reading is there yet, red when free
/// RAM is below the threshold (critical), amber from the threshold up to
/// twice the threshold (low), green above twice the threshold (healthy).
pub open spec fn gauge_color(free_mb: u64, total_mb: u64, threshold_mb: u64) -> (u8, u8, u8) {
    if total_mb == 0 || free_mb == 0 {
        (128u8, 128u8, 128u8)
    } else if free_mb < threshold_mb {
        (220u8, 50u8, 50u8)
    } else if free_mb <= 2 * threshold_mb {
        (230u8, 160u8, 0u8)
    } else {
        (60u8, 180u8, 60u8)
    }
}

/// How many of the bar's 18 rows are filled: `18 * free / total` rounded to
/// the nearest integer (halves rounded up), the ratio capped at 1; half the
/// bar when the total is not known.
pub open spec fn fill_rows(free_mb: u64, total_mb: u64) -> nat {
    if total_mb == 0 {
        9
    } else if free_mb >= total_mb {
        18
    } else {
        ((36 * free_mb + total_mb) / (2 * total_mb)) as nat
    }
}

/// Whether pixel `(x, y)` lies on the icon's 2-pixel frame.
pub open spec fn on_frame(x: int, y: int) -> bool {
    x < 2 || x >= 20 || y < 2 || y >= 20
}

/// The `[A, R, G, B]` value of pixel `(x, y)`: the frame is dark grey, the
/// filled part of the bar (its bottom `fill_rows` rows) has the gauge colour,
/// the rest of the bar is a translucent dark background.
pub open spec fn icon_pixel(free_mb: u64, total_mb: u64, threshold_mb: u64, x: int, y: int) -> (u8, u8, u8, u8) {
    let c = gauge_color(free_mb, total_mb, threshold_mb);
    if on_frame(x, y) {
        (255u8, 80u8, 80u8, 80u8)
    } else if y >= 20 - fill_rows(free_mb, total_mb) {
        (255u8, c.0, c.1, c.2)
    } else {
        (180u8, 40u8, 40u8, 40u8)
    }
}

/// Byte `k` (0 to 3) of a pixel value.
pub open spec fn pixel_byte(p: (u8, u8, u8, u8), k: int) -> u8 {
    if k == 0 {
        p.0
    } else if k == 1 {
        p.1
    } else if k == 2 {
        p.2
    } else {
        p.3
    }
}

/// `data` is the 22 x 22 ARGB32 gauge image for these readings.
pub open spec fn is_gauge_image(data: Seq<u8>, free_mb: u64, total_mb: u64, threshold_mb: u64) -> bool {
    &&& data.len() == 22 * 22 * 4
    &&& forall|y: int, x: int, k: int|
        0 <= y < 22 && 0 <= x < 22 && 0 <= k < 4 ==> #[trigger] data[(y * 22 + x) * 4 + k]
            == pixel_byte(icon_pixel(free_mb, total_mb, threshold_mb, x, y), k)
}

/// The gauge colour.
pub fn ram_color(free_mb: u64, total_mb: u64, threshold_mb: u64) -> (c: (u8, u8, u8))
    requires
        total_mb == 0 || free_mb == 0 || free_mb < threshold_mb || 2 * threshold_mb <= u64::MAX,
    ensures
        c == gauge_color(free_mb, total_mb, threshold_mb),
{
    if total_mb == 0 || free_mb == 0 {
        (128, 128, 128)
    } else if free_mb < threshold_mb {
        (220, 50, 50)
    } else if free_mb <= threshold_mb * 2 {
        (230, 160, 0)
    } else {
        (60, 180, 60)
    }
}

/// The number of filled rows of the bar.
pub fn fill_height(free_mb: u64, total_mb: u64) -> (r: u64)
    ensures
        r == fill_rows(free_mb, total_mb),
        r <= BAR_ROWS,
{
    if total_mb == 0 {
        9
    } else if free_mb >= total_mb {
        18
    } else {
        let f = free_mb as u128;
        let t = total_mb as u128;
        assert(36 * f + t < 37 * 0x1_0000_0000_0000_0000) by (nonlinear_arith)
            requires f < t, t < 0x1_0000_0000_0000_0000;
        let q = (36 * f + t) / (2 * t);
        assert(q <= 18) by (nonlinear_arith)
            requires f < t, q == (36 * f + t) / (2 * t), t > 0;
        q as u64
    }
}

/// Pushes the four bytes of a pixel.
fn push_pixel(data: &mut Vec<u8>, p: (u8, u8, u8, u8))
    ensures
        final(data)@ == old(data)@.push(p.0).push(p.1).push(p.2).push(p.3),
{
    data.push(p.0);
    data.push(p.1);
    data.push(p.2);
    data.push(p.3);
}

/// The 22 x 22 bar-gauge icon of free RAM: the bar fills from the bottom in
/// proportion to `free_mb / total_mb`, coloured after the threshold.
pub fn make_ram_icon(free_mb: u64, total_mb: u64, threshold_mb: u64) -> (icons: Vec<IconImage>)
    requires
        total_mb == 0 || free_mb == 0 || free_mb < threshold_mb || 2 * threshold_mb <= u64::MAX,
    ensures
        icons@.len() == 1,
        icons@[0].width == 22,
        icons@[0].height == 22,
        is_gauge_image(icons@[0].data@, free_mb, total_mb, threshold_mb),
{
    let c = ram_color(free_mb, total_mb, threshold_mb);
    let fill = fill_height(free_mb, total_mb);
    let fill_start: u64 = 20 - fill;
    let ghost want = |x: int, y: int| icon_pixel(free_mb, total_mb, threshold_mb, x, y);
    let mut data: Vec<u8> = Vec::new();
    let mut y: u64 = 0;
    while y < 22
        invariant
            y <= 22,
            c == gauge_color(free_mb, total_mb, threshold_mb),
            fill_start == 20 - fill_rows(free_mb, total_mb),
            data@.len() == y * 22 * 4,
            forall|yy: int, xx: int, k: int|
                0 <= yy < y && 0 <= xx < 22 && 0 <= k < 4 ==> #[trigger] data@[(yy * 22 + xx) * 4 + k]
                    == pixel_byte(icon_pixel(free_mb, total_mb, threshold_mb, xx, yy), k),
        decreases 22 - y,
    {
        let mut x: u64 = 0;
        while x < 22
            invariant
                y < 22,
                x <= 22,
                c == gauge_color(free_mb, total_mb, threshold_mb),
                fill_start == 20 - fill_rows(free_mb, total_mb),
                data@.len() == (y * 22 + x) * 4,
                forall|yy: int, xx: int, k: int|
                    0 <= yy < y && 0 <= xx < 22 && 0 <= k < 4 ==> #[trigger] data@[(yy * 22 + xx) * 4 + k]
                        == pixel_byte(icon_pixel(free_mb, total_mb, threshold_mb, xx, yy), k),
                forall|xx: int, k: int|
                    0 <= xx < x && 0 <= k < 4 ==> #[trigger] data@[(y * 22 + xx) * 4 + k]
                        == pixel_byte(icon_pixel(free_mb, total_mb, threshold_mb, xx, y as int), k),
            decreases 22 - x,
        {
            let border = x < 2 || x >= 20 || y < 2 || y >= 20;
            let p: (u8, u8, u8, u8) = if border {
                (255, 80, 80, 80)
            } else if y >= fill_start {
                (255, c.0, c.1, c.2)
            } else {
                (180, 40, 40, 40)
            };
            assert(p == icon_pixel(free_mb, total_mb, threshold_mb, x as int, y as int));
            let ghost before = data@;
            push_pixel(&mut data, p);
            assert forall|yy: int, xx: int, k: int|
                0 <= yy < y && 0 <= xx < 22 && 0 <= k < 4 implies #[trigger] data@[(yy * 22 + xx) * 4 + k]
                    == pixel_byte(icon_pixel(free_mb, total_mb, threshold_mb, xx, yy), k) by {
                assert(data@[(yy * 22 + xx) * 4 + k] == before[(yy * 22 + xx) * 4 + k]);
            }
            assert forall|xx: int, k: int|
                0 <= xx < x + 1 && 0 <= k < 4 implies #[trigger] data@[(y * 22 + xx) * 4 + k]
                    == pixel_byte(icon_pixel(free_mb, total_mb, threshold_mb, xx, y as int), k) by {
                if xx < x {
                    assert(data@[(y * 22 + xx) * 4 + k] == before[(y * 22 + xx) * 4 + k]);
                }
            }
            x = x + 1;
        }
        y = y + 1;
    }
    let mut icons: Vec<IconImage> = Vec::new();
    icons.push(IconImage { width: 22, height: 22, data });
    icons
}


/// The threshold presets of the tray's "Set Threshold" submenu, in MB.
pub open spec fn preset_mb(i: int) -> u64 {
    if i == 0 {
        256
    } else if i == 1 {
        512
    } else if i == 2 {
        1024
    } else if i == 3 {
        2048
    } else {
        4096
    }
}

/// Number of threshold presets.
pub const PRESET_COUNT: usize = 5;

/// Preset `i` of the threshold submenu, in MB.
pub fn threshold_preset(i: usize) -> (r: u64)
    requires
        i < PRESET_COUNT,
    ensures
        r == preset_mb(i as int),
{
    if i == 0 {
        256
    } else if i == 1 {
        512
    } else if i == 2 {
        1024
    } else if i == 3 {
        2048
    } else {
        4096
    }
}

/// An entry of the threshold submenu.
#[derive(Debug, Clone)]
pub struct PresetItem {
    /// The threshold it sets, in MB.
    pub mb: u64,
    /// Its label.
    pub label: String,
    /// Whether it is the threshold in force.
    pub checked: bool,
}

/// The tray menu's variable parts.
#[derive(Debug, Clone)]
pub struct TrayMenu {
    /// The (disabled) status line at the top.
    pub status_label: String,
    /// The label of the "Set Threshold" submenu.
    pub threshold_label: String,
    /// The submenu's presets, smallest first.
    pub presets: Vec<PresetItem>,
}

/// The status line: loading while no reading is there, a warning when free
/// RAM is below the threshold, a check mark otherwise.
pub open spec fn status_text(free_mb: u64, threshold_mb: u64) -> Seq<char> {
    if free_mb == 0 {
        "RAM: loading…"@
    } else if free_mb < threshold_mb {
        "⚠ Free RAM: "@ + decimal(free_mb as nat) + " MB (LOW)"@
    } else {
        "✓ Free RAM: "@ + decimal(free_mb as nat) + " MB"@
    }
}

/// The label of the threshold submenu.
pub open spec fn threshold_menu_text(threshold_mb: u64) -> Seq<char> {
    "Set Threshold ("@ + decimal(threshold_mb as nat) + " MB)…"@
}

/// The label of a preset.
pub open spec fn preset_text(mb: u64) -> Seq<char> {
    decimal(mb as nat) + " MB"@
}

/// The status line of the tray menu.
pub fn status_label(free_mb: u64, threshold_mb: u64) -> (r: String)
    ensures
        r@ == status_text(free_mb, threshold_mb),
{
    let mut s = String::new();
    if free_mb == 0 {
        s.append("RAM: loading…");
    } else if free_mb < threshold_mb {
        s.append("⚠ Free RAM: ");
        push_decimal(&mut s, free_mb);
        s.append(" MB (LOW)");
    } else {
        s.append("✓ Free RAM: ");
        push_decimal(&mut s, free_mb);
        s.append(" MB");
    }
    s
}

/// The variable parts of the tray menu for `free_mb` MB of free RAM and a
/// threshold of `threshold_mb`: the status line, the submenu label, and the
/// five presets with the one equal to the threshold checked.
pub fn tray_menu(free_mb: u64, threshold_mb: u64) -> (m: TrayMenu)
    ensures
        m.status_label@ == status_text(free_mb, threshold_mb),
        m.threshold_label@ == threshold_menu_text(threshold_mb),
        m.presets@.len() == PRESET_COUNT,
        forall|i: int|
            0 <= i < PRESET_COUNT ==> {
                &&& (#[trigger] m.presets@[i]).mb == preset_mb(i)
                &&& m.presets@[i].label@ == preset_text(preset_mb(i))
                &&& m.presets@[i].checked == (threshold_mb == preset_mb(i))
            },
{
    let mut threshold_label = String::new();
    threshold_label.append("Set Threshold (");
    push_decimal(&mut threshold_label, threshold_mb);
    threshold_label.append(" MB)…");
    let mut presets: Vec<PresetItem> = Vec::new();
    let mut i: usize = 0;
    while i < PRESET_COUNT
        invariant
            i <= PRESET_COUNT,
            presets@.len() == i,
            forall|j: int|
                0 <= j < i ==> {
                    &&& (#[trigger] presets@[j]).mb == preset_mb(j)
                    &&& presets@[j].label@ == preset_text(preset_mb(j))
                    &&& presets@[j].checked == (threshold_mb == preset_mb(j))
                },
        decreases PRESET_COUNT - i,
    {
        let mb = threshold_preset(i);
        let mut label = String::new();
        push_decimal(&mut label, mb);
        label.append(" MB");
        presets.push(PresetItem { mb, label, checked: threshold_mb == mb });
        i = i + 1;
    }
    TrayMenu { status_label: status_label(free_mb, threshold_mb), threshold_label, presets }
}

/// Half a mebibyte, in bytes.
pub const HALF_MB: u64 = 524_288;

/// `bytes` in mebibytes rounded to the nearest whole number, halves to the
/// even neighbour (as `{:.0}` renders a float).
pub open spec fn mb_nearest(bytes: u64) -> nat {
    let q = bytes / 1_048_576;
    let r = bytes % 1_048_576;
    if r > HALF_MB {
        (q + 1) as nat
    } else if r < HALF_MB {
        q as nat
    } else if q % 2 == 0 {
        q as nat
    } else {
        (q + 1) as nat
    }
}

/// `bytes` in mebibytes, rounded to the nearest whole number, halves to even.
pub fn mb_rounded(bytes: u64) -> (r: u64)
    ensures
        r == mb_nearest(bytes),
{
    let q = bytes / 1_048_576;
    let rem = bytes % 1_048_576;
    if rem > HALF_MB {
        q + 1
    } else if rem < HALF_MB {
        q
    } else if q % 2 == 0 {
        q
    } else {
        q + 1
    }
}

/// The tooltip's lines for the top processes: for each, in order, a line
/// with its 1-based rank, its name and its memory in MB.
pub open spec fn top_lines(top: Seq<(String, u64)>) -> Seq<char>
    decreases top.len(),
{
    if top.len() == 0 {
        Seq::empty()
    } else {
        let last = top.last();
        top_lines(top.drop_last()) + "\n"@ + decimal(top.len()) + ". "@ + last.0@ + " — "@ + decimal(
            mb_nearest(last.1),
        ) + " MB"@
    }
}

/// The tooltip text: free RAM, the pressure reading (already rendered by the
/// caller, with one decimal) and the top processes.
pub open spec fn tool_tip_text(free_mb: u64, pressure: Seq<char>, top: Seq<(String, u64)>) -> Seq<char> {
    "Free RAM: "@ + decimal(free_mb as nat) + " MB | Pressure: "@ + pressure + "%\n\nTop processes:"@
        + top_lines(top)
}

/// The tooltip's description.
pub fn tool_tip_description(free_mb: u64, pressure: &str, top: &Vec<(String, u64)>) -> (r: String)
    ensures
        r@ == tool_tip_text(free_mb, pressure@, top@),
{
    let mut s = String::new();
    s.append("Free RAM: ");
    push_decimal(&mut s, free_mb);
    s.append(" MB | Pressure: ");
    s.append(pressure);
    s.append("%\n\nTop processes:");
    let ghost head = s@;
    let n = top.len();
    let mut i: usize = 0;
    while i < n
        invariant
            n == top@.len(),
            i <= n,
            s@ == head + top_lines(top@.take(i as int)),
        decreases n - i,
    {
        let entry = &top[i];
        assert(top@.take(i + 1).drop_last() =~= top@.take(i as int));
        assert(top@.take(i + 1).last() == top@[i as int]);
        s.append("\n");
        push_decimal(&mut s, (i + 1) as u64);
        s.append(". ");
        s.append(entry.0.as_str());
        s.append(" — ");
        let mb = mb_rounded(entry.1);
        push_decimal(&mut s, mb);
        s.append(" MB");
        assert(s@ =~= head + top_lines(top@.take(i + 1)));
        i = i + 1;
    }
    assert(top@.take(n as int) =~= top@);
    s
}


/// The gauge's colour bands: red below the threshold, amber from the
/// threshold up to and including twice the threshold, green above twice the
/// threshold (grey only before the first reading).
pub proof fn law_gauge_bands(free_mb: u64, total_mb: u64, threshold_mb: u64)
    requires
        total_mb > 0,
        free_mb > 0,
    ensures
        free_mb < threshold_mb ==> gauge_color(free_mb, total_mb, threshold_mb) == (220u8, 50u8, 50u8),
        threshold_mb <= free_mb <= 2 * threshold_mb ==> gauge_color(free_mb, total_mb, threshold_mb) == (
            230u8,
            160u8,
            0u8,
        ),
        free_mb > 2 * threshold_mb ==> gauge_color(free_mb, total_mb, threshold_mb) == (60u8, 180u8, 60u8),
{
}

/// The bar fills in proportion to free RAM: more free RAM never shows fewer
/// filled rows, no free RAM shows none, all free RAM shows all 18.
pub proof fn law_fill_monotone(f1: u64, f2: u64, total_mb: u64)
    requires
        total_mb > 0,
        f1 <= f2,
    ensures
        fill_rows(f1, total_mb) <= fill_rows(f2, total_mb),
        fill_rows(f2, total_mb) <= 18,
        fill_rows(0, total_mb) == 0,
        fill_rows(total_mb, total_mb) == 18,
{
    let t = total_mb as int;
    if f2 < total_mb {
        let a = 36 * f1 + t;
        let b = 36 * f2 + t;
        assert(a <= b);
        assert(a / (2 * t) <= b / (2 * t)) by (nonlinear_arith)
            requires a <= b, t > 0;
        assert(b / (2 * t) <= 18) by (nonlinear_arith)
            requires b == 36 * f2 + t, f2 < t, t > 0;
    } else if f1 < total_mb {
        let a = 36 * f1 + t;
        assert(a / (2 * t) <= 18) by (nonlinear_arith)
            requires a == 36 * f1 + t, f1 < t, t > 0;
    }
    assert((t / (2 * t)) == 0) by (nonlinear_arith)
        requires t > 0;
}

/// At most one threshold preset is checked, and it is the one equal to the
/// threshold in force.
pub proof fn law_one_preset_checked(threshold_mb: u64, i: int, j: int)
    requires
        0 <= i < PRESET_COUNT,
        0 <= j < PRESET_COUNT,
        threshold_mb == preset_mb(i),
        threshold_mb == preset_mb(j),
    ensures
        i == j,
{
}


/// Choosing a threshold preset from the tray keeps the configuration in the
/// range the settings UI permits, so it never needs a repair on load.
pub proof fn law_presets_are_sane(c: Config, i: int)
    requires
        0 <= i < PRESET_COUNT,
    ensures
        is_sane(with_threshold(c, preset_mb(i))),
{
}

} // verus!
