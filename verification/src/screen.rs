//! Screens: their placement on the virtual desktop and the window class
//! names of the wallpaper windows that cover them.
use vstd::prelude::*;
use vstd::string::StrSliceExecFns;

verus! {

/// Placement of a screen on the virtual desktop.
#[derive(Clone, Copy, Debug, PartialEq, Eq, Structural)]
pub struct ScreenBounds {
    pub x: i32,
    pub y: i32,
    pub width: u32,
    pub height: u32,
}

/// The bounds of a monitor from its rectangle: the top-left corner, and the
/// absolute horizontal and vertical extents. The extents must fit an `i32`.
pub fn bounds_from_rect(left: i32, top: i32, right: i32, bottom: i32) -> (r: ScreenBounds)
    requires
        i32::MIN <= right - left <= i32::MAX,
        i32::MIN <= bottom - top <= i32::MAX,
    ensures
        r.x == left,
        r.y == top,
        r.width as int == if right >= left { right - left } else { left - right },
        r.height as int == if bottom >= top { bottom - top } else { top - bottom },
{
    let w = right - left;
    let h = bottom - top;
    let width: u32 = if w >= 0 { w as u32 } else { (0i64 - w as i64) as u32 };
    let height: u32 = if h >= 0 { h as u32 } else { (0i64 - h as i64) as u32 };
    ScreenBounds { x: left, y: top, width, height }
}

/// The smallest horizontal position among `screens`, or `i32::MAX` for none.
pub open spec fn min_x(screens: Seq<ScreenBounds>) -> int
    decreases screens.len(),
{
    if screens.len() == 0 {
        i32::MAX as int
    } else {
        let rest = min_x(screens.drop_last());
        if screens.last().x < rest {
            screens.last().x as int
        } else {
            rest
        }
    }
}

/// The smallest vertical position among `screens`, or `i32::MAX` for none.
pub open spec fn min_y(screens: Seq<ScreenBounds>) -> int
    decreases screens.len(),
{
    if screens.len() == 0 {
        i32::MAX as int
    } else {
        let rest = min_y(screens.drop_last());
        if screens.last().y < rest {
            screens.last().y as int
        } else {
            rest
        }
    }
}

proof fn lemma_min_x(screens: Seq<ScreenBounds>)
    ensures
        forall|i: int| 0 <= i < screens.len() ==> min_x(screens) <= #[trigger] screens[i].x,
        screens.len() > 0 ==> exists|i: int|
            0 <= i < screens.len() && #[trigger] screens[i].x == min_x(screens),
        i32::MIN <= min_x(screens) <= i32::MAX,
    decreases screens.len(),
{
    if screens.len() > 0 {
        let rest = screens.drop_last();
        lemma_min_x(rest);
        assert forall|i: int| 0 <= i < screens.len() implies min_x(screens) <= #[trigger] screens[i].x by {
            if i < rest.len() {
                assert(screens[i] == rest[i]);
            }
        }
        if screens.last().x >= min_x(rest) && rest.len() > 0 {
            let i = choose|i: int| 0 <= i < rest.len() && #[trigger] rest[i].x == min_x(rest);
            assert(screens[i] == rest[i]);
        } else {
            assert(screens[screens.len() - 1].x == min_x(screens));
        }
    }
}

proof fn lemma_min_y(screens: Seq<ScreenBounds>)
    ensures
        forall|i: int| 0 <= i < screens.len() ==> min_y(screens) <= #[trigger] screens[i].y,
        screens.len() > 0 ==> exists|i: int|
            0 <= i < screens.len() && #[trigger] screens[i].y == min_y(screens),
        i32::MIN <= min_y(screens) <= i32::MAX,
    decreases screens.len(),
{
    if screens.len() > 0 {
        let rest = screens.drop_last();
        lemma_min_y(rest);
        assert forall|i: int| 0 <= i < screens.len() implies min_y(screens) <= #[trigger] screens[i].y by {
            if i < rest.len() {
                assert(screens[i] == rest[i]);
            }
        }
        if screens.last().y >= min_y(rest) && rest.len() > 0 {
            let i = choose|i: int| 0 <= i < rest.len() && #[trigger] rest[i].y == min_y(rest);
            assert(screens[i] == rest[i]);
        } else {
            assert(screens[screens.len() - 1].y == min_y(screens));
        }
    }
}

/// The screens can be moved so that the top-left-most corner lands at the
/// origin without leaving the range of `i32`.
pub open spec fn origins_can_shift(screens: Seq<ScreenBounds>) -> bool {
    forall|i: int|
        0 <= i < screens.len() ==> #[trigger] screens[i].x - min_x(screens) <= i32::MAX
            && screens[i].y - min_y(screens) <= i32::MAX
}

/// Moves the virtual desktop so that its left-most screen edge is at x = 0
/// and its top-most screen edge at y = 0; sizes are unchanged.
pub fn normalize_origins(screens: &mut Vec<ScreenBounds>)
    requires
        origins_can_shift(old(screens)@),
    ensures
        final(screens)@.len() == old(screens)@.len(),
        forall|i: int|
            #![trigger final(screens)@[i]]
            0 <= i < final(screens)@.len() ==> {
                &&& final(screens)@[i].x == old(screens)@[i].x - min_x(old(screens)@)
                &&& final(screens)@[i].y == old(screens)@[i].y - min_y(old(screens)@)
                &&& final(screens)@[i].width == old(screens)@[i].width
                &&& final(screens)@[i].height == old(screens)@[i].height
            },
{
    let ghost before = screens@;
    let mut min_left: i32 = i32::MAX;
    let mut min_top: i32 = i32::MAX;
    let mut i: usize = 0;
    while i < screens.len()
        invariant
            screens@ == before,
            i <= before.len(),
            min_left as int == min_x(before.subrange(0, i as int)),
            min_top as int == min_y(before.subrange(0, i as int)),
        decreases before.len() - i,
    {
        assert(before.subrange(0, i + 1).drop_last() =~= before.subrange(0, i as int));
        if screens[i].x < min_left {
            min_left = screens[i].x;
        }
        if screens[i].y < min_top {
            min_top = screens[i].y;
        }
        i += 1;
    }
    assert(before.subrange(0, before.len() as int) =~= before);
    proof {
        lemma_min_x(before);
        lemma_min_y(before);
    }
    if screens.len() > 0 {
        let mut j: usize = 0;
        while j < screens.len()
            invariant
                screens@.len() == before.len(),
                origins_can_shift(before),
                min_left as int == min_x(before),
                min_top as int == min_y(before),
                forall|k: int| 0 <= k < before.len() ==> min_x(before) <= #[trigger] before[k].x,
                forall|k: int| 0 <= k < before.len() ==> min_y(before) <= #[trigger] before[k].y,
                forall|k: int|
                    #![trigger screens@[k]]
                    0 <= k < j ==> {
                        &&& screens@[k].x == before[k].x - min_x(before)
                        &&& screens@[k].y == before[k].y - min_y(before)
                        &&& screens@[k].width == before[k].width
                        &&& screens@[k].height == before[k].height
                    },
                forall|k: int| j <= k < before.len() ==> #[trigger] screens@[k] == before[k],
            decreases before.len() - j,
        {
            let old_bounds = screens[j];
            assert(old_bounds == before[j as int]);
            let moved = ScreenBounds {
                x: old_bounds.x - min_left,
                y: old_bounds.y - min_top,
                width: old_bounds.width,
                height: old_bounds.height,
            };
            screens.set(j, moved);
            j += 1;
        }
    }
}

/// Law: after normalization every screen lies right of x = 0 and below
/// y = 0, and some screen touches each of these lines.
pub proof fn lemma_normalized_origin(before: Seq<ScreenBounds>, after: Seq<ScreenBounds>)
    requires
        before.len() > 0,
        after.len() == before.len(),
        forall|i: int|
            #![trigger after[i]]
            0 <= i < after.len() ==> {
                &&& after[i].x == before[i].x - min_x(before)
                &&& after[i].y == before[i].y - min_y(before)
            },
    ensures
        forall|i: int| #![trigger after[i]] 0 <= i < after.len() ==> after[i].x >= 0 && after[i].y >= 0,
        exists|i: int| 0 <= i < after.len() && #[trigger] after[i].x == 0,
        exists|i: int| 0 <= i < after.len() && #[trigger] after[i].y == 0,
{
    lemma_min_x(before);
    lemma_min_y(before);
    let ix = choose|i: int| 0 <= i < before.len() && #[trigger] before[i].x == min_x(before);
    assert(after[ix].x == 0);
    let iy = choose|i: int| 0 <= i < before.len() && #[trigger] before[i].y == min_y(before);
    assert(after[iy].x == before[iy].x - min_x(before));
    assert(after[iy].y == 0);
}

// ---------------------------------------------------------------------------
// Wallpaper window class names
// ---------------------------------------------------------------------------

/// The UTF-16 code units of one character.
pub open spec fn utf16_of_char(c: char) -> Seq<u16> {
    let v = c as u32;
    if v < 0x10000 {
        seq![v as u16]
    } else {
        let u = (v - 0x10000) as int;
        seq![(0xD800 + u / 0x400) as u16, (0xDC00 + u % 0x400) as u16]
    }
}

/// The UTF-16 encoding of a text.
pub open spec fn utf16_of(s: Seq<char>) -> Seq<u16>
    decreases s.len(),
{
    if s.len() == 0 {
        Seq::empty()
    } else {
        utf16_of(s.drop_last()) + utf16_of_char(s.last())
    }
}

/// Encodes a text as UTF-16 code units.
fn encode_utf16(s: &str) -> (r: Vec<u16>)
    ensures
        r@ == utf16_of(s@),
{
    let n = s.unicode_len();
    let mut r: Vec<u16> = Vec::new();
    let mut i: usize = 0;
    while i < n
        invariant
            n == s@.len(),
            i <= n,
            r@ == utf16_of(s@.subrange(0, i as int)),
        decreases n - i,
    {
        let c = s.get_char(i);
        let v = c as u32;
        if v < 0x10000 {
            r.push(v as u16);
        } else {
            let u = v - 0x10000;
            r.push((0xD800 + u / 0x400) as u16);
            r.push((0xDC00 + u % 0x400) as u16);
        }
        assert(s@.subrange(0, i + 1).drop_last() =~= s@.subrange(0, i as int));
        assert(r@ =~= utf16_of(s@.subrange(0, i as int)) + utf16_of_char(c));
        i += 1;
    }
    assert(s@.subrange(0, n as int) =~= s@);
    r
}

/// Length of the window class name buffer, terminating NUL included.
pub const CLASSNAME_LEN: usize = 96;

/// The class name of the wallpaper window of the screen named `screen_name`:
/// `TechNoirTarget ` followed by the screen name, as UTF-16, cut to the 95
/// first code units, then zero-filled (so NUL-terminated).
pub open spec fn classname_units(screen_name: Seq<char>) -> Seq<u16> {
    let units = utf16_of("TechNoirTarget "@) + utf16_of(screen_name);
    let kept = if units.len() < 95 { units.len() as int } else { 95 };
    units.subrange(0, kept) + Seq::new((96 - kept) as nat, |k: int| 0u16)
}

/// Builds the NUL-terminated UTF-16 window class name for a screen's
/// wallpaper window.
pub fn build_classname(screen_name: &str) -> (r: [u16; 96])
    ensures
        r@ == classname_units(screen_name@),
{
    let base = encode_utf16("TechNoirTarget ");
    let name = encode_utf16(screen_name);
    let ghost units = base@ + name@;
    let mut buf = [0u16; 96];
    let mut i: usize = 0;
    let mut b: usize = 0;
    while b < base.len() && i < 95
        invariant
            units == base@ + name@,
            buf@.len() == 96,
            i == b,
            b <= base@.len(),
            i <= 95,
            forall|k: int| 0 <= k < i ==> #[trigger] buf@[k] == units[k],
            forall|k: int| i <= k < 96 ==> #[trigger] buf@[k] == 0u16,
        decreases base@.len() - b,
    {
        buf[i] = base[b];
        i += 1;
        b += 1;
    }
    let mut n: usize = 0;
    while n < name.len() && i < 95
        invariant
            units == base@ + name@,
            buf@.len() == 96,
            i <= 95,
            n <= name@.len(),
            (i < 95 ==> b == base@.len()),
            b <= base@.len(),
            i == b + n,
            forall|k: int| 0 <= k < i ==> #[trigger] buf@[k] == units[k],
            forall|k: int| i <= k < 96 ==> #[trigger] buf@[k] == 0u16,
        decreases name@.len() - n,
    {
        buf[i] = name[n];
        i += 1;
        n += 1;
    }
    buf[i] = 0;
    proof {
        let kept = if units.len() < 95 { units.len() as int } else { 95 };
        assert(i == kept);
        assert(buf@ =~= units.subrange(0, kept) + Seq::new((96 - kept) as nat, |k: int| 0u16));
    }
    buf
}

/// Law: a wallpaper window class name is always NUL-terminated inside its
/// buffer, and starts with the engine's class-name prefix.
pub proof fn lemma_classname_terminated(screen_name: Seq<char>)
    ensures
        classname_units(screen_name).len() == 96,
        classname_units(screen_name)[95] == 0u16,
        ({
            let base = utf16_of("TechNoirTarget "@);
            base.len() <= 95 ==> classname_units(screen_name).subrange(0, base.len() as int)
                == base
        }),
{
    let units = utf16_of("TechNoirTarget "@) + utf16_of(screen_name);
    let kept = if units.len() < 95 { units.len() as int } else { 95 };
    let r = classname_units(screen_name);
    assert(r[95] == Seq::new((96 - kept) as nat, |k: int| 0u16)[95 - kept]);
    let base = utf16_of("TechNoirTarget "@);
    if base.len() <= 95 {
        assert(r.subrange(0, base.len() as int) =~= base);
    }
}

/// The UTF-16 decoding of `units` with each unpaired surrogate replaced by
/// U+FFFD: a unit outside the surrogate range is the character of the same
/// value, a high surrogate followed by a low one combine into one
/// character, and any other surrogate becomes U+FFFD.
pub open spec fn utf16_lossy_text(units: Seq<u16>) -> Seq<char>
    decreases units.len(),
{
    if units.len() == 0 {
        Seq::empty()
    } else {
        let u = units[0];
        if u < 0xD800 || u >= 0xE000 {
            seq![u as char] + utf16_lossy_text(units.drop_first())
        } else if u < 0xDC00 && units.len() > 1 && 0xDC00 <= units[1] < 0xE000 {
            let code = 0x10000 + (u - 0xD800) * 0x400 + (units[1] - 0xDC00);
            seq![code as char] + utf16_lossy_text(units.subrange(2, units.len() as int))
        } else {
            seq!['\u{FFFD}'] + utf16_lossy_text(units.drop_first())
        }
    }
}

/// Decodes UTF-16 text, replacing unpaired surrogates with U+FFFD
/// (`String::from_utf16_lossy`).
#[verifier::external_body]
fn decode_utf16_lossy(units: &[u16]) -> (r: String)
    ensures
        r@ == utf16_lossy_text(units@),
{
    String::from_utf16_lossy(units)
}

/// `s` without its leading NUL characters.
pub open spec fn trim_leading_nul(s: Seq<char>) -> Seq<char>
    decreases s.len(),
{
    if s.len() > 0 && s[0] == '\0' {
        trim_leading_nul(s.drop_first())
    } else {
        s
    }
}

/// `s` without its trailing NUL characters.
pub open spec fn trim_trailing_nul(s: Seq<char>) -> Seq<char>
    decreases s.len(),
{
    if s.len() > 0 && s.last() == '\0' {
        trim_trailing_nul(s.drop_last())
    } else {
        s
    }
}

/// `s` without the NUL characters at either end (as `trim_matches('\0')`).
pub open spec fn trim_nul(s: Seq<char>) -> Seq<char> {
    trim_trailing_nul(trim_leading_nul(s))
}

/// The display name held in a fixed-size, NUL-padded UTF-16 buffer of the
/// display configuration: the buffer decoded (unpaired surrogates replaced),
/// without the NULs at either end.
pub fn display_device_name(units: &[u16]) -> (r: String)
    ensures
        r@ == trim_nul(utf16_lossy_text(units@)),
{
    let text = decode_utf16_lossy(units);
    let ghost s = text@;
    let n = text.as_str().unicode_len();
    let mut i: usize = 0;
    assert(s.subrange(0, n as int) =~= s);
    while i < n && text.as_str().get_char(i) == '\0'
        invariant
            s == text@,
            n == s.len(),
            i <= n,
            trim_leading_nul(s) == trim_leading_nul(s.subrange(i as int, n as int)),
        decreases n - i,
    {
        assert(s.subrange(i as int, n as int).drop_first() =~= s.subrange(i + 1, n as int));
        i += 1;
    }
    let ghost front = s.subrange(i as int, n as int);
    assert(trim_leading_nul(s) == front) by {
        if i == n {
            assert(front.len() == 0);
        } else {
            assert(front[0] == s[i as int]);
        }
    }
    let mut j: usize = n;
    while j > i && text.as_str().get_char(j - 1) == '\0'
        invariant
            s == text@,
            n == s.len(),
            i <= j <= n,
            front == s.subrange(i as int, n as int),
            trim_trailing_nul(front) == trim_trailing_nul(s.subrange(i as int, j as int)),
        decreases j - i,
    {
        assert(s.subrange(i as int, j as int).drop_last() =~= s.subrange(i as int, j - 1));
        j -= 1;
    }
    let kept = text.as_str().substring_char(i, j);
    assert(trim_trailing_nul(s.subrange(i as int, j as int)) == s.subrange(i as int, j as int)) by {
        if j > i {
            assert(s.subrange(i as int, j as int).last() == s[j - 1]);
        }
    }
    kept.to_owned()
}

/// The name shown for a screen: the monitor's friendly name when the
/// display configuration has one, else the adapter's description, else the
/// GDI device name.
pub fn screen_name(friendly: Option<String>, adapter: Option<String>, device: String) -> (r: String)
    ensures
        r == match friendly {
            Some(name) => name,
            None => match adapter {
                Some(name) => name,
                None => device,
            },
        },
{
    match friendly {
        Some(name) => name,
        None => match adapter {
            Some(name) => name,
            None => device,
        },
    }
}

/// Whether two 32-unit device names are the same.
pub fn device_names_match(a: &[u16; 32], b: &[u16; 32]) -> (r: bool)
    ensures
        r == (a@ == b@),
{
    let mut i: usize = 0;
    while i < 32
        invariant
            i <= 32,
            a@.len() == 32,
            b@.len() == 32,
            forall|k: int| 0 <= k < i ==> #[trigger] a@[k] == b@[k],
        decreases 32 - i,
    {
        if a[i] != b[i] {
            return false;
        }
        i += 1;
    }
    assert(a@ =~= b@);
    true
}

} // verus!
