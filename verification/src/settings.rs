//! The logic of the settings window: DPI scaling, field geometry, change tracking,
//! the staging of edited API profiles and the collection of the form into a configuration.
use crate::config::{
    copy_profiles, find_profile, find_profile_index, names_match, profile_error, profiles_view, ApiProfile,
    Config, ConfigError, ProfileView,
};
use crate::text::{chars_of, push_str, trim, trim_str, truncate_chars, truncated};
use vstd::prelude::*;

verus! {

pub const ID_NAV_SERVICE: u16 = 2101;
pub const ID_NAV_PROMPT: u16 = 2102;
pub const ID_NAV_BEHAVIOR: u16 = 2103;
pub const ID_API_KEY: u16 = 2201;
pub const ID_SHOW_KEY: u16 = 2202;
pub const ID_BASE_URL: u16 = 2203;
pub const ID_MODEL: u16 = 2204;
pub const ID_TEMPERATURE: u16 = 2205;
pub const ID_MAX_TOKENS: u16 = 2206;
pub const ID_SYSTEM_PROMPT: u16 = 2207;
pub const ID_HOTKEY: u16 = 2209;
pub const ID_PLAY_SOUND: u16 = 2210;
pub const ID_AUTO_START: u16 = 2211;
pub const ID_API_PROFILE: u16 = 2212;
pub const ID_PROFILE_NAME: u16 = 2213;
pub const ID_RESET: u16 = 2301;
pub const ID_SAVE: u16 = 2302;
pub const ID_PROFILE_NEW: u16 = 2303;
pub const ID_PROFILE_DELETE: u16 = 2304;
pub const ID_TEST_API: u16 = 2305;
pub const ID_ERROR_DETAILS: u16 = 2306;

/// The edit-control notification sent when the text changed (Win32 `EN_CHANGE`).
pub const EN_CHANGE: u32 = 0x0300;

/// The edit-control notification sent when the control gains focus (Win32 `EN_SETFOCUS`).
pub const EN_SETFOCUS: u32 = 0x0100;

/// Division that rounds toward zero, as integer division does in Rust.
pub open spec fn div_toward_zero(a: int, b: int) -> int {
    if a >= 0 {
        a / b
    } else {
        -((-a) / b)
    }
}

/// A length at 96 DPI scaled to `dpi`, rounded to nearest (as `i64`), cast to `i32`.
pub open spec fn scaled(value: i32, dpi: u32) -> int {
    div_toward_zero(value * dpi + 48, 96)
}

/// Scales a length given for 96 DPI to `dpi`.
pub fn scale(value: i32, dpi: u32) -> (res: i32)
    ensures
        res == scaled(value, dpi) as i32,
{
    assert(-0x8000_0000 * 0xFFFF_FFFF <= value * dpi <= 0x7FFF_FFFF * 0xFFFF_FFFF) by (nonlinear_arith)
        requires
            -0x8000_0000 <= value <= 0x7FFF_FFFF,
            0 <= dpi <= 0xFFFF_FFFF,
    ;
    let product: i64 = value as i64 * dpi as i64;
    let shifted: i64 = product + 48;
    let quotient: i64 = if shifted >= 0 {
        shifted / 96
    } else {
        -((-shifted) / 96)
    };
    quotient as i32
}

/// At the baseline of 96 DPI every non-negative length is unchanged.
pub proof fn lemma_scale_baseline(value: i32)
    requires
        value >= 0,
    ensures
        scaled(value, 96) == value,
{
    assert((value * 96 + 48) / 96 == value) by (nonlinear_arith)
        requires
            value >= 0,
    ;
}

/// Scaling never decreases a non-negative length at or above 96 DPI.
pub proof fn lemma_scale_grows(value: i32, dpi: u32)
    requires
        value >= 0,
        dpi >= 96,
    ensures
        scaled(value, dpi) >= value,
{
    assert((value * dpi + 48) / 96 >= value) by (nonlinear_arith)
        requires
            value >= 0,
            dpi >= 96,
    ;
}

/// `[x, y, width, height]` shrunk by `horizontal` on the left and right and by
/// `vertical` at the top and bottom, at least one pixel wide and high.
pub open spec fn inset(b: [i32; 4], horizontal: i32, vertical: i32) -> Seq<int> {
    seq![
        b[0] + horizontal,
        b[1] + vertical,
        if b[2] - horizontal * 2 >= 1 { b[2] - horizontal * 2 } else { 1 },
        if b[3] - vertical * 2 >= 1 { b[3] - vertical * 2 } else { 1 },
    ]
}

/// Whether insetting `b` stays within `i32` arithmetic.
pub open spec fn inset_fits(b: [i32; 4], horizontal: i32, vertical: i32) -> bool {
    &&& i32::MIN <= b[0] + horizontal <= i32::MAX
    &&& i32::MIN <= b[1] + vertical <= i32::MAX
    &&& i32::MIN <= horizontal * 2 <= i32::MAX
    &&& i32::MIN <= vertical * 2 <= i32::MAX
    &&& i32::MIN <= b[2] - horizontal * 2 <= i32::MAX
    &&& i32::MIN <= b[3] - vertical * 2 <= i32::MAX
}

/// Insets the bounds `[x, y, width, height]`.
pub fn inset_bounds(bounds: [i32; 4], horizontal: i32, vertical: i32) -> (res: [i32; 4])
    requires
        inset_fits(bounds, horizontal, vertical),
    ensures
        forall|i: int| 0 <= i < 4 ==> res[i] == #[trigger] inset(bounds, horizontal, vertical)[i],
{
    let x = bounds[0];
    let y = bounds[1];
    let width = bounds[2];
    let height = bounds[3];
    let w = width - horizontal * 2;
    let h = height - vertical * 2;
    let res = [x + horizontal, y + vertical, if w >= 1 {
        w
    } else {
        1
    }, if h >= 1 {
        h
    } else {
        1
    }];
    assert(res[0] == x + horizontal);
    assert(res[1] == y + vertical);
    res
}

/// Whether the content area of a field at `b` is computable at `dpi`.
pub open spec fn field_fits(b: [i32; 4], dpi: u32) -> bool {
    inset_fits(b, scaled(12, dpi) as i32, scaled(10, dpi) as i32)
}

/// The content area of a single-line field: 12 and 10 pixels (at 96 DPI) inside its border.
pub fn field_content(bounds: [i32; 4], dpi: u32) -> (res: [i32; 4])
    requires
        field_fits(bounds, dpi),
    ensures
        forall|i: int|
            0 <= i < 4 ==> res[i] == #[trigger] inset(
                bounds,
                scaled(12, dpi) as i32,
                scaled(10, dpi) as i32,
            )[i],
{
    inset_bounds(bounds, scale(12, dpi), scale(10, dpi))
}

/// The content area of a multi-line field: the same inset as a single-line field.
pub fn multiline_field_content(bounds: [i32; 4], dpi: u32) -> (res: [i32; 4])
    requires
        field_fits(bounds, dpi),
    ensures
        forall|i: int|
            0 <= i < 4 ==> res[i] == #[trigger] inset(
                bounds,
                scaled(12, dpi) as i32,
                scaled(10, dpi) as i32,
            )[i],
{
    inset_bounds(bounds, scale(12, dpi), scale(10, dpi))
}

/// An inset that leaves room keeps equal margins on both sides: the content never
/// touches the outer border on one side more than on the other.
pub proof fn lemma_inset_is_symmetric(b: [i32; 4], horizontal: i32, vertical: i32)
    requires
        inset_fits(b, horizontal, vertical),
        b[2] - horizontal * 2 >= 1,
        b[3] - vertical * 2 >= 1,
    ensures
        inset(b, horizontal, vertical)[0] - b[0] == b[2] - (inset(b, horizontal, vertical)[0]
            - b[0]) - inset(b, horizontal, vertical)[2],
        inset(b, horizontal, vertical)[1] - b[1] == b[3] - (inset(b, horizontal, vertical)[1]
            - b[1]) - inset(b, horizontal, vertical)[3],
{
}

/// A field's content lies strictly inside its border whenever the frame has room for
/// the margins, at every DPI Windows reports (96 or more).
pub proof fn lemma_field_content_stays_inside(b: [i32; 4], dpi: u32)
    requires
        96 <= dpi <= 0x10_0000,
        field_fits(b, dpi),
        b[2] - 2 * scaled(12, dpi) >= 1,
        b[3] - 2 * scaled(10, dpi) >= 1,
    ensures
        ({
            let r = inset(b, scaled(12, dpi) as i32, scaled(10, dpi) as i32);
            &&& b[0] < r[0] && r[0] + r[2] < b[0] + b[2]
            &&& b[1] < r[1] && r[1] + r[3] < b[1] + b[3]
        }),
{
    lemma_scale_grows(12, dpi);
    lemma_scale_grows(10, dpi);
    lemma_scaled_bounds(12, dpi);
    lemma_scaled_bounds(10, dpi);
}

/// A status text shortened to `max_chars` characters, with `…` when cut.
pub fn concise_status(value: &str, max_chars: usize) -> (res: String)
    ensures
        res@ == truncated(value@, max_chars as nat),
{
    truncate_chars(value, max_chars)
}

/// The height of the settings header.
pub fn settings_header_height(dpi: u32) -> (res: i32)
    ensures
        res == scaled(124, dpi) as i32,
{
    scale(124, dpi)
}

/// The title's top and bottom and the subtitle's top and bottom in the header.
pub fn header_vertical_metrics(dpi: u32) -> (res: [i32; 4])
    ensures
        res[0] == scaled(24, dpi) as i32,
        res[1] == scaled(60, dpi) as i32,
        res[2] == scaled(70, dpi) as i32,
        res[3] == scaled(96, dpi) as i32,
{
    [scale(24, dpi), scale(60, dpi), scale(70, dpi), scale(96, dpi)]
}

/// At any DPI Windows reports (96 or more) the title ends before the subtitle starts,
/// and each has a positive height.
pub proof fn lemma_header_rows_are_ordered(dpi: u32)
    requires
        dpi >= 96,
    ensures
        scaled(24, dpi) < scaled(60, dpi) < scaled(70, dpi) < scaled(96, dpi),
{
    assert(forall|a: int, b: int| #![trigger a / 96, b / 96] 0 <= a && a + 96 <= b ==> a / 96 < b / 96)
        by (nonlinear_arith);
    assert(24 * dpi + 48 + 96 <= 60 * dpi + 48);
    assert(60 * dpi + 48 + 96 <= 70 * dpi + 48);
    assert(70 * dpi + 48 + 96 <= 96 * dpi + 48);
}

/// Whether a control id is one of the form's edit fields.
pub open spec fn is_edit(id: u16) -> bool {
    id == ID_API_KEY || id == ID_PROFILE_NAME || id == ID_BASE_URL || id == ID_MODEL || id
        == ID_TEMPERATURE || id == ID_MAX_TOKENS || id == ID_SYSTEM_PROMPT || id == ID_HOTKEY
}

/// Whether a control id is one of the form's edit fields.
pub fn is_edit_id(id: u16) -> (res: bool)
    ensures
        res == is_edit(id),
{
    id == ID_API_KEY || id == ID_PROFILE_NAME || id == ID_BASE_URL || id == ID_MODEL || id
        == ID_TEMPERATURE || id == ID_MAX_TOKENS || id == ID_SYSTEM_PROMPT || id == ID_HOTKEY
}

/// Whether a notification marks the form as changed: a text change of an edit field
/// that the program is not filling in itself.
pub fn should_mark_dirty(suppress_events: bool, notification: u32, id: u16) -> (res: bool)
    ensures
        res == (!suppress_events && notification == EN_CHANGE && is_edit(id)),
{
    !suppress_events && notification == EN_CHANGE && is_edit_id(id)
}

} // verus!

verus! {

/// The model of an optional string slice.
pub open spec fn opt_str_view(s: Option<&str>) -> Option<Seq<char>> {
    match s {
        Some(v) => Some(v@),
        None => None,
    }
}

/// The profiles after staging `p`, which was edited from the profile named
/// `original` (none for a new profile): an error when another profile already has
/// its name; else it replaces the original, or is appended when there is none.
pub open spec fn staged(ps: Seq<ProfileView>, original: Option<Seq<char>>, p: ProfileView) -> Result<
    Seq<ProfileView>,
    Seq<char>,
> {
    let oi = match original {
        Some(n) => find_profile(ps, n),
        None => None,
    };
    let di = find_profile(ps, p.name);
    if di is Some && di != oi {
        Err("配置名称已存在："@ + trim(p.name))
    } else {
        match oi {
            Some(i) => Ok(ps.update(i, p)),
            None => Ok(ps.push(p)),
        }
    }
}

/// Stages an edited profile into `profiles`.
pub fn stage_profile(profiles: &mut Vec<ApiProfile>, original_name: Option<&str>, profile: ApiProfile) -> (res:
    Result<(), String>)
    ensures
        match staged(profiles_view(old(profiles)@), opt_str_view(original_name), profile@) {
            Ok(ps) => res is Ok && profiles_view(final(profiles)@) == ps,
            Err(m) => res matches Err(e) && e@ == m && final(profiles)@ == old(profiles)@,
        },
{
    let ghost ps = profiles_view(profiles@);
    let original_index = match original_name {
        Some(name) => find_profile_index(profiles, name),
        None => None,
    };
    let duplicate_index = find_profile_index(profiles, profile.name.as_str());
    let conflict = match duplicate_index {
        Some(d) => match original_index {
            Some(o) => d != o,
            None => true,
        },
        None => false,
    };
    if conflict {
        let mut message = "配置名称已存在：".to_owned();
        let name = trim_str(profile.name.as_str());
        push_str(&mut message, name.as_str());
        return Err(message);
    }
    match original_index {
        Some(index) => {
            profiles.set(index, profile);
            assert(profiles_view(profiles@) =~= ps.update(index as int, profile@));
        },
        None => {
            profiles.push(profile);
            assert(profiles_view(profiles@) =~= ps.push(profile@));
        },
    }
    Ok(())
}

/// No two profiles denote the same name.
pub open spec fn names_unique(ps: Seq<ProfileView>) -> bool {
    forall|i: int, j: int|
        0 <= i < ps.len() && 0 <= j < ps.len() && i != j ==> !names_match(
            #[trigger] ps[i].name,
            #[trigger] ps[j].name,
        )
}

/// Staging an edited profile replaces the profile it was loaded from (the first whose
/// name matches the original name) in place and leaves the others alone; a profile with
/// no original is appended; and a name that another profile already has is refused.
pub proof fn lemma_staging_replaces_or_appends(ps: Seq<ProfileView>, original: Option<Seq<char>>, p: ProfileView, i: int)
    ensures
        (original matches Some(n) && crate::config::is_first_match(ps, n, i) && (forall|j: int|
            0 <= j < ps.len() && j != i ==> !names_match(#[trigger] ps[j].name, p.name)))
            ==> staged(ps, original, p) == Ok::<Seq<ProfileView>, Seq<char>>(ps.update(i, p)),
        (original is None && (forall|j: int| 0 <= j < ps.len() ==> !names_match(#[trigger] ps[j].name, p.name)))
            ==> staged(ps, original, p) == Ok::<Seq<ProfileView>, Seq<char>>(ps.push(p)),
        (0 <= i < ps.len() && names_match(ps[i].name, p.name) && !(original matches Some(n)
            && crate::config::is_first_match(ps, n, i))) && (forall|j: int|
            0 <= j < i ==> !names_match(#[trigger] ps[j].name, p.name)) ==> staged(ps, original, p)
            == Err::<Seq<ProfileView>, Seq<char>>("配置名称已存在："@ + trim(p.name)),
{
    if let Some(n) = original {
        if crate::config::is_first_match(ps, n, i) {
            crate::config::lemma_first_match_unique(ps, n, i);
        }
    }
    if 0 <= i < ps.len() && names_match(ps[i].name, p.name) && (forall|j: int|
        0 <= j < i ==> !names_match(#[trigger] ps[j].name, p.name)) {
        assert(crate::config::is_first_match(ps, p.name, i));
        crate::config::lemma_first_match_unique(ps, p.name, i);
        if let Some(n) = original {
            if let Some(k) = find_profile(ps, n) {
                crate::config::lemma_find_profile_is_first(ps, n);
            }
        }
    }
    if original is None && (forall|j: int| 0 <= j < ps.len() ==> !names_match(#[trigger] ps[j].name, p.name)) {
        crate::config::lemma_no_match(ps, p.name);
    }
    if original matches Some(n) && crate::config::is_first_match(ps, n, i) && (forall|j: int|
        0 <= j < ps.len() && j != i ==> !names_match(#[trigger] ps[j].name, p.name)) {
        if let Some(d) = find_profile(ps, p.name) {
            crate::config::lemma_find_profile_is_first(ps, p.name);
        }
    }
}

/// Staging a profile keeps profile names unique: an edit may rename a profile, but
/// never to a name that another profile has.
pub proof fn lemma_staging_keeps_names_unique(
    ps: Seq<ProfileView>,
    original: Option<Seq<char>>,
    p: ProfileView,
)
    requires
        names_unique(ps),
    ensures
        staged(ps, original, p) matches Ok(qs) ==> names_unique(qs),
{
    let oi = match original {
        Some(n) => find_profile(ps, n),
        None => None,
    };
    let di = find_profile(ps, p.name);
    if let Ok(qs) = staged(ps, original, p) {
        assert forall|i: int, j: int|
            0 <= i < qs.len() && 0 <= j < qs.len() && i != j implies !names_match(
            #[trigger] qs[i].name,
            #[trigger] qs[j].name,
        ) by {
            let k = match oi {
                Some(o) => o,
                None => ps.len() as int,
            };
            if i == k || j == k {
                let other = if i == k {
                    j
                } else {
                    i
                };
                assert(qs[other] == ps[other]);
                if names_match(ps[other].name, p.name) {
                    crate::config::lemma_match_is_found(ps, p.name, other);
                    let d = di->0;
                    assert(crate::config::is_first_match(ps, p.name, d));
                    assert(d == k);
                    assert(names_match(ps[d].name, p.name));
                    assert(names_match(ps[other].name, ps[d].name));
                }
            } else {
                assert(qs[i] == ps[i]);
                assert(qs[j] == ps[j]);
            }
        }
    }
}

/// Whether a profile is kept when the profile named `name` is removed.
pub open spec fn kept_after_removing(p: ProfileView, name: Seq<char>) -> bool {
    !names_match(p.name, name)
}

/// Removes every profile named `name`; reports whether one was removed.
pub fn remove_profile(profiles: &mut Vec<ApiProfile>, name: &str) -> (res: bool)
    ensures
        profiles_view(final(profiles)@) == profiles_view(old(profiles)@).filter(
            |p: ProfileView| kept_after_removing(p, name@),
        ),
        forall|i: int|
            0 <= i < final(profiles)@.len() ==> !names_match(
                (#[trigger] final(profiles)@[i]).name@,
                name@,
            ),
        res == (final(profiles)@.len() != old(profiles)@.len()),
{
    let ghost ps = profiles_view(profiles@);
    let ghost pred = |p: ProfileView| kept_after_removing(p, name@);
    let mut kept: Vec<ApiProfile> = Vec::new();
    let mut i: usize = 0;
    while i < profiles.len()
        invariant
            ps == profiles_view(profiles@),
            pred == (|p: ProfileView| kept_after_removing(p, name@)),
            i <= profiles.len(),
            profiles_view(kept@) == ps.take(i as int).filter(pred),
            kept@.len() <= i,
        decreases profiles.len() - i,
    {
        let keep = !crate::config::profile_names_match(profiles[i].name.as_str(), name);
        proof {
            reveal(Seq::filter);
            assert(ps.take(i + 1).drop_last() =~= ps.take(i as int));
            assert(ps.take(i + 1).last() == ps[i as int]);
            assert(ps[i as int] == profiles@[i as int]@);
            assert(pred(ps[i as int]) == keep);
            if keep {
                assert(ps.take(i + 1).filter(pred) == ps.take(i as int).filter(pred).push(
                    ps[i as int],
                ));
            } else {
                assert(ps.take(i + 1).filter(pred) == ps.take(i as int).filter(pred));
            }
        }
        if keep {
            kept.push(profiles[i].clone());
            assert(profiles_view(kept@) =~= ps.take(i as int).filter(pred).push(ps[i as int]));
        }
        i = i + 1;
    }
    assert(ps.take(profiles@.len() as int) =~= ps);
    let removed = kept.len() != profiles.len();
    *profiles = kept;
    proof {
        broadcast use vstd::seq_lib::group_filter_ensures;

        assert forall|i: int| 0 <= i < profiles@.len() implies !names_match(
            (#[trigger] profiles@[i]).name@,
            name@,
        ) by {
            assert(profiles_view(profiles@)[i] == profiles@[i]@);
            assert(pred(ps.filter(pred)[i]));
        }
    }
    removed
}

} // verus!

verus! {

/// Whether `c` is an ASCII digit.
pub open spec fn is_digit(c: char) -> bool {
    '0' <= c && c <= '9'
}

/// The value of a sequence of decimal digits.
pub open spec fn digits_value(s: Seq<char>) -> nat
    decreases s.len(),
{
    if s.len() == 0 {
        0
    } else {
        digits_value(s.drop_last()) * 10 + ((s.last() as u32) - ('0' as u32)) as nat
    }
}

/// The digits of an unsigned number text: without one leading `+`.
pub open spec fn unsigned_body(s: Seq<char>) -> Seq<char> {
    if s.len() > 0 && s[0] == '+' {
        s.drop_first()
    } else {
        s
    }
}

/// What `str::parse::<u32>` gives: an optional `+`, then at least one ASCII digit,
/// with a value that fits in `u32`.
pub open spec fn parse_u32(s: Seq<char>) -> Option<u32> {
    let body = unsigned_body(s);
    if body.len() == 0 || exists|i: int| 0 <= i < body.len() && !is_digit(#[trigger] body[i]) {
        None
    } else if digits_value(body) <= u32::MAX {
        Some(digits_value(body) as u32)
    } else {
        None
    }
}

proof fn lemma_digits_value_grows(s: Seq<char>, i: int, j: int)
    requires
        0 <= i <= j <= s.len(),
        forall|k: int| 0 <= k < s.len() ==> is_digit(#[trigger] s[k]),
    ensures
        digits_value(s.take(i)) <= digits_value(s.take(j)),
    decreases j - i,
{
    if i < j {
        lemma_digits_value_grows(s, i, j - 1);
        assert(s.take(j).drop_last() =~= s.take(j - 1));
        assert(s.take(j).last() == s[j - 1]);
    }
}

/// Parses an unsigned 32-bit number as `str::parse::<u32>` does.
pub fn parse_u32_text(s: &str) -> (res: Option<u32>)
    ensures
        res == parse_u32(s@),
{
    let v = chars_of(s);
    let start: usize = if v.len() > 0 && v[0] == '+' {
        1
    } else {
        0
    };
    let ghost body = unsigned_body(s@);
    assert(body =~= v@.subrange(start as int, v@.len() as int));
    if start == v.len() {
        return None;
    }
    let mut acc: u64 = 0;
    let mut i: usize = start;
    while i < v.len()
        invariant
            v@ == s@,
            start <= i <= v.len(),
            body == unsigned_body(s@),
            body == v@.subrange(start as int, v@.len() as int),
            body.len() > 0,
            acc == digits_value(body.take(i - start)),
            acc <= u32::MAX,
            forall|k: int| 0 <= k < i - start ==> is_digit(#[trigger] body[k]),
        decreases v.len() - i,
    {
        let c = v[i];
        assert(body[i - start] == c);
        if !('0' <= c && c <= '9') {
            return None;
        }
        let d: u64 = (c as u32 - '0' as u32) as u64;
        acc = acc * 10 + d;
        i = i + 1;
        assert(body.take(i - start).drop_last() =~= body.take(i - start - 1));
        assert(body.take(i - start).last() == c);
        if acc > u32::MAX as u64 {
            proof {
                if forall|k: int| 0 <= k < body.len() ==> is_digit(#[trigger] body[k]) {
                    lemma_digits_value_grows(body, i - start, body.len() as int);
                    assert(body.take(body.len() as int) =~= body);
                }
            }
            return None;
        }
    }
    assert(body.take(body.len() as int) =~= body);
    Some(acc as u32)
}

/// The profile that the form's fields describe, or why they do not describe one.
/// `temperature_bits` is the bit pattern of the parsed temperature text, `None` when
/// that text is no number.
pub open spec fn collected_profile(
    name: Seq<char>,
    api_key: Seq<char>,
    base_url: Seq<char>,
    model: Seq<char>,
    temperature_bits: Option<u64>,
    max_tokens: Seq<char>,
) -> Result<ProfileView, Seq<char>> {
    match temperature_bits {
        None => Err("温度必须是 0.0–2.0 之间的数字"@),
        Some(t) => match parse_u32(trim(max_tokens)) {
            None => Err("最大 Token 数必须是大于 0 的整数"@),
            Some(m) => {
                let p = ProfileView {
                    name: trim(name),
                    api_key,
                    base_url: trim(base_url),
                    model: trim(model),
                    temperature_bits: t,
                    max_tokens: m,
                };
                match profile_error(p) {
                    Some(e) => Err("配置无效："@ + e),
                    None => Ok(p),
                }
            },
        },
    }
}

/// Builds and checks the profile that the form's fields describe.
pub fn collect_api_profile(
    name: &str,
    api_key: &str,
    base_url: &str,
    model: &str,
    temperature_bits: Option<u64>,
    max_tokens: &str,
) -> (res: Result<ApiProfile, String>)
    ensures
        match collected_profile(name@, api_key@, base_url@, model@, temperature_bits, max_tokens@) {
            Ok(p) => res matches Ok(q) && q@ == p,
            Err(m) => res matches Err(e) && e@ == m,
        },
{
    let temperature = match temperature_bits {
        Some(t) => t,
        None => return Err("温度必须是 0.0–2.0 之间的数字".to_owned()),
    };
    let tokens_text = trim_str(max_tokens);
    let tokens = match parse_u32_text(tokens_text.as_str()) {
        Some(m) => m,
        None => return Err("最大 Token 数必须是大于 0 的整数".to_owned()),
    };
    let profile = ApiProfile {
        name: trim_str(name),
        api_key: api_key.to_owned(),
        base_url: trim_str(base_url),
        model: trim_str(model),
        temperature_bits: temperature,
        max_tokens: tokens,
    };
    match profile.validate() {
        Ok(()) => Ok(profile),
        Err(error) => {
            let message = error.message();
            proof {
                assert(error matches ConfigError::Invalid(_));
            }
            Err(message)
        },
    }
}

/// The configuration that the form describes: the edited profile staged into the
/// draft profiles and made active, the trimmed hotkey and rules, clipboard output.
pub open spec fn collected_config(
    drafts: Seq<ProfileView>,
    original: Option<Seq<char>>,
    p: ProfileView,
    hotkey: Seq<char>,
    system_prompt: Seq<char>,
    play_sound: bool,
    auto_start: bool,
) -> Result<crate::config::ConfigView, Seq<char>> {
    match staged(drafts, original, p) {
        Err(m) => Err(m),
        Ok(ps) => Ok(
            crate::config::ConfigView {
                active_profile: p.name,
                api_profiles: ps,
                hotkey: trim(hotkey),
                system_prompt: trim(system_prompt),
                result_mode: "clipboard"@,
                play_sound,
                auto_start,
            },
        ),
    }
}

/// The profile read from the form carries exactly what was typed: the trimmed name,
/// address and model, the key as it is, the typed temperature and the typed token limit;
/// it is only accepted when it is a valid profile. A temperature that is no number, or
/// a token limit that is no unsigned number, is refused with its own message.
pub proof fn lemma_form_profile_is_what_was_typed(
    name: Seq<char>,
    api_key: Seq<char>,
    base_url: Seq<char>,
    model: Seq<char>,
    temperature_bits: Option<u64>,
    max_tokens: Seq<char>,
)
    ensures
        match collected_profile(name, api_key, base_url, model, temperature_bits, max_tokens) {
            Ok(q) => {
                &&& q.name == trim(name)
                &&& q.api_key == api_key
                &&& q.base_url == trim(base_url)
                &&& q.model == trim(model)
                &&& temperature_bits == Some(q.temperature_bits)
                &&& parse_u32(trim(max_tokens)) == Some(q.max_tokens)
                &&& profile_error(q) is None
            },
            Err(m) => {
                &&& temperature_bits is None ==> m == "温度必须是 0.0–2.0 之间的数字"@
                &&& (temperature_bits is Some && parse_u32(trim(max_tokens)) is None) ==> m
                    == "最大 Token 数必须是大于 0 的整数"@
            },
        },
{
}

/// The configuration collected from the form takes each switch from its own checkbox,
/// the trimmed hotkey and rules, clipboard output, and the edited profile as the
/// active one, kept among the profiles; it is refused only when another profile
/// already has the edited profile's name.
pub proof fn lemma_form_config_is_what_was_entered(
    drafts: Seq<ProfileView>,
    original: Option<Seq<char>>,
    p: ProfileView,
    hotkey: Seq<char>,
    system_prompt: Seq<char>,
    play_sound: bool,
    auto_start: bool,
)
    ensures
        match collected_config(drafts, original, p, hotkey, system_prompt, play_sound, auto_start) {
            Ok(c) => {
                &&& c.play_sound == play_sound
                &&& c.auto_start == auto_start
                &&& c.hotkey == trim(hotkey)
                &&& c.system_prompt == trim(system_prompt)
                &&& c.result_mode == "clipboard"@
                &&& c.active_profile == p.name
                &&& c.api_profiles.contains(p)
                &&& drafts.len() <= c.api_profiles.len() <= drafts.len() + 1
            },
            Err(m) => m == "配置名称已存在："@ + trim(p.name),
        },
{
    if let Ok(ps) = staged(drafts, original, p) {
        let oi = match original {
            Some(n) => find_profile(drafts, n),
            None => None,
        };
        match oi {
            Some(i) => {
                assert(crate::config::is_first_match(drafts, original->0, i));
                assert(ps[i] == p);
            },
            None => {
                assert(ps[drafts.len() as int] == p);
            },
        }
    }
}

/// Collects the form into a configuration.
pub fn collect_config(
    draft_profiles: &Vec<ApiProfile>,
    editing_original: Option<&str>,
    profile: ApiProfile,
    hotkey: &str,
    system_prompt: &str,
    play_sound: bool,
    auto_start: bool,
) -> (res: Result<Config, String>)
    ensures
        match collected_config(
            profiles_view(draft_profiles@),
            opt_str_view(editing_original),
            profile@,
            hotkey@,
            system_prompt@,
            play_sound,
            auto_start,
        ) {
            Ok(c) => res matches Ok(r) && r@ == c,
            Err(m) => res matches Err(e) && e@ == m,
        },
{
    let mut profiles = copy_profiles(draft_profiles);
    let active = profile.name.clone();
    match stage_profile(&mut profiles, editing_original, profile) {
        Ok(()) => {},
        Err(e) => return Err(e),
    }
    Ok(
        Config {
            active_profile: active,
            api_profiles: profiles,
            hotkey: trim_str(hotkey),
            system_prompt: trim_str(system_prompt),
            result_mode: "clipboard".to_owned(),
            play_sound,
            auto_start,
        },
    )
}

} // verus!

verus! {

/// The settings page about the model and service.
pub const PAGE_SERVICE: usize = 0;

/// The settings page with the optimisation rules.
pub const PAGE_PROMPT: usize = 1;

/// The settings page about application behaviour.
pub const PAGE_BEHAVIOR: usize = 2;

/// Where one control of the settings window goes.
#[derive(Clone, Copy, Debug, PartialEq, Eq)]
pub struct Placement {
    pub control: u16,
    pub x: i32,
    pub y: i32,
    pub width: i32,
    pub height: i32,
}

/// A placement of `control`; the size is at least one pixel each way.
pub open spec fn placed(control: u16, x: int, y: int, width: int, height: int) -> Placement {
    Placement {
        control,
        x: x as i32,
        y: y as i32,
        width: (if width >= 1 { width } else { 1 }) as i32,
        height: (if height >= 1 { height } else { 1 }) as i32,
    }
}

/// The placement of an edit field's control inside the field frame `[x, y, w, h]`.
pub open spec fn placed_field(control: u16, x: int, y: int, w: int, h: int, dpi: u32) -> Placement {
    let hz = scaled(12, dpi);
    let vt = scaled(10, dpi);
    placed(
        control,
        x + hz,
        y + vt,
        if w - hz * 2 >= 1 { w - hz * 2 } else { 1 },
        if h - vt * 2 >= 1 { h - vt * 2 } else { 1 },
    )
}

/// The window sizes and resolutions the layout is computed for; Windows keeps window
/// coordinates and DPI far inside these bounds.
pub open spec fn layout_domain(right: i32, bottom: i32, dpi: u32) -> bool {
    &&& dpi <= 0x10_0000
    &&& -0x1000_0000 <= right <= 0x1000_0000
    &&& -0x1000_0000 <= bottom <= 0x1000_0000
}

/// The left edge of the page content.
pub open spec fn content_left(dpi: u32) -> int {
    scaled(196, dpi) + scaled(38, dpi)
}

/// The right edge of the page content.
pub open spec fn content_right(right: i32, dpi: u32) -> int {
    right - scaled(38, dpi)
}

/// The width of the page content, never below 360 (at 96 DPI).
pub open spec fn content_width(right: i32, dpi: u32) -> int {
    let w = content_right(right, dpi) - content_left(dpi);
    if w >= scaled(360, dpi) {
        w
    } else {
        scaled(360, dpi)
    }
}

/// The navigation buttons.
pub open spec fn nav_layout(dpi: u32) -> Seq<Placement> {
    let s = |v: i32| scaled(v, dpi);
    seq![
        placed(ID_NAV_SERVICE, s(18), s(112), s(160), s(44)),
        placed(ID_NAV_PROMPT, s(18), s(164), s(160), s(44)),
        placed(ID_NAV_BEHAVIOR, s(18), s(216), s(160), s(44)),
    ]
}

/// The controls of the model-and-service page.
pub open spec fn service_layout(right: i32, dpi: u32) -> Seq<Placement> {
    let s = |v: i32| scaled(v, dpi);
    let left = content_left(dpi);
    let cr = content_right(right, dpi);
    let width = content_width(right, dpi);
    let header = s(124);
    let field_h = s(44);
    let profile_y = header + s(10);
    let half = div_toward_zero(width - s(16), 2);
    let profile_box = placed_field(ID_API_PROFILE, left, profile_y, width - s(132), field_h, dpi);
    seq![
        placed(ID_API_PROFILE, profile_box.x as int, profile_box.y as int, profile_box.width as int, s(220)),
        placed(ID_PROFILE_NEW, cr - s(120), profile_y, s(52), field_h),
        placed(ID_PROFILE_DELETE, cr - s(60), profile_y, s(60), field_h),
        placed_field(ID_PROFILE_NAME, left, header + s(82), width, field_h, dpi),
        placed_field(ID_API_KEY, left, header + s(154), width, field_h, dpi),
        placed(ID_SHOW_KEY, left, header + s(202), s(150), s(32)),
        placed(ID_TEST_API, cr - s(104), header + s(198), s(104), field_h),
        placed_field(ID_BASE_URL, left, header + s(266), width, field_h, dpi),
        placed_field(ID_MODEL, left, header + s(338), width, field_h, dpi),
        placed_field(ID_TEMPERATURE, left, header + s(410), half, field_h, dpi),
        placed_field(ID_MAX_TOKENS, left + half + s(16), header + s(410), half, field_h, dpi),
    ]
}

/// The height of the rules field: what is left above the footer, at least 180 (at 96 DPI).
pub open spec fn prompt_height(bottom: i32, dpi: u32) -> int {
    let h = bottom - scaled(72, dpi) - scaled(124, dpi) - scaled(124, dpi);
    if h >= scaled(180, dpi) {
        h
    } else {
        scaled(180, dpi)
    }
}

/// The control of the rules page.
pub open spec fn prompt_layout(right: i32, bottom: i32, dpi: u32) -> Seq<Placement> {
    seq![
        placed_field(
            ID_SYSTEM_PROMPT,
            content_left(dpi),
            scaled(124, dpi) + scaled(22, dpi),
            content_width(right, dpi),
            prompt_height(bottom, dpi),
            dpi,
        ),
    ]
}

/// The controls of the behaviour page.
pub open spec fn behavior_layout(right: i32, dpi: u32) -> Seq<Placement> {
    let s = |v: i32| scaled(v, dpi);
    let left = content_left(dpi);
    let width = content_width(right, dpi);
    seq![
        placed_field(ID_HOTKEY, left, s(124) + s(22), width, s(44), dpi),
        placed(ID_PLAY_SOUND, left, s(124) + s(112), width, s(44)),
        placed(ID_AUTO_START, left, s(124) + s(164), width, s(44)),
    ]
}

/// The footer buttons.
pub open spec fn footer_layout(right: i32, bottom: i32, dpi: u32) -> Seq<Placement> {
    let s = |v: i32| scaled(v, dpi);
    let buttons_y = bottom - s(56);
    seq![
        placed(ID_ERROR_DETAILS, right - s(354), buttons_y, s(84), s(40)),
        placed(ID_RESET, right - s(250), buttons_y, s(108), s(40)),
        placed(ID_SAVE, right - s(132), buttons_y, s(112), s(40)),
    ]
}

/// The placements of the settings controls for `page` in a client area whose right
/// and bottom edges are `right` and `bottom`, at `dpi`: the navigation, then the
/// controls of the page (any page other than the first two is the behaviour page),
/// then the footer buttons.
pub open spec fn settings_layout(page: usize, right: i32, bottom: i32, dpi: u32) -> Seq<Placement> {
    let body = if page == PAGE_SERVICE {
        service_layout(right, dpi)
    } else if page == PAGE_PROMPT {
        prompt_layout(right, bottom, dpi)
    } else {
        behavior_layout(right, dpi)
    };
    nav_layout(dpi) + body + footer_layout(right, bottom, dpi)
}

/// A scaled length that fits in `i32` without truncation.
pub open spec fn scale_exact(v: i32, dpi: u32) -> bool {
    (scaled(v, dpi) as i32) as int == scaled(v, dpi)
}

/// Bounds of scaled lengths in the layout domain.
proof fn lemma_scaled_bounds(v: i32, dpi: u32)
    requires
        0 <= v <= 1000,
        dpi <= 0x10_0000,
    ensures
        0 <= scaled(v, dpi) <= 11_000_000,
        scale_exact(v, dpi),
{
    assert(0 <= v * dpi <= 1000 * 0x10_0000) by (nonlinear_arith)
        requires
            0 <= v <= 1000,
            dpi <= 0x10_0000,
    ;
}

/// A scaled length, with its bounds in the layout domain.
fn scale_small(v: i32, dpi: u32) -> (res: i32)
    requires
        0 <= v <= 1000,
        dpi <= 0x10_0000,
    ensures
        res as int == scaled(v, dpi),
        0 <= res <= 11_000_000,
{
    proof {
        lemma_scaled_bounds(v, dpi);
    }
    scale(v, dpi)
}

/// A placement with the given size, which is at least one pixel each way.
fn place(control: u16, x: i32, y: i32, width: i32, height: i32) -> (res: Placement)
    ensures
        res == placed(control, x as int, y as int, width as int, height as int),
{
    Placement {
        control,
        x,
        y,
        width: if width >= 1 {
            width
        } else {
            1
        },
        height: if height >= 1 {
            height
        } else {
            1
        },
    }
}

/// The placement of an edit field's control inside the frame `[x, y, w, h]`.
fn place_field(control: u16, x: i32, y: i32, w: i32, h: i32, dpi: u32) -> (res: Placement)
    requires
        dpi <= 0x10_0000,
        -0x2000_0000 <= x <= 0x2000_0000,
        -0x2000_0000 <= y <= 0x2000_0000,
        -0x2000_0000 <= w <= 0x2000_0000,
        -0x2000_0000 <= h <= 0x2000_0000,
    ensures
        res == placed_field(control, x as int, y as int, w as int, h as int, dpi),
{
    let hz = scale_small(12, dpi);
    let vt = scale_small(10, dpi);
    let inner = inset_bounds([x, y, w, h], hz, vt);
    assert(inner[0] == inset([x, y, w, h], hz, vt)[0]);
    assert(inner[1] == inset([x, y, w, h], hz, vt)[1]);
    assert(inner[2] == inset([x, y, w, h], hz, vt)[2]);
    assert(inner[3] == inset([x, y, w, h], hz, vt)[3]);
    place(control, inner[0], inner[1], inner[2], inner[3])
}

fn layout_nav(res: &mut Vec<Placement>, dpi: u32)
    requires
        dpi <= 0x10_0000,
    ensures
        final(res)@ == old(res)@ + nav_layout(dpi),
{
    let s18 = scale_small(18, dpi);
    let s44 = scale_small(44, dpi);
    let s160 = scale_small(160, dpi);
    res.push(place(ID_NAV_SERVICE, s18, scale_small(112, dpi), s160, s44));
    res.push(place(ID_NAV_PROMPT, s18, scale_small(164, dpi), s160, s44));
    res.push(place(ID_NAV_BEHAVIOR, s18, scale_small(216, dpi), s160, s44));
    assert(final(res)@ =~= old(res)@ + nav_layout(dpi));
}

/// The content edges and width.
fn content_geometry(right: i32, dpi: u32) -> (res: (i32, i32, i32))
    requires
        layout_domain(right, 0, dpi),
    ensures
        res.0 == content_left(dpi),
        res.1 == content_right(right, dpi),
        res.2 == content_width(right, dpi),
        0 <= res.0 <= 30_000_000,
        -0x1100_0000 <= res.1 <= 0x1000_0000,
        0 <= res.2 <= 0x1200_0000,
{
    let left = scale_small(196, dpi) + scale_small(38, dpi);
    let cr = right - scale_small(38, dpi);
    let s360 = scale_small(360, dpi);
    let width = if cr - left >= s360 {
        cr - left
    } else {
        s360
    };
    (left, cr, width)
}

#[verifier::rlimit(40)]
fn layout_service(res: &mut Vec<Placement>, right: i32, dpi: u32)
    requires
        layout_domain(right, 0, dpi),
    ensures
        final(res)@ == old(res)@ + service_layout(right, dpi),
{
    let (left, cr, width) = content_geometry(right, dpi);
    let header = scale_small(124, dpi);
    let field_h = scale_small(44, dpi);
    let profile_y = header + scale_small(10, dpi);
    let profile_box = place_field(ID_API_PROFILE, left, profile_y, width - scale_small(132, dpi), field_h, dpi);
    res.push(place(ID_API_PROFILE, profile_box.x, profile_box.y, profile_box.width, scale_small(220, dpi)));
    res.push(place(ID_PROFILE_NEW, cr - scale_small(120, dpi), profile_y, scale_small(52, dpi), field_h));
    res.push(place(ID_PROFILE_DELETE, cr - scale_small(60, dpi), profile_y, scale_small(60, dpi), field_h));
    res.push(place_field(ID_PROFILE_NAME, left, header + scale_small(82, dpi), width, field_h, dpi));
    res.push(place_field(ID_API_KEY, left, header + scale_small(154, dpi), width, field_h, dpi));
    res.push(place(ID_SHOW_KEY, left, header + scale_small(202, dpi), scale_small(150, dpi), scale_small(32, dpi)));
    res.push(place(ID_TEST_API, cr - scale_small(104, dpi), header + scale_small(198, dpi), scale_small(104, dpi), field_h));
    res.push(place_field(ID_BASE_URL, left, header + scale_small(266, dpi), width, field_h, dpi));
    res.push(place_field(ID_MODEL, left, header + scale_small(338, dpi), width, field_h, dpi));
    let s16 = scale_small(16, dpi);
    let half = (width - s16) / 2;
    let row = header + scale_small(410, dpi);
    res.push(place_field(ID_TEMPERATURE, left, row, half, field_h, dpi));
    res.push(place_field(ID_MAX_TOKENS, left + half + s16, row, half, field_h, dpi));
    assert(final(res)@ =~= old(res)@ + service_layout(right, dpi));
}

fn layout_prompt(res: &mut Vec<Placement>, right: i32, bottom: i32, dpi: u32)
    requires
        layout_domain(right, bottom, dpi),
    ensures
        final(res)@ == old(res)@ + prompt_layout(right, bottom, dpi),
{
    let (left, _, width) = content_geometry(right, dpi);
    let header = scale_small(124, dpi);
    let footer = scale_small(72, dpi);
    let s180 = scale_small(180, dpi);
    let h = bottom - footer - header - scale_small(124, dpi);
    let prompt_h = if h >= s180 {
        h
    } else {
        s180
    };
    res.push(place_field(ID_SYSTEM_PROMPT, left, header + scale_small(22, dpi), width, prompt_h, dpi));
    assert(final(res)@ =~= old(res)@ + prompt_layout(right, bottom, dpi));
}

fn layout_behavior(res: &mut Vec<Placement>, right: i32, dpi: u32)
    requires
        layout_domain(right, 0, dpi),
    ensures
        final(res)@ == old(res)@ + behavior_layout(right, dpi),
{
    let (left, _, width) = content_geometry(right, dpi);
    let header = scale_small(124, dpi);
    let s44 = scale_small(44, dpi);
    res.push(place_field(ID_HOTKEY, left, header + scale_small(22, dpi), width, s44, dpi));
    res.push(place(ID_PLAY_SOUND, left, header + scale_small(112, dpi), width, s44));
    res.push(place(ID_AUTO_START, left, header + scale_small(164, dpi), width, s44));
    assert(final(res)@ =~= old(res)@ + behavior_layout(right, dpi));
}

fn layout_footer(res: &mut Vec<Placement>, right: i32, bottom: i32, dpi: u32)
    requires
        layout_domain(right, bottom, dpi),
    ensures
        final(res)@ == old(res)@ + footer_layout(right, bottom, dpi),
{
    let buttons_y = bottom - scale_small(56, dpi);
    let s40 = scale_small(40, dpi);
    res.push(place(ID_ERROR_DETAILS, right - scale_small(354, dpi), buttons_y, scale_small(84, dpi), s40));
    res.push(place(ID_RESET, right - scale_small(250, dpi), buttons_y, scale_small(108, dpi), s40));
    res.push(place(ID_SAVE, right - scale_small(132, dpi), buttons_y, scale_small(112, dpi), s40));
    assert(final(res)@ =~= old(res)@ + footer_layout(right, bottom, dpi));
}

/// Where each control of the settings window goes for `page`.
pub fn layout_settings(page: usize, right: i32, bottom: i32, dpi: u32) -> (res: Vec<Placement>)
    requires
        layout_domain(right, bottom, dpi),
    ensures
        res@ == settings_layout(page, right, bottom, dpi),
{
    let mut res: Vec<Placement> = Vec::new();
    layout_nav(&mut res, dpi);
    if page == PAGE_SERVICE {
        layout_service(&mut res, right, dpi);
    } else if page == PAGE_PROMPT {
        layout_prompt(&mut res, right, bottom, dpi);
    } else {
        layout_behavior(&mut res, right, dpi);
    }
    layout_footer(&mut res, right, bottom, dpi);
    assert(res@ =~= settings_layout(page, right, bottom, dpi));
    res
}

} // verus!

verus! {

/// The profiles being edited in the settings window: the drafts, the name of the
/// profile shown as current, and the name under which the visible form was loaded
/// (`None` while a new profile is being entered).
#[derive(Debug, PartialEq)]
pub struct ProfileDraft {
    pub profiles: Vec<ApiProfile>,
    pub active: String,
    pub editing_original: Option<String>,
}

/// The mathematical model of a [`ProfileDraft`].
pub struct DraftView {
    pub profiles: Seq<ProfileView>,
    pub active: Seq<char>,
    pub editing_original: Option<Seq<char>>,
}

impl View for ProfileDraft {
    type V = DraftView;

    open spec fn view(&self) -> DraftView {
        DraftView {
            profiles: profiles_view(self.profiles@),
            active: self.active@,
            editing_original: crate::config::opt_view(self.editing_original),
        }
    }
}

/// What deleting the visible profile did.
#[derive(Debug, PartialEq)]
pub enum DeleteOutcome {
    /// A new profile was being entered; it is dropped and this profile is shown again.
    CancelledNew(ApiProfile),
    /// The profile was removed; this one is shown now.
    Removed(ApiProfile),
    /// Nothing changed, for the given reason.
    Refused(String),
}

/// What switching to another profile did.
#[derive(Debug, PartialEq)]
pub enum SwitchOutcome {
    /// The visible profile could not be kept; the form stays as it is.
    Refused(String),
    /// No profile has the chosen name.
    Unchanged,
    /// This profile is shown now.
    Switched(ApiProfile),
}

/// The profile shown as current: the first named `active`, else the default profile.
pub open spec fn shown_profile(ps: Seq<ProfileView>, active: Seq<char>) -> ProfileView {
    match find_profile(ps, active) {
        Some(k) => ps[k],
        None => crate::config::default_profile(),
    }
}

/// Whether the list entry `i` is the one selected for the current name (the list
/// compares the current name as it is with each trimmed profile name).
pub open spec fn list_selects(ps: Seq<ProfileView>, active: Seq<char>, i: int) -> bool {
    crate::text::eq_ignore_ascii_case(active, trim(ps[i].name))
}

/// The draft after keeping the visible profile `p`.
pub open spec fn draft_after_staging(d: DraftView, p: ProfileView) -> Result<DraftView, Seq<char>> {
    match staged(d.profiles, d.editing_original, p) {
        Ok(ps) => Ok(DraftView { profiles: ps, active: d.active, editing_original: Some(p.name) }),
        Err(m) => Err(m),
    }
}

/// Filtering that keeps as many elements as there are keeps all of them.
proof fn lemma_filter_same_len_is_identity(s: Seq<ProfileView>, pred: spec_fn(ProfileView) -> bool)
    requires
        s.filter(pred).len() == s.len(),
    ensures
        s.filter(pred) == s,
    decreases s.len(),
{
    reveal(Seq::filter);
    if s.len() > 0 {
        s.drop_last().lemma_filter_len(pred);
        if pred(s.last()) {
            lemma_filter_same_len_is_identity(s.drop_last(), pred);
            assert(s.drop_last().push(s.last()) =~= s);
        }
    }
}

/// Whether deleting the visible profile leaves at least one profile: it holds unless
/// every draft carries the name being deleted (with unique names it always holds).
pub open spec fn deletion_keeps_one(d: DraftView) -> bool {
    match d.editing_original {
        Some(name) => d.profiles.len() <= 1 || d.profiles.filter(
            |p: ProfileView| kept_after_removing(p, name),
        ).len() > 0,
        None => true,
    }
}

/// With unique names, deleting a profile never deletes them all.
pub proof fn lemma_unique_names_keep_one(d: DraftView)
    requires
        names_unique(d.profiles),
    ensures
        deletion_keeps_one(d),
{
    broadcast use vstd::seq_lib::group_filter_ensures;

    if let Some(name) = d.editing_original {
        let ps = d.profiles;
        if ps.len() > 1 {
            let pred = |p: ProfileView| kept_after_removing(p, name);
            if names_match(ps[0].name, name) && names_match(ps[1].name, name) {
                assert(names_match(ps[0].name, ps[1].name));
                assert(false);
            }
            if pred(ps[0]) {
                assert(ps.filter(pred).contains(ps[0]));
            } else {
                assert(ps.filter(pred).contains(ps[1]));
            }
        }
    }
}

impl ProfileDraft {
    /// The drafts of a configuration, showing its active profile.
    pub fn from_config(config: &Config) -> (res: ProfileDraft)
        ensures
            res@ == (DraftView {
                profiles: config@.api_profiles,
                active: config@.active_profile,
                editing_original: Some(config@.active_profile),
            }),
    {
        ProfileDraft {
            profiles: copy_profiles(&config.api_profiles),
            active: config.active_profile.clone(),
            editing_original: Some(config.active_profile.clone()),
        }
    }

    /// The profile shown as current.
    pub fn shown(&self) -> (res: ApiProfile)
        ensures
            res@ == shown_profile(self@.profiles, self@.active),
    {
        match find_profile_index(&self.profiles, self.active.as_str()) {
            Some(k) => self.profiles[k].clone(),
            None => ApiProfile::default(),
        }
    }

    /// The list entry to select: the last profile whose trimmed name equals the
    /// current name up to ASCII case.
    pub fn selected_index(&self) -> (res: Option<usize>)
        ensures
            match res {
                Some(i) => i < self.profiles@.len() && list_selects(self@.profiles, self@.active, i as int)
                    && forall|j: int|
                    i < j < self.profiles@.len() ==> !list_selects(self@.profiles, self@.active, j),
                None => forall|j: int|
                    0 <= j < self.profiles@.len() ==> !list_selects(self@.profiles, self@.active, j),
            },
    {
        let ghost ps = self@.profiles;
        let mut selected: Option<usize> = None;
        let mut i: usize = 0;
        while i < self.profiles.len()
            invariant
                ps == self@.profiles,
                i <= self.profiles.len(),
                match selected {
                    Some(s) => s < i && list_selects(ps, self@.active, s as int) && forall|j: int|
                        s < j < i ==> !list_selects(ps, self@.active, j),
                    None => forall|j: int| 0 <= j < i ==> !list_selects(ps, self@.active, j),
                },
            decreases self.profiles.len() - i,
        {
            let name = trim_str(self.profiles[i].name.as_str());
            assert(ps[i as int] == self.profiles@[i as int]@);
            if crate::text::str_eq_ignore_ascii_case(self.active.as_str(), name.as_str()) {
                selected = Some(i);
            }
            i = i + 1;
        }
        selected
    }

    /// Keeps the visible profile `profile` among the drafts; it is then the one
    /// being edited.
    pub fn stage_visible(&mut self, profile: ApiProfile) -> (res: Result<(), String>)
        ensures
            match draft_after_staging(old(self)@, profile@) {
                Ok(d) => res is Ok && final(self)@ == d,
                Err(m) => res matches Err(e) && e@ == m && final(self)@ == old(self)@,
            },
    {
        let name = profile.name.clone();
        let original = match &self.editing_original {
            Some(n) => Some(n.as_str()),
            None => None,
        };
        stage_profile(&mut self.profiles, original, profile)?;
        self.editing_original = Some(name);
        Ok(())
    }

    /// Starts a new profile after keeping the visible one; the form is then blank
    /// apart from the default settings.
    pub fn begin_new(&mut self, visible: ApiProfile) -> (res: Result<ApiProfile, String>)
        ensures
            match draft_after_staging(old(self)@, visible@) {
                Ok(d) => res matches Ok(blank) && blank@ == (ProfileView {
                    name: Seq::empty(),
                    ..crate::config::default_profile()
                }) && final(self)@ == (DraftView { editing_original: None, ..d }),
                Err(m) => res matches Err(e) && e@ == m && final(self)@ == old(self)@,
            },
    {
        self.stage_visible(visible)?;
        self.editing_original = None;
        let mut blank = ApiProfile::default();
        blank.name = String::new();
        Ok(blank)
    }

    /// Deletes the visible profile. While a new profile is entered, that entry is
    /// dropped instead. The last profile is never deleted.
    pub fn delete_visible(&mut self) -> (res: DeleteOutcome)
        requires
            deletion_keeps_one(old(self)@),
        ensures
            match old(self)@.editing_original {
                None => {
                    let shown = shown_profile(old(self)@.profiles, old(self)@.active);
                    res matches DeleteOutcome::CancelledNew(p) && p@ == shown && final(self)@ == (
                    DraftView { editing_original: Some(shown.name), ..old(self)@ })
                },
                Some(name) => if old(self)@.profiles.len() == 1 {
                    res matches DeleteOutcome::Refused(m) && m@ == "至少需要保留一个 API 配置"@
                        && final(self)@ == old(self)@
                } else {
                    let kept = old(self)@.profiles.filter(|p: ProfileView| kept_after_removing(p, name));
                    if kept.len() == old(self)@.profiles.len() {
                        res matches DeleteOutcome::Refused(m) && m@ == "未找到要删除的 API 配置"@
                            && final(self)@ == old(self)@
                    } else {
                        res matches DeleteOutcome::Removed(p) && p@ == kept[0] && final(self)@ == (
                        DraftView {
                            profiles: kept,
                            active: kept[0].name,
                            editing_original: Some(kept[0].name),
                        })
                    }
                },
            },
    {
        let name = match &self.editing_original {
            Some(n) => n.clone(),
            None => {
                let shown = self.shown();
                self.editing_original = Some(shown.name.clone());
                return DeleteOutcome::CancelledNew(shown);
            },
        };
        if self.profiles.len() == 1 {
            return DeleteOutcome::Refused("至少需要保留一个 API 配置".to_owned());
        }
        let ghost before = self.profiles@;
        if !remove_profile(&mut self.profiles, name.as_str()) {
            proof {
                assert(self.profiles@.len() == before.len());
                assert(profiles_view(self.profiles@) == profiles_view(before).filter(
                    |p: ProfileView| kept_after_removing(p, name@),
                ));
                assert(profiles_view(self.profiles@).len() == profiles_view(before).len());
                assert(profiles_view(self.profiles@) =~= profiles_view(before)) by {
                    lemma_filter_same_len_is_identity(
                        profiles_view(before),
                        |p: ProfileView| kept_after_removing(p, name@),
                    );
                }
            }
            return DeleteOutcome::Refused("未找到要删除的 API 配置".to_owned());
        }
        let next = self.profiles[0].clone();
        self.active = next.name.clone();
        self.editing_original = Some(next.name.clone());
        DeleteOutcome::Removed(next)
    }
}

} // verus!

verus! {

/// The draft after switching to the profile named `target`, where `visible` is the
/// form's profile or why the form does not describe one.
pub open spec fn draft_after_switch(d: DraftView, target: Seq<char>, visible: Result<ProfileView, Seq<char>>) -> (
    DraftView,
    Result<Option<ProfileView>, Seq<char>>,
) {
    let staged_draft = match visible {
        Ok(p) => draft_after_staging(d, p),
        Err(e) => Err(e),
    };
    match staged_draft {
        Err(e) => (
            match d.editing_original {
                Some(prev) => DraftView { active: prev, ..d },
                None => d,
            },
            Err("当前配置尚未填写完整："@ + e),
        ),
        Ok(s) => match find_profile(s.profiles, target) {
            None => (s, Ok(None)),
            Some(k) => (
                DraftView { active: s.profiles[k].name, editing_original: Some(s.profiles[k].name), ..s },
                Ok(Some(s.profiles[k])),
            ),
        },
    }
}

/// The model of a form result.
pub open spec fn form_view(r: Result<ApiProfile, String>) -> Result<ProfileView, Seq<char>> {
    match r {
        Ok(p) => Ok(p@),
        Err(e) => Err(e@),
    }
}

impl ProfileDraft {
    /// Switches the form to the profile named `target`, after keeping the visible
    /// profile; when that cannot be kept, the previous profile stays selected.
    pub fn switch_to(&mut self, target: &str, visible: Result<ApiProfile, String>) -> (res: SwitchOutcome)
        ensures
            ({
                let (d, out) = draft_after_switch(old(self)@, target@, form_view(visible));
                &&& final(self)@ == d
                &&& match out {
                    Err(m) => res matches SwitchOutcome::Refused(e) && e@ == m,
                    Ok(None) => res is Unchanged,
                    Ok(Some(p)) => res matches SwitchOutcome::Switched(q) && q@ == p,
                }
            }),
    {
        let staged = match visible {
            Ok(profile) => self.stage_visible(profile),
            Err(e) => Err(e),
        };
        if let Err(e) = staged {
            match &self.editing_original {
                Some(previous) => {
                    self.active = previous.clone();
                },
                None => {},
            }
            let mut message = "当前配置尚未填写完整：".to_owned();
            push_str(&mut message, e.as_str());
            return SwitchOutcome::Refused(message);
        }
        match find_profile_index(&self.profiles, target) {
            None => SwitchOutcome::Unchanged,
            Some(k) => {
                let profile = self.profiles[k].clone();
                self.active = profile.name.clone();
                self.editing_original = Some(profile.name.clone());
                SwitchOutcome::Switched(profile)
            },
        }
    }
}

} // verus!

verus! {

/// Removing profiles keeps the remaining names unique.
pub proof fn lemma_removal_keeps_names_unique(ps: Seq<ProfileView>, name: Seq<char>)
    requires
        names_unique(ps),
    ensures
        names_unique(ps.filter(|p: ProfileView| kept_after_removing(p, name))),
    decreases ps.len(),
{
    let pred = |p: ProfileView| kept_after_removing(p, name);
    reveal(Seq::filter);
    if ps.len() > 0 {
        let rest = ps.drop_last();
        assert(names_unique(rest)) by {
            assert forall|i: int, j: int|
                0 <= i < rest.len() && 0 <= j < rest.len() && i != j implies !names_match(
                #[trigger] rest[i].name,
                #[trigger] rest[j].name,
            ) by {
                assert(rest[i] == ps[i]);
                assert(rest[j] == ps[j]);
            }
        }
        lemma_removal_keeps_names_unique(rest, name);
        let f = rest.filter(pred);
        if pred(ps.last()) {
            assert forall|i: int|
                0 <= i < f.len() implies !names_match(#[trigger] f[i].name, ps.last().name) by {
                rest.lemma_filter_contains_rev(pred, f[i]);
                assert(f.contains(f[i]));
                let j = choose|j: int| 0 <= j < rest.len() && rest[j] == f[i];
                assert(ps[j] == f[i]);
                assert(ps[ps.len() - 1] == ps.last());
            }
            let g = f.push(ps.last());
            assert forall|i: int, j: int|
                0 <= i < g.len() && 0 <= j < g.len() && i != j implies !names_match(
                #[trigger] g[i].name,
                #[trigger] g[j].name,
            ) by {
                if i == g.len() - 1 {
                    assert(!names_match(f[j].name, ps.last().name));
                } else if j == g.len() - 1 {
                    assert(!names_match(f[i].name, ps.last().name));
                } else {
                    assert(g[i] == f[i]);
                    assert(g[j] == f[j]);
                }
            }
        }
    }
}

/// Every change of the drafts keeps profile names unique: keeping the visible
/// profile, and deleting the profiles named `name`.
pub proof fn lemma_drafts_keep_names_unique(d: DraftView, p: ProfileView, name: Seq<char>)
    requires
        names_unique(d.profiles),
    ensures
        draft_after_staging(d, p) matches Ok(e) ==> names_unique(e.profiles),
        names_unique(d.profiles.filter(|q: ProfileView| kept_after_removing(q, name))),
{
    lemma_staging_keeps_names_unique(d.profiles, d.editing_original, p);
    lemma_removal_keeps_names_unique(d.profiles, name);
}

} // verus!

verus! {

/// A GDI colour value `0x00BBGGRR`.
pub open spec fn color(red: u8, green: u8, blue: u8) -> u32 {
    (red + green * 256 + blue * 65536) as u32
}

/// The GDI colour value of red, green and blue.
pub fn rgb(red: u8, green: u8, blue: u8) -> (res: u32)
    ensures
        res == color(red, green, blue),
{
    red as u32 + green as u32 * 256 + blue as u32 * 65536
}

/// The window background.
pub const COLOR_PAPER: u32 = 0x00FC_F8F6;
/// Fields and secondary buttons.
pub const COLOR_SURFACE: u32 = 0x00FF_FDFC;
/// The navigation column.
pub const COLOR_SIDEBAR: u32 = 0x00F8_F1ED;
/// Body text.
pub const COLOR_INK: u32 = 0x002C_201B;
/// Labels and hints.
pub const COLOR_MUTED: u32 = 0x0074_6056;
/// Borders and disabled buttons.
pub const COLOR_RULE: u32 = 0x00E2_D3CB;
/// The primary accent.
pub const COLOR_ACCENT: u32 = 0x00CF_5631;
/// The selected navigation entry.
pub const COLOR_ACCENT_SOFT: u32 = 0x00FC_E6DE;
/// Error status text.
pub const COLOR_ERROR: u32 = 0x0044_35AB;
/// Success status text.
pub const COLOR_SUCCESS: u32 = 0x0058_7723;
/// The primary button while pressed.
pub const COLOR_ACCENT_PRESSED: u32 = 0x00AC_4426;

/// How a button is drawn.
#[derive(Clone, Copy, Debug, PartialEq, Eq)]
pub struct ButtonStyle {
    pub background: u32,
    pub text: u32,
    pub border: u32,
    /// Navigation buttons are left-aligned with an indent of 14 pixels; the others centred.
    pub left_aligned: bool,
}

/// Whether `id` is a navigation button.
pub open spec fn is_nav(id: u16) -> bool {
    id == ID_NAV_SERVICE || id == ID_NAV_PROMPT || id == ID_NAV_BEHAVIOR
}

/// Whether `id` is the navigation button of `page`.
pub open spec fn is_selected_nav(id: u16, page: usize) -> bool {
    (id == ID_NAV_SERVICE && page == PAGE_SERVICE) || (id == ID_NAV_PROMPT && page == PAGE_PROMPT)
        || (id == ID_NAV_BEHAVIOR && page == PAGE_BEHAVIOR)
}

/// Whether `id` is a button inside the page content or footer.
pub open spec fn is_content_button(id: u16) -> bool {
    id == ID_RESET || id == ID_PROFILE_NEW || id == ID_PROFILE_DELETE || id == ID_TEST_API || id
        == ID_ERROR_DETAILS
}

/// The look of button `id` on `page` in the given state: disabled buttons are grey,
/// the save button carries the accent, the current page's navigation entry is
/// highlighted, and the other buttons are light.
pub open spec fn button_look(id: u16, page: usize, disabled: bool, pressed: bool, hot: bool) -> ButtonStyle {
    let primary = id == ID_SAVE;
    let selected = is_selected_nav(id, page);
    let background = if disabled {
        COLOR_RULE
    } else if primary {
        if pressed { COLOR_ACCENT_PRESSED } else { COLOR_ACCENT }
    } else if selected {
        COLOR_ACCENT_SOFT
    } else if hot || pressed || is_content_button(id) {
        COLOR_SURFACE
    } else {
        COLOR_SIDEBAR
    };
    let text = if disabled {
        COLOR_MUTED
    } else if primary {
        COLOR_SURFACE
    } else if selected {
        COLOR_ACCENT
    } else {
        COLOR_INK
    };
    ButtonStyle {
        background,
        text,
        border: if primary || selected { background } else { COLOR_RULE },
        left_aligned: is_nav(id),
    }
}

/// The look of a button.
pub fn button_style(id: u16, page: usize, disabled: bool, pressed: bool, hot: bool) -> (res: ButtonStyle)
    ensures
        res == button_look(id, page, disabled, pressed, hot),
{
    let primary = id == ID_SAVE;
    let selected = (id == ID_NAV_SERVICE && page == PAGE_SERVICE) || (id == ID_NAV_PROMPT && page
        == PAGE_PROMPT) || (id == ID_NAV_BEHAVIOR && page == PAGE_BEHAVIOR);
    let content = id == ID_RESET || id == ID_PROFILE_NEW || id == ID_PROFILE_DELETE || id
        == ID_TEST_API || id == ID_ERROR_DETAILS;
    let background = if disabled {
        COLOR_RULE
    } else if primary {
        if pressed {
            COLOR_ACCENT_PRESSED
        } else {
            COLOR_ACCENT
        }
    } else if selected {
        COLOR_ACCENT_SOFT
    } else if hot || pressed || content {
        COLOR_SURFACE
    } else {
        COLOR_SIDEBAR
    };
    let text = if disabled {
        COLOR_MUTED
    } else if primary {
        COLOR_SURFACE
    } else if selected {
        COLOR_ACCENT
    } else {
        COLOR_INK
    };
    ButtonStyle {
        background,
        text,
        border: if primary || selected {
            background
        } else {
            COLOR_RULE
        },
        left_aligned: id == ID_NAV_SERVICE || id == ID_NAV_PROMPT || id == ID_NAV_BEHAVIOR,
    }
}

/// The status line in the footer: its text (an error shows a summary of 18
/// characters) and its colour (red for errors, green right after a save, else grey).
pub open spec fn footer_status(status: Seq<char>, is_error: bool, dirty: bool) -> (Seq<char>, u32) {
    let color = if is_error {
        COLOR_ERROR
    } else if !dirty && status == "已保存并应用"@ {
        COLOR_SUCCESS
    } else {
        COLOR_MUTED
    };
    (if is_error { truncated(status, 18) } else { status }, color)
}

/// The status line's text and colour.
pub fn status_appearance(status: &str, is_error: bool, dirty: bool) -> (res: (String, u32))
    ensures
        res.0@ == footer_status(status@, is_error, dirty).0,
        res.1 == footer_status(status@, is_error, dirty).1,
{
    let saved = "已保存并应用".to_owned();
    let color = if is_error {
        COLOR_ERROR
    } else if !dirty && crate::text::str_eq(status, saved.as_str()) {
        COLOR_SUCCESS
    } else {
        COLOR_MUTED
    };
    let text = if is_error {
        concise_status(status, 18)
    } else {
        status.to_owned()
    };
    (text, color)
}

/// The page title under the window title.
pub fn page_title(page: usize) -> (res: &'static str)
    ensures
        res@ == (if page == PAGE_SERVICE {
            "模型与服务"@
        } else if page == PAGE_PROMPT {
            "优化规则"@
        } else {
            "应用行为"@
        }),
{
    if page == PAGE_SERVICE {
        "模型与服务"
    } else if page == PAGE_PROMPT {
        "优化规则"
    } else {
        "应用行为"
    }
}

/// The right margin of the status line: wider when the error-details button shows.
pub fn status_right_margin(is_error: bool, dpi: u32) -> (res: i32)
    ensures
        res == scaled(if is_error { 374 } else { 272 }, dpi) as i32,
{
    scale(if is_error {
        374
    } else {
        272
    }, dpi)
}


/// Whether the rectangle `r` (`[left, top, right, bottom]`) has the given edges.
pub open spec fn rect_is(r: [i32; 4], left: int, top: int, right: int, bottom: int) -> bool {
    r[0] == left && r[1] == top && r[2] == right && r[3] == bottom
}

/// The painted parts of the settings window around the fields, as rectangles
/// `[left, top, right, bottom]`.
#[derive(Clone, Copy, Debug, PartialEq, Eq)]
pub struct Chrome {
    /// The sidebar behind the navigation.
    pub sidebar: [i32; 4],
    /// The application name in the sidebar.
    pub brand: [i32; 4],
    /// The line under the application name.
    pub brand_caption: [i32; 4],
    /// The window title.
    pub title: [i32; 4],
    /// The page title under it.
    pub subtitle: [i32; 4],
    /// The rule above the footer.
    pub footer_rule: [i32; 4],
    /// The status line.
    pub status: [i32; 4],
}

/// The chrome of a window whose client area ends at `right` and `bottom`.
pub open spec fn chrome_is(c: Chrome, right: i32, bottom: i32, dpi: u32, is_error: bool) -> bool {
    let s = |v: i32| scaled(v, dpi);
    let left = s(196) + s(38);
    let footer_top = bottom - s(72);
    &&& rect_is(c.sidebar, 0, 0, s(196), bottom as int)
    &&& rect_is(c.brand, s(20), s(24), s(196) - s(16), s(52))
    &&& rect_is(c.brand_caption, s(20), s(54), s(196) - s(16), s(76))
    &&& rect_is(c.title, left, s(24), right - s(32), s(60))
    &&& rect_is(c.subtitle, left, s(70), right - s(32), s(96))
    &&& rect_is(c.footer_rule, s(196), footer_top, right as int, footer_top + 1)
    &&& rect_is(
        c.status,
        left,
        footer_top + s(17),
        right - s(if is_error { 374 } else { 272 }),
        bottom - s(10),
    )
}

/// Where the sidebar, the titles, the footer rule and the status line are painted.
pub fn window_chrome(right: i32, bottom: i32, dpi: u32, is_error: bool) -> (res: Chrome)
    requires
        layout_domain(right, bottom, dpi),
    ensures
        chrome_is(res, right, bottom, dpi, is_error),
{
    let s196 = scale_small(196, dpi);
    let s20 = scale_small(20, dpi);
    let s24 = scale_small(24, dpi);
    let s32 = scale_small(32, dpi);
    let left = s196 + scale_small(38, dpi);
    let footer_top = bottom - scale_small(72, dpi);
    let margin = scale_small(if is_error { 374 } else { 272 }, dpi);
    Chrome {
        sidebar: [0, 0, s196, bottom],
        brand: [s20, s24, s196 - scale_small(16, dpi), scale_small(52, dpi)],
        brand_caption: [s20, scale_small(54, dpi), s196 - scale_small(16, dpi), scale_small(76, dpi)],
        title: [left, s24, right - s32, scale_small(60, dpi)],
        subtitle: [left, scale_small(70, dpi), right - s32, scale_small(96, dpi)],
        footer_rule: [s196, footer_top, right, footer_top + 1],
        status: [left, footer_top + scale_small(17, dpi), right - margin, bottom - scale_small(10, dpi)],
    }
}

} // verus!

verus! {

/// The frame of one labelled field: the control it belongs to, its label, and its
/// bounds; the label is drawn in the 22 pixels (at 96 DPI) above the frame.
#[derive(Clone, Copy, Debug, PartialEq, Eq)]
pub struct FieldFrame {
    pub control: u16,
    pub label: &'static str,
    pub x: i32,
    pub y: i32,
    pub width: i32,
    pub height: i32,
}

/// Whether `f` is the frame of `control` labelled `label` at `[x, y, w, h]`.
pub open spec fn frame_is(f: FieldFrame, control: u16, label: Seq<char>, x: int, y: int, w: int, h: int) -> bool {
    f.control == control && f.label@ == label && f.x == x && f.y == y && f.width == w && f.height == h
}

/// The field frames of `page`: the same rows as the controls they surround.
pub open spec fn frames_are(fs: Seq<FieldFrame>, page: usize, right: i32, bottom: i32, dpi: u32) -> bool {
    let s = |v: i32| scaled(v, dpi);
    let left = content_left(dpi);
    let width = content_width(right, dpi);
    let header = s(124);
    let fh = s(44);
    if page == PAGE_SERVICE {
        let half = div_toward_zero(width - s(16), 2);
        &&& fs.len() == 7
        &&& frame_is(fs[0], ID_API_PROFILE, "当前配置"@, left, header + s(10), width - s(132), fh)
        &&& frame_is(fs[1], ID_PROFILE_NAME, "配置名称"@, left, header + s(82), width, fh)
        &&& frame_is(fs[2], ID_API_KEY, "API Key"@, left, header + s(154), width, fh)
        &&& frame_is(fs[3], ID_BASE_URL, "服务地址"@, left, header + s(266), width, fh)
        &&& frame_is(fs[4], ID_MODEL, "模型"@, left, header + s(338), width, fh)
        &&& frame_is(fs[5], ID_TEMPERATURE, "温度"@, left, header + s(410), half, fh)
        &&& frame_is(fs[6], ID_MAX_TOKENS, "最大 Token 数"@, left + half + s(16), header + s(410), half, fh)
    } else if page == PAGE_PROMPT {
        &&& fs.len() == 1
        &&& frame_is(fs[0], ID_SYSTEM_PROMPT, "系统提示词"@, left, header + s(22), width, prompt_height(bottom, dpi))
    } else {
        &&& fs.len() == 1
        &&& frame_is(fs[0], ID_HOTKEY, "全局热键"@, left, header + s(22), width, fh)
    }
}

fn frame(control: u16, label: &'static str, x: i32, y: i32, width: i32, height: i32) -> (res: FieldFrame)
    ensures
        frame_is(res, control, label@, x as int, y as int, width as int, height as int),
{
    FieldFrame { control, label, x, y, width, height }
}

/// The labelled field frames of `page`.
#[verifier::rlimit(40)]
pub fn field_frames(page: usize, right: i32, bottom: i32, dpi: u32) -> (res: Vec<FieldFrame>)
    requires
        layout_domain(right, bottom, dpi),
    ensures
        frames_are(res@, page, right, bottom, dpi),
{
    let (left, _, width) = content_geometry(right, dpi);
    let header = scale_small(124, dpi);
    let fh = scale_small(44, dpi);
    let mut res: Vec<FieldFrame> = Vec::new();
    if page == PAGE_SERVICE {
        let s16 = scale_small(16, dpi);
        let half = (width - s16) / 2;
        res.push(frame(ID_API_PROFILE, "当前配置", left, header + scale_small(10, dpi), width - scale_small(132, dpi), fh));
        res.push(frame(ID_PROFILE_NAME, "配置名称", left, header + scale_small(82, dpi), width, fh));
        res.push(frame(ID_API_KEY, "API Key", left, header + scale_small(154, dpi), width, fh));
        res.push(frame(ID_BASE_URL, "服务地址", left, header + scale_small(266, dpi), width, fh));
        res.push(frame(ID_MODEL, "模型", left, header + scale_small(338, dpi), width, fh));
        let row = header + scale_small(410, dpi);
        res.push(frame(ID_TEMPERATURE, "温度", left, row, half, fh));
        res.push(frame(ID_MAX_TOKENS, "最大 Token 数", left + half + s16, row, half, fh));
    } else if page == PAGE_PROMPT {
        let s180 = scale_small(180, dpi);
        let h = bottom - scale_small(72, dpi) - header - scale_small(124, dpi);
        let prompt_h = if h >= s180 {
            h
        } else {
            s180
        };
        res.push(frame(ID_SYSTEM_PROMPT, "系统提示词", left, header + scale_small(22, dpi), width, prompt_h));
    } else {
        res.push(frame(ID_HOTKEY, "全局热键", left, header + scale_small(22, dpi), width, fh));
    }
    res
}

/// The border colour of a field frame: the accent while its control has the focus.
pub fn frame_border(focused: bool) -> (res: u32)
    ensures
        res == (if focused {
            COLOR_ACCENT
        } else {
            COLOR_RULE
        }),
{
    if focused {
        COLOR_ACCENT
    } else {
        COLOR_RULE
    }
}

/// A line of explanation painted on a page: its text, where, and whether it is set in
/// the body font and ink (else the label font, muted).
#[derive(Clone, Copy, Debug, PartialEq, Eq)]
pub struct PageNote {
    pub text: &'static str,
    pub rect: [i32; 4],
    pub emphasis: bool,
}

/// Whether `n` is the note `text` at the given edges.
pub open spec fn note_is(n: PageNote, text: Seq<char>, emphasis: bool, l: int, t: int, r: int, b: int) -> bool {
    n.text@ == text && n.emphasis == emphasis && rect_is(n.rect, l, t, r, b)
}

/// The notes of `page`: under the system prompt, that results go to the clipboard;
/// under the hotkey, examples; none on the service page.
pub open spec fn notes_are(ns: Seq<PageNote>, page: usize, right: i32, bottom: i32, dpi: u32) -> bool {
    let s = |v: i32| scaled(v, dpi);
    let left = content_left(dpi);
    let r = content_right(right, dpi);
    let header = s(124);
    if page == PAGE_SERVICE {
        ns.len() == 0
    } else if page == PAGE_PROMPT {
        let top = header + prompt_height(bottom, dpi);
        &&& ns.len() == 2
        &&& note_is(ns[0], "优化结果将复制到剪贴板"@, true, left, top + s(52), r, top + s(78))
        &&& note_is(ns[1], "不会自动替换原文字，当前无需额外设置"@, false, left, top + s(80), r, top + s(102))
    } else {
        &&& ns.len() == 1
        &&& note_is(
            ns[0],
            "示例：Ctrl+TripleA · Ctrl+DoubleA · Ctrl+F8 · Alt+Shift+P"@,
            false,
            left,
            header + s(80),
            r,
            header + s(102),
        )
    }
}

/// The notes painted on `page`.
#[verifier::rlimit(40)]
pub fn page_notes(page: usize, right: i32, bottom: i32, dpi: u32) -> (res: Vec<PageNote>)
    requires
        layout_domain(right, bottom, dpi),
    ensures
        notes_are(res@, page, right, bottom, dpi),
{
    let (left, r, _) = content_geometry(right, dpi);
    let header = scale_small(124, dpi);
    let mut res: Vec<PageNote> = Vec::new();
    if page == PAGE_PROMPT {
        let s180 = scale_small(180, dpi);
        let h = bottom - scale_small(72, dpi) - header - scale_small(124, dpi);
        let prompt_h = if h >= s180 {
            h
        } else {
            s180
        };
        let top = header + prompt_h;
        res.push(
            PageNote {
                text: "优化结果将复制到剪贴板",
                rect: [left, top + scale_small(52, dpi), r, top + scale_small(78, dpi)],
                emphasis: true,
            },
        );
        res.push(
            PageNote {
                text: "不会自动替换原文字，当前无需额外设置",
                rect: [left, top + scale_small(80, dpi), r, top + scale_small(102, dpi)],
                emphasis: false,
            },
        );
    } else if page != PAGE_SERVICE {
        res.push(
            PageNote {
                text: "示例：Ctrl+TripleA · Ctrl+DoubleA · Ctrl+F8 · Alt+Shift+P",
                rect: [left, header + scale_small(80, dpi), r, header + scale_small(102, dpi)],
                emphasis: false,
            },
        );
    }
    res
}

/// The label area above a field frame: as wide as the frame, from 24 to 2 pixels
/// (at 96 DPI) above it, as `[left, top, right, bottom]`.
pub fn label_rect(f: FieldFrame, dpi: u32) -> (res: [i32; 4])
    requires
        dpi <= 0x10_0000,
        -0x2000_0000 <= f.x <= 0x2000_0000,
        -0x2000_0000 <= f.y <= 0x2000_0000,
        -0x2000_0000 <= f.width <= 0x2000_0000,
    ensures
        res[0] == f.x,
        res[1] == f.y - scaled(24, dpi),
        res[2] == f.x + f.width,
        res[3] == f.y - scaled(2, dpi),
{
    [f.x, f.y - scale_small(24, dpi), f.x + f.width, f.y - scale_small(2, dpi)]
}


/// Whether placement `p` is the control of frame `f` as the window lays it out: moved
/// to the frame's content area (12 and 10 pixels at 96 DPI inside the border), the
/// profile list with its own drop-down height (220 at 96 DPI); at least one pixel each
/// way; and, when the frame has room for the margins, inside the frame.
pub open spec fn sits_in_frame(p: Placement, f: FieldFrame, dpi: u32) -> bool {
    let hz = scaled(12, dpi);
    let vt = scaled(10, dpi);
    &&& p.control == f.control
    &&& p.width >= 1 && p.height >= 1
    &&& p.x == f.x + hz && p.y == f.y + vt
    &&& p.width == (if f.width - 2 * hz >= 1 { f.width - 2 * hz } else { 1 })
    &&& p.height == (if f.control == ID_API_PROFILE {
        if scaled(220, dpi) >= 1 { scaled(220, dpi) } else { 1 }
    } else if f.height - 2 * vt >= 1 {
        f.height - 2 * vt
    } else {
        1
    })
    &&& f.width - 2 * hz >= 1 ==> f.x <= p.x && p.x + p.width <= f.x + f.width
    &&& (f.control != ID_API_PROFILE && f.height - 2 * vt >= 1) ==> f.y <= p.y && p.y + p.height
        <= f.y + f.height
}

proof fn lemma_field_sits_in_frame(f: FieldFrame, dpi: u32)
    requires
        dpi <= 0x10_0000,
        f.control != ID_API_PROFILE,
        -0x2000_0000 <= f.x <= 0x2000_0000,
        -0x2000_0000 <= f.y <= 0x2000_0000,
        -0x2000_0000 <= f.width <= 0x2000_0000,
        -0x2000_0000 <= f.height <= 0x2000_0000,
    ensures
        sits_in_frame(placed_field(f.control, f.x as int, f.y as int, f.width as int, f.height as int, dpi), f, dpi),
{
    lemma_scaled_bounds(10, dpi);
    lemma_scaled_bounds(12, dpi);
}

proof fn lemma_profile_list_sits_in_frame(f: FieldFrame, dpi: u32)
    requires
        dpi <= 0x10_0000,
        f.control == ID_API_PROFILE,
        -0x2000_0000 <= f.x <= 0x2000_0000,
        -0x2000_0000 <= f.y <= 0x2000_0000,
        -0x2000_0000 <= f.width <= 0x2000_0000,
        -0x2000_0000 <= f.height <= 0x2000_0000,
    ensures
        ({
            let b = placed_field(f.control, f.x as int, f.y as int, f.width as int, f.height as int, dpi);
            sits_in_frame(
                placed(ID_API_PROFILE, b.x as int, b.y as int, b.width as int, scaled(220, dpi)),
                f,
                dpi,
            )
        }),
{
    lemma_scaled_bounds(10, dpi);
    lemma_scaled_bounds(12, dpi);
    lemma_scaled_bounds(220, dpi);
}

proof fn lemma_layout_bounds(right: i32, bottom: i32, dpi: u32)
    requires
        layout_domain(right, bottom, dpi),
    ensures
        0 <= content_left(dpi) <= 30_000_000,
        0 <= content_width(right, dpi) <= 0x1200_0000,
        0 <= scaled(124, dpi) + scaled(410, dpi) <= 30_000_000,
        0 <= scaled(16, dpi) <= 11_000_000,
        0 <= scaled(44, dpi) <= 11_000_000,
        0 <= scaled(132, dpi) <= 11_000_000,
        0 <= scaled(22, dpi) <= 11_000_000,
        0 <= scaled(82, dpi) <= 11_000_000,
        0 <= scaled(154, dpi) <= 11_000_000,
        0 <= scaled(266, dpi) <= 11_000_000,
        0 <= scaled(338, dpi) <= 11_000_000,
        0 <= scaled(10, dpi) <= 11_000_000,
        0 <= prompt_height(bottom, dpi) <= 0x1200_0000,
{
    lemma_scaled_bounds(10, dpi);
    lemma_scaled_bounds(16, dpi);
    lemma_scaled_bounds(22, dpi);
    lemma_scaled_bounds(38, dpi);
    lemma_scaled_bounds(44, dpi);
    lemma_scaled_bounds(72, dpi);
    lemma_scaled_bounds(82, dpi);
    lemma_scaled_bounds(124, dpi);
    lemma_scaled_bounds(132, dpi);
    lemma_scaled_bounds(154, dpi);
    lemma_scaled_bounds(180, dpi);
    lemma_scaled_bounds(196, dpi);
    lemma_scaled_bounds(266, dpi);
    lemma_scaled_bounds(338, dpi);
    lemma_scaled_bounds(360, dpi);
    lemma_scaled_bounds(410, dpi);
}

#[verifier::rlimit(40)]
proof fn lemma_service_controls_sit_in_frames(fs: Seq<FieldFrame>, right: i32, bottom: i32, dpi: u32)
    requires
        layout_domain(right, bottom, dpi),
        frames_are(fs, PAGE_SERVICE, right, bottom, dpi),
    ensures
        ({
            let l = settings_layout(PAGE_SERVICE, right, bottom, dpi);
            &&& sits_in_frame(l[3], fs[0], dpi)
            &&& sits_in_frame(l[6], fs[1], dpi)
            &&& sits_in_frame(l[7], fs[2], dpi)
            &&& sits_in_frame(l[10], fs[3], dpi)
            &&& sits_in_frame(l[11], fs[4], dpi)
            &&& sits_in_frame(l[12], fs[5], dpi)
            &&& sits_in_frame(l[13], fs[6], dpi)
            &&& l.len() == 17
        }),
{
    lemma_layout_bounds(right, bottom, dpi);
    let l = settings_layout(PAGE_SERVICE, right, bottom, dpi);
    let sv = service_layout(right, dpi);
    assert(l =~= nav_layout(dpi) + sv + footer_layout(right, bottom, dpi));
    assert(l[3] == sv[0] && l[6] == sv[3] && l[7] == sv[4] && l[10] == sv[7]);
    assert(l[11] == sv[8] && l[12] == sv[9] && l[13] == sv[10]);
    lemma_profile_list_sits_in_frame(fs[0], dpi);
    lemma_field_sits_in_frame(fs[1], dpi);
    lemma_field_sits_in_frame(fs[2], dpi);
    lemma_field_sits_in_frame(fs[3], dpi);
    lemma_field_sits_in_frame(fs[4], dpi);
    lemma_field_sits_in_frame(fs[5], dpi);
    lemma_field_sits_in_frame(fs[6], dpi);
}

/// Every field frame painted on a page has its control laid out inside it: the layout
/// of the same page, window size and DPI places that control in the frame's content
/// area.
pub proof fn lemma_controls_sit_in_their_frames(
    fs: Seq<FieldFrame>,
    page: usize,
    right: i32,
    bottom: i32,
    dpi: u32,
)
    requires
        layout_domain(right, bottom, dpi),
        frames_are(fs, page, right, bottom, dpi),
    ensures
        forall|i: int|
            #![trigger fs[i]]
            0 <= i < fs.len() ==> exists|j: int|
                0 <= j < settings_layout(page, right, bottom, dpi).len() && sits_in_frame(
                    #[trigger] settings_layout(page, right, bottom, dpi)[j],
                    fs[i],
                    dpi,
                ),
{
    let l = settings_layout(page, right, bottom, dpi);
    if page == PAGE_SERVICE {
        lemma_service_controls_sit_in_frames(fs, right, bottom, dpi);
        assert forall|i: int| #![trigger fs[i]] 0 <= i < fs.len() implies exists|j: int|
            0 <= j < l.len() && sits_in_frame(#[trigger] l[j], fs[i], dpi) by {
            if i == 0 {
                assert(sits_in_frame(l[3], fs[i], dpi));
            } else if i == 1 {
                assert(sits_in_frame(l[6], fs[i], dpi));
            } else if i == 2 {
                assert(sits_in_frame(l[7], fs[i], dpi));
            } else if i == 3 {
                assert(sits_in_frame(l[10], fs[i], dpi));
            } else if i == 4 {
                assert(sits_in_frame(l[11], fs[i], dpi));
            } else if i == 5 {
                assert(sits_in_frame(l[12], fs[i], dpi));
            } else {
                assert(sits_in_frame(l[13], fs[i], dpi));
            }
        }
    } else {
        lemma_layout_bounds(right, bottom, dpi);
        let body = if page == PAGE_PROMPT {
            prompt_layout(right, bottom, dpi)
        } else {
            behavior_layout(right, dpi)
        };
        assert(l =~= nav_layout(dpi) + body + footer_layout(right, bottom, dpi));
        assert(l[3] == body[0]);
        lemma_field_sits_in_frame(fs[0], dpi);
        assert(sits_in_frame(l[3], fs[0], dpi));
        assert forall|i: int| #![trigger fs[i]] 0 <= i < fs.len() implies exists|j: int|
            0 <= j < l.len() && sits_in_frame(#[trigger] l[j], fs[i], dpi) by {
            assert(sits_in_frame(l[3], fs[i], dpi));
        }
    }
}

} // verus!

verus! {

/// A button was clicked (Win32 `BN_CLICKED`).
pub const BN_CLICKED: u32 = 0;

/// The selection of a combo box changed (Win32 `CBN_SELCHANGE`).
pub const CBN_SELCHANGE: u32 = 1;

/// An edit control lost focus (Win32 `EN_KILLFOCUS`).
pub const EN_KILLFOCUS: u32 = 0x0200;

/// What a `WM_COMMAND` message asks the settings window to do.
#[derive(Clone, Copy, Debug, PartialEq, Eq)]
pub enum FormCommand {
    SwitchPage(usize),
    ToggleKeyVisibility,
    Reset,
    Save,
    NewProfile,
    DeleteProfile,
    TestApi,
    ShowErrorDetails,
    MarkDirty,
    SwitchProfile,
    Repaint,
    Nothing,
}

/// The command for a notification `notification` from control `id`.
pub open spec fn command_of(id: u16, notification: u32, suppress_events: bool) -> FormCommand {
    if notification == BN_CLICKED {
        if id == ID_NAV_SERVICE {
            FormCommand::SwitchPage(PAGE_SERVICE)
        } else if id == ID_NAV_PROMPT {
            FormCommand::SwitchPage(PAGE_PROMPT)
        } else if id == ID_NAV_BEHAVIOR {
            FormCommand::SwitchPage(PAGE_BEHAVIOR)
        } else if id == ID_SHOW_KEY {
            FormCommand::ToggleKeyVisibility
        } else if id == ID_RESET {
            FormCommand::Reset
        } else if id == ID_SAVE {
            FormCommand::Save
        } else if id == ID_PROFILE_NEW {
            FormCommand::NewProfile
        } else if id == ID_PROFILE_DELETE {
            FormCommand::DeleteProfile
        } else if id == ID_TEST_API {
            FormCommand::TestApi
        } else if id == ID_ERROR_DETAILS {
            FormCommand::ShowErrorDetails
        } else if id == ID_PLAY_SOUND || id == ID_AUTO_START {
            FormCommand::MarkDirty
        } else {
            FormCommand::Nothing
        }
    } else if id == ID_API_PROFILE && notification == CBN_SELCHANGE {
        FormCommand::SwitchProfile
    } else if !suppress_events && notification == EN_CHANGE && is_edit(id) {
        FormCommand::MarkDirty
    } else if notification == EN_SETFOCUS || notification == EN_KILLFOCUS {
        FormCommand::Repaint
    } else {
        FormCommand::Nothing
    }
}

/// While the program fills in the form, no edit notification marks it changed; only an
/// explicit click still asks for it, which `FormStatus::mark_dirty` then ignores.
pub proof fn lemma_population_never_marks_dirty(id: u16, notification: u32)
    ensures
        command_of(id, notification, true) == FormCommand::MarkDirty ==> notification == BN_CLICKED,
        notification == EN_CHANGE && is_edit(id) ==> command_of(id, notification, true)
            != FormCommand::MarkDirty,
{
}

/// Decodes a `WM_COMMAND` word parameter (control id in the low 16 bits, notification
/// in the next 16) into what the settings window does.
pub fn command_for(wparam: usize, suppress_events: bool) -> (res: FormCommand)
    ensures
        res == command_of((wparam % 0x1_0000) as u16, ((wparam / 0x1_0000) % 0x1_0000) as u32, suppress_events),
{
    let id = (wparam % 0x1_0000) as u16;
    let notification = ((wparam / 0x1_0000) % 0x1_0000) as u32;
    if notification == BN_CLICKED {
        if id == ID_NAV_SERVICE {
            FormCommand::SwitchPage(PAGE_SERVICE)
        } else if id == ID_NAV_PROMPT {
            FormCommand::SwitchPage(PAGE_PROMPT)
        } else if id == ID_NAV_BEHAVIOR {
            FormCommand::SwitchPage(PAGE_BEHAVIOR)
        } else if id == ID_SHOW_KEY {
            FormCommand::ToggleKeyVisibility
        } else if id == ID_RESET {
            FormCommand::Reset
        } else if id == ID_SAVE {
            FormCommand::Save
        } else if id == ID_PROFILE_NEW {
            FormCommand::NewProfile
        } else if id == ID_PROFILE_DELETE {
            FormCommand::DeleteProfile
        } else if id == ID_TEST_API {
            FormCommand::TestApi
        } else if id == ID_ERROR_DETAILS {
            FormCommand::ShowErrorDetails
        } else if id == ID_PLAY_SOUND || id == ID_AUTO_START {
            FormCommand::MarkDirty
        } else {
            FormCommand::Nothing
        }
    } else if id == ID_API_PROFILE && notification == CBN_SELCHANGE {
        FormCommand::SwitchProfile
    } else if should_mark_dirty(suppress_events, notification, id) {
        FormCommand::MarkDirty
    } else if notification == EN_SETFOCUS || notification == EN_KILLFOCUS {
        FormCommand::Repaint
    } else {
        FormCommand::Nothing
    }
}

/// Whether control `id` shows on `page`: the profile and service controls on the
/// service page, the rules on the rules page, the hotkey and switches on the
/// behaviour page; navigation and footer controls are not page controls.
pub open spec fn shown_on(id: u16, page: usize) -> bool {
    if id == ID_API_PROFILE || id == ID_PROFILE_NAME || id == ID_PROFILE_NEW || id
        == ID_PROFILE_DELETE || id == ID_TEST_API || id == ID_API_KEY || id == ID_SHOW_KEY || id
        == ID_BASE_URL || id == ID_MODEL || id == ID_TEMPERATURE || id == ID_MAX_TOKENS {
        page == PAGE_SERVICE
    } else if id == ID_SYSTEM_PROMPT {
        page == PAGE_PROMPT
    } else if id == ID_HOTKEY || id == ID_PLAY_SOUND || id == ID_AUTO_START {
        page == PAGE_BEHAVIOR
    } else {
        true
    }
}

/// Whether control `id` shows on `page`.
pub fn visible_on_page(id: u16, page: usize) -> (res: bool)
    ensures
        res == shown_on(id, page),
{
    if id == ID_API_PROFILE || id == ID_PROFILE_NAME || id == ID_PROFILE_NEW || id
        == ID_PROFILE_DELETE || id == ID_TEST_API || id == ID_API_KEY || id == ID_SHOW_KEY || id
        == ID_BASE_URL || id == ID_MODEL || id == ID_TEMPERATURE || id == ID_MAX_TOKENS {
        page == PAGE_SERVICE
    } else if id == ID_SYSTEM_PROMPT {
        page == PAGE_PROMPT
    } else if id == ID_HOTKEY || id == ID_PLAY_SOUND || id == ID_AUTO_START {
        page == PAGE_BEHAVIOR
    } else {
        true
    }
}

/// The password character of the API key field: none while the key is shown, else `●`.
pub fn key_password_char(show_key: bool) -> (res: u32)
    ensures
        res == (if show_key { 0 } else { '●' as u32 }),
{
    if show_key {
        0
    } else {
        '●' as u32
    }
}

/// The status line and change tracking of the settings form, and whether a connection
/// test it started is still running.
#[derive(Debug, PartialEq)]
pub struct FormStatus {
    pub dirty: bool,
    pub suppress_events: bool,
    pub status: String,
    pub status_error: bool,
    pub testing_api: bool,
}

impl FormStatus {
    /// A form that matches the running configuration, showing `status`.
    pub fn clean(status: &str) -> (res: FormStatus)
        ensures
            !res.dirty && !res.suppress_events && res.status@ == status@ && !res.status_error
                && !res.testing_api,
    {
        FormStatus {
            dirty: false,
            suppress_events: false,
            status: status.to_owned(),
            status_error: false,
            testing_api: false,
        }
    }

    /// Shows a status, as an error or not.
    pub fn set_status(&mut self, status: &str, is_error: bool)
        ensures
            final(self).status@ == status@,
            final(self).status_error == is_error,
            final(self).dirty == old(self).dirty,
            final(self).suppress_events == old(self).suppress_events,
            final(self).testing_api == old(self).testing_api,
    {
        self.status = status.to_owned();
        self.status_error = is_error;
    }

    /// Marks the form changed with `status`, unless the program itself is filling it
    /// in; reports whether it did (then save and reset become available).
    pub fn mark_dirty_with_status(&mut self, status: &str) -> (changed: bool)
        ensures
            changed == !old(self).suppress_events,
            changed ==> final(self).dirty && final(self).status@ == status@ && !final(self).status_error
                && final(self).suppress_events == old(self).suppress_events
                && final(self).testing_api == old(self).testing_api,
            !changed ==> *final(self) == *old(self),
    {
        if self.suppress_events {
            return false;
        }
        self.dirty = true;
        self.set_status(status, false);
        true
    }

    /// Marks the form changed with the generic status.
    pub fn mark_dirty(&mut self) -> (changed: bool)
        ensures
            changed == !old(self).suppress_events,
            changed ==> final(self).dirty && final(self).status@ == "有尚未保存的更改"@
                && !final(self).status_error && final(self).testing_api == old(self).testing_api,
            !changed ==> *final(self) == *old(self),
    {
        self.mark_dirty_with_status("有尚未保存的更改")
    }

    /// The form matches the running configuration again.
    pub fn set_clean(&mut self, status: &str)
        ensures
            !final(self).dirty,
            final(self).status@ == status@,
            !final(self).status_error,
            final(self).suppress_events == old(self).suppress_events,
            final(self).testing_api == old(self).testing_api,
    {
        self.dirty = false;
        self.set_status(status, false);
    }

    /// Shows the outcome of a connection test, which has ended.
    pub fn complete_api_test(&mut self, result: Result<(), String>)
        ensures
            match result {
                Ok(()) => final(self).status@ == "API 连接正常"@ && !final(self).status_error,
                Err(e) => final(self).status@ == e@ && final(self).status_error,
            },
            final(self).dirty == old(self).dirty,
            final(self).suppress_events == old(self).suppress_events,
            !final(self).testing_api,
    {
        self.testing_api = false;
        match result {
            Ok(()) => self.set_status("API 连接正常", false),
            Err(error) => self.set_status(error.as_str(), true),
        }
    }
}

} // verus!
