//! The MQTT light (JSON schema) and its color modes.

use vstd::prelude::*;
use crate::discovery::entity::{Entity, EntityInvalidity, entity_invalidities};
use crate::discovery::strings::Topic;
use crate::validation::{finish, flag, invalidate_if, lemma_contains_concat, lemma_flag_contains, reports, ValidationResult};

verus! {

/// Color modes for lights.
#[derive(Debug, Clone, Copy, PartialEq, Eq, Structural)]
pub enum ColorMode {
    /// The light can be turned on or off; if supported, it must be the only mode.
    OnOff,
    /// The light can be dimmed; if supported, it must be the only mode.
    Brightness,
    /// The light can be dimmed and its color temperature is present in the state.
    ColorTemp,
    /// Hue and saturation.
    HueSaturation,
    /// Red, green and blue.
    RedGreenBlue,
    /// Red, green, blue and white.
    RedGreenBlueWhite,
    /// Red, green, blue, cold white and warm white.
    RedGreenBlueWhiteWarmWhite,
    /// White mode; the light must also support a color mode.
    White,
    /// CIE xy color.
    XY,
}

impl ColorMode {
    /// The name of the mode in discovery documents.
    pub fn as_str(&self) -> (res: &'static str)
        ensures
            res@ == match *self {
                ColorMode::OnOff => "onoff"@,
                ColorMode::Brightness => "brightness"@,
                ColorMode::ColorTemp => "color_temp"@,
                ColorMode::HueSaturation => "hs"@,
                ColorMode::RedGreenBlue => "rgb"@,
                ColorMode::RedGreenBlueWhite => "rgbw"@,
                ColorMode::RedGreenBlueWhiteWarmWhite => "rgbww"@,
                ColorMode::White => "white"@,
                ColorMode::XY => "xy"@,
            },
    {
        match self {
            ColorMode::OnOff => "onoff",
            ColorMode::Brightness => "brightness",
            ColorMode::ColorTemp => "color_temp",
            ColorMode::HueSaturation => "hs",
            ColorMode::RedGreenBlue => "rgb",
            ColorMode::RedGreenBlueWhite => "rgbw",
            ColorMode::RedGreenBlueWhiteWarmWhite => "rgbww",
            ColorMode::White => "white",
            ColorMode::XY => "xy",
        }
    }
}

/// A set of color modes.
#[derive(Debug, Clone, Copy, PartialEq, Eq, Structural)]
pub struct ColorModeSet {
    pub on_off: bool,
    pub brightness: bool,
    pub color_temp: bool,
    pub hue_saturation: bool,
    pub red_green_blue: bool,
    pub red_green_blue_white: bool,
    pub red_green_blue_white_warm_white: bool,
    pub white: bool,
    pub xy: bool,
}

/// The color modes with which a light's color can be adjusted.
pub open spec fn color_modes() -> Set<ColorMode> {
    set![
        ColorMode::HueSaturation,
        ColorMode::RedGreenBlue,
        ColorMode::RedGreenBlueWhite,
        ColorMode::RedGreenBlueWhiteWarmWhite,
        ColorMode::XY,
    ]
}

impl ColorModeSet {
    /// Whether `m` is in the set.
    pub open spec fn has(self, m: ColorMode) -> bool {
        match m {
            ColorMode::OnOff => self.on_off,
            ColorMode::Brightness => self.brightness,
            ColorMode::ColorTemp => self.color_temp,
            ColorMode::HueSaturation => self.hue_saturation,
            ColorMode::RedGreenBlue => self.red_green_blue,
            ColorMode::RedGreenBlueWhite => self.red_green_blue_white,
            ColorMode::RedGreenBlueWhiteWarmWhite => self.red_green_blue_white_warm_white,
            ColorMode::White => self.white,
            ColorMode::XY => self.xy,
        }
    }

    /// The modes in the set.
    pub open spec fn view(self) -> Set<ColorMode> {
        Set::new(|m: ColorMode| self.has(m))
    }

    /// The empty set.
    pub fn empty() -> (res: ColorModeSet)
        ensures
            res.view() == Set::<ColorMode>::empty(),
    {
        let res = ColorModeSet {
            on_off: false,
            brightness: false,
            color_temp: false,
            hue_saturation: false,
            red_green_blue: false,
            red_green_blue_white: false,
            red_green_blue_white_warm_white: false,
            white: false,
            xy: false,
        };
        assert(res.view() =~= Set::<ColorMode>::empty());
        res
    }

    /// The set with `m` added.
    pub fn insert(self, m: ColorMode) -> (res: ColorModeSet)
        ensures
            res.view() == self.view().insert(m),
    {
        let mut res = self;
        match m {
            ColorMode::OnOff => res.on_off = true,
            ColorMode::Brightness => res.brightness = true,
            ColorMode::ColorTemp => res.color_temp = true,
            ColorMode::HueSaturation => res.hue_saturation = true,
            ColorMode::RedGreenBlue => res.red_green_blue = true,
            ColorMode::RedGreenBlueWhite => res.red_green_blue_white = true,
            ColorMode::RedGreenBlueWhiteWarmWhite => res.red_green_blue_white_warm_white = true,
            ColorMode::White => res.white = true,
            ColorMode::XY => res.xy = true,
        }
        assert(res.view() =~= self.view().insert(m));
        res
    }

    /// Whether `m` is in the set.
    pub fn contains(&self, m: ColorMode) -> (res: bool)
        ensures
            res == self.view().contains(m),
    {
        match m {
            ColorMode::OnOff => self.on_off,
            ColorMode::Brightness => self.brightness,
            ColorMode::ColorTemp => self.color_temp,
            ColorMode::HueSaturation => self.hue_saturation,
            ColorMode::RedGreenBlue => self.red_green_blue,
            ColorMode::RedGreenBlueWhite => self.red_green_blue_white,
            ColorMode::RedGreenBlueWhiteWarmWhite => self.red_green_blue_white_warm_white,
            ColorMode::White => self.white,
            ColorMode::XY => self.xy,
        }
    }

    /// The number of modes in the set.
    pub fn len(&self) -> (res: u32)
        ensures
            res == self.view().len(),
    {
        let mut n: u32 = 0;
        let mut s = ColorModeSet::empty();
        if self.on_off { n = n + 1; s = s.insert(ColorMode::OnOff); }
        if self.brightness { n = n + 1; s = s.insert(ColorMode::Brightness); }
        if self.color_temp { n = n + 1; s = s.insert(ColorMode::ColorTemp); }
        if self.hue_saturation { n = n + 1; s = s.insert(ColorMode::HueSaturation); }
        if self.red_green_blue { n = n + 1; s = s.insert(ColorMode::RedGreenBlue); }
        if self.red_green_blue_white { n = n + 1; s = s.insert(ColorMode::RedGreenBlueWhite); }
        if self.red_green_blue_white_warm_white { n = n + 1; s = s.insert(ColorMode::RedGreenBlueWhiteWarmWhite); }
        if self.white { n = n + 1; s = s.insert(ColorMode::White); }
        if self.xy { n = n + 1; s = s.insert(ColorMode::XY); }
        assert(s.view() =~= self.view());
        n
    }

    /// Whether the set is empty.
    pub fn is_empty(&self) -> (res: bool)
        ensures
            res == (self.view() == Set::<ColorMode>::empty()),
    {
        let res = !(self.on_off || self.brightness || self.color_temp || self.hue_saturation || self.red_green_blue
            || self.red_green_blue_white || self.red_green_blue_white_warm_white || self.white || self.xy);
        proof {
            if !res {
                if self.on_off { assert(self.view().contains(ColorMode::OnOff)); }
                if self.brightness { assert(self.view().contains(ColorMode::Brightness)); }
                if self.color_temp { assert(self.view().contains(ColorMode::ColorTemp)); }
                if self.hue_saturation { assert(self.view().contains(ColorMode::HueSaturation)); }
                if self.red_green_blue { assert(self.view().contains(ColorMode::RedGreenBlue)); }
                if self.red_green_blue_white { assert(self.view().contains(ColorMode::RedGreenBlueWhite)); }
                if self.red_green_blue_white_warm_white { assert(self.view().contains(ColorMode::RedGreenBlueWhiteWarmWhite)); }
                if self.white { assert(self.view().contains(ColorMode::White)); }
                if self.xy { assert(self.view().contains(ColorMode::XY)); }
            } else {
                assert(self.view() =~= Set::<ColorMode>::empty());
            }
        }
        res
    }

    /// Whether the set is exactly `{m}`.
    pub fn is_only(&self, m: ColorMode) -> (res: bool)
        ensures
            res == (self.view() == set![m]),
    {
        let only = ColorModeSet::empty().insert(m);
        let res = *self == only;
        proof {
            assert(only.view() =~= set![m]);
            if !res {
                assert(self.on_off != only.on_off ==> self.view().contains(ColorMode::OnOff) != only.view().contains(ColorMode::OnOff));
                assert(self.brightness != only.brightness ==> self.view().contains(ColorMode::Brightness) != only.view().contains(ColorMode::Brightness));
                assert(self.color_temp != only.color_temp ==> self.view().contains(ColorMode::ColorTemp) != only.view().contains(ColorMode::ColorTemp));
                assert(self.hue_saturation != only.hue_saturation ==> self.view().contains(ColorMode::HueSaturation) != only.view().contains(ColorMode::HueSaturation));
                assert(self.red_green_blue != only.red_green_blue ==> self.view().contains(ColorMode::RedGreenBlue) != only.view().contains(ColorMode::RedGreenBlue));
                assert(self.red_green_blue_white != only.red_green_blue_white ==> self.view().contains(ColorMode::RedGreenBlueWhite) != only.view().contains(ColorMode::RedGreenBlueWhite));
                assert(self.red_green_blue_white_warm_white != only.red_green_blue_white_warm_white ==> self.view().contains(ColorMode::RedGreenBlueWhiteWarmWhite) != only.view().contains(ColorMode::RedGreenBlueWhiteWarmWhite));
                assert(self.white != only.white ==> self.view().contains(ColorMode::White) != only.view().contains(ColorMode::White));
                assert(self.xy != only.xy ==> self.view().contains(ColorMode::XY) != only.view().contains(ColorMode::XY));
            }
        }
        res
    }

    /// Whether the set has no mode in common with the color modes
    /// (hue/saturation, RGB, RGBW, RGBWW, xy).
    pub fn is_disjoint_from_color_modes(&self) -> (res: bool)
        ensures
            res == self.view().disjoint(color_modes()),
    {
        let res = !(self.hue_saturation || self.red_green_blue || self.red_green_blue_white
            || self.red_green_blue_white_warm_white || self.xy);
        proof {
            if !res {
                if self.hue_saturation { assert(self.view().contains(ColorMode::HueSaturation) && color_modes().contains(ColorMode::HueSaturation)); }
                if self.red_green_blue { assert(self.view().contains(ColorMode::RedGreenBlue) && color_modes().contains(ColorMode::RedGreenBlue)); }
                if self.red_green_blue_white { assert(self.view().contains(ColorMode::RedGreenBlueWhite) && color_modes().contains(ColorMode::RedGreenBlueWhite)); }
                if self.red_green_blue_white_warm_white { assert(self.view().contains(ColorMode::RedGreenBlueWhiteWarmWhite) && color_modes().contains(ColorMode::RedGreenBlueWhiteWarmWhite)); }
                if self.xy { assert(self.view().contains(ColorMode::XY) && color_modes().contains(ColorMode::XY)); }
            }
        }
        res
    }
}

/// Why a set of supported color modes is not valid.
#[derive(Debug, Clone, Copy, PartialEq, Eq, Structural)]
pub enum ColorModesInvalidity {
    OnOffWithOthers,
    BrightnessWithOthers,
    WhiteWithoutColorModes,
}

/// Checks a set of supported color modes.
pub struct ColorModeSetValidator;

/// The invalidities of a set of supported color modes: on/off and brightness
/// must each be the only mode when supported, and white needs a color mode.
pub open spec fn color_mode_set_invalidities(v: Set<ColorMode>) -> Seq<ColorModesInvalidity> {
    flag(v.contains(ColorMode::OnOff) && v != set![ColorMode::OnOff], ColorModesInvalidity::OnOffWithOthers)
        + flag(v.contains(ColorMode::Brightness) && v != set![ColorMode::Brightness], ColorModesInvalidity::BrightnessWithOthers)
        + flag(v.contains(ColorMode::White) && v.disjoint(color_modes()), ColorModesInvalidity::WhiteWithoutColorModes)
}

impl ColorModeSetValidator {
    /// Appends the invalidities of `value` to `found`.
    pub fn validate_value(&self, value: &ColorModeSet, found: &mut Vec<ColorModesInvalidity>)
        ensures
            final(found)@ == old(found)@ + color_mode_set_invalidities(value.view()),
    {
        let ghost start = found@;
        let v = *value;
        invalidate_if(found, v.contains(ColorMode::OnOff) && !v.is_only(ColorMode::OnOff), ColorModesInvalidity::OnOffWithOthers);
        invalidate_if(found, v.contains(ColorMode::Brightness) && !v.is_only(ColorMode::Brightness), ColorModesInvalidity::BrightnessWithOthers);
        invalidate_if(found, v.contains(ColorMode::White) && v.is_disjoint_from_color_modes(), ColorModesInvalidity::WhiteWithoutColorModes);
        assert(found@ =~= start + color_mode_set_invalidities(value.view()));
    }
}

/// Why a [`Light`] is not valid.
#[derive(Copy, Clone, Debug, Eq, PartialEq, Structural)]
pub enum LightInvalidity {
    Entity(EntityInvalidity),
    SupportedColorModes(ColorModesInvalidity),
    ColorModeWithoutSupportedColorModes,
}

/// The mqtt light platform (JSON schema) lets you control your MQTT enabled lights.
#[derive(Debug)]
pub struct Light {
    pub entity: Entity,
    /// Whether the light supports brightness.
    pub brightness: Option<bool>,
    /// The maximum brightness value (255 by default).
    pub brightness_scale: Option<u8>,
    /// Whether the light supports color modes.
    pub color_mode: Option<bool>,
    /// The MQTT topic to publish commands to change the light's state.
    pub command_topic: Topic,
    /// Whether the light supports effects.
    pub effect: Option<bool>,
    /// The effects the light supports.
    pub effect_list: Vec<String>,
    /// The duration in seconds of a long flash (10 by default).
    pub flash_time_long: Option<u8>,
    /// The duration in seconds of a short flash (2 by default).
    pub flash_time_short: Option<u8>,
    /// The maximum color temperature in mireds.
    pub max_mireds: Option<u16>,
    /// The minimum color temperature in mireds.
    pub min_mireds: Option<u16>,
    /// Whether the light works in optimistic mode.
    pub optimistic: Option<bool>,
    /// Whether published messages have the retain flag (by default they have not).
    pub retain: Option<bool>,
    /// The MQTT topic subscribed to receive state updates.
    pub state_topic: Option<Topic>,
    /// The color modes the light supports; required when `color_mode` is true.
    pub supported_color_modes: ColorModeSet,
    /// The maximum white level (255 by default).
    pub white_value_scale: Option<u8>,
}

/// The invalidities of a light: those of its common fields, then those of its
/// supported color modes, then `ColorModeWithoutSupportedColorModes` when it
/// supports color modes but lists none.
pub open spec fn light_invalidities(l: Light) -> Seq<LightInvalidity> {
    entity_invalidities(l.entity).map_values(|i: EntityInvalidity| LightInvalidity::Entity(i))
        + color_mode_set_invalidities(l.supported_color_modes.view()).map_values(
            |i: ColorModesInvalidity| LightInvalidity::SupportedColorModes(i),
        )
        + flag(
            l.color_mode == Some(true) && l.supported_color_modes.view() == Set::<ColorMode>::empty(),
            LightInvalidity::ColorModeWithoutSupportedColorModes,
        )
}

impl Light {
    /// A light commanded on `command_topic`, with default fields.
    pub fn new(command_topic: Topic) -> (res: Light)
        ensures
            res.entity.is_blank(),
            res.command_topic == command_topic,
            res.color_mode is None,
            res.effect_list@.len() == 0,
            res.state_topic is None,
            res.supported_color_modes.view() == Set::<ColorMode>::empty(),
    {
        Light {
            entity: Entity::new(),
            brightness: None,
            brightness_scale: None,
            color_mode: None,
            command_topic,
            effect: None,
            effect_list: Vec::new(),
            flash_time_long: None,
            flash_time_short: None,
            max_mireds: None,
            min_mireds: None,
            optimistic: None,
            retain: None,
            state_topic: None,
            supported_color_modes: ColorModeSet::empty(),
            white_value_scale: None,
        }
    }

    /// Appends the light-specific invalidity to `found`: color modes supported
    /// but none listed.
    pub fn validate_value(&self, found: &mut Vec<LightInvalidity>)
        ensures
            final(found)@ == old(found)@ + flag(
                self.color_mode == Some(true) && self.supported_color_modes.view() == Set::<ColorMode>::empty(),
                LightInvalidity::ColorModeWithoutSupportedColorModes,
            ),
    {
        let supports = match self.color_mode {
            Some(b) => b,
            None => false,
        };
        invalidate_if(found, supports && self.supported_color_modes.is_empty(), LightInvalidity::ColorModeWithoutSupportedColorModes);
    }

    /// Checks the common fields, the supported color modes, and that color
    /// modes are listed when they are supported.
    pub fn validate(&self) -> (res: ValidationResult<LightInvalidity>)
        ensures
            reports(res, light_invalidities(*self)),
    {
        let mut own: Vec<EntityInvalidity> = Vec::new();
        self.entity.validate_into(&mut own);
        let mut found: Vec<LightInvalidity> = Vec::new();
        let n = own.len();
        let mut j: usize = 0;
        while j < n
            invariant
                n == own.len(),
                j <= n,
                found@ == own@.subrange(0, j as int).map_values(|i: EntityInvalidity| LightInvalidity::Entity(i)),
            decreases n - j,
        {
            found.push(LightInvalidity::Entity(own[j]));
            assert(own@.subrange(0, j + 1) =~= own@.subrange(0, j as int).push(own[j as int]));
            j = j + 1;
        }
        assert(own@.subrange(0, n as int) =~= own@);
        let ghost mid = found@;
        let mut modes: Vec<ColorModesInvalidity> = Vec::new();
        ColorModeSetValidator.validate_value(&self.supported_color_modes, &mut modes);
        let m = modes.len();
        let mut k: usize = 0;
        while k < m
            invariant
                m == modes.len(),
                k <= m,
                found@ == mid + modes@.subrange(0, k as int).map_values(|i: ColorModesInvalidity| LightInvalidity::SupportedColorModes(i)),
            decreases m - k,
        {
            found.push(LightInvalidity::SupportedColorModes(modes[k]));
            assert(modes@.subrange(0, k + 1) =~= modes@.subrange(0, k as int).push(modes[k as int]));
            k = k + 1;
        }
        assert(modes@.subrange(0, m as int) =~= modes@);
        self.validate_value(&mut found);
        assert(found@ =~= light_invalidities(*self));
        finish(found)
    }
}

/// `v` holds a mode other than `m`.
pub open spec fn has_other_than(v: Set<ColorMode>, m: ColorMode) -> bool {
    exists|o: ColorMode| o != m && #[trigger] v.contains(o)
}

/// `v` is `{m}` exactly when it holds `m` and nothing else.
proof fn lemma_only(v: Set<ColorMode>, m: ColorMode)
    requires
        v.contains(m),
    ensures
        v == set![m] <==> !has_other_than(v, m),
{
    if !has_other_than(v, m) {
        assert(v =~= set![m]);
    }
    if has_other_than(v, m) {
        let o = choose|o: ColorMode| o != m && #[trigger] v.contains(o);
        assert(!set![m].contains(o));
    }
}

/// Which invalidities a set of supported color modes reports: on/off exactly
/// when it holds on/off and another mode, brightness exactly when it holds
/// brightness and another mode, and white without a color mode exactly when
/// it holds white but none of hue/saturation, RGB, RGBW, RGBWW and XY (so a
/// set with white and RGB reports nothing about white).
pub proof fn law_color_mode_set_rules(v: Set<ColorMode>)
    ensures
        color_mode_set_invalidities(v).contains(ColorModesInvalidity::OnOffWithOthers) <==> v.contains(ColorMode::OnOff)
            && has_other_than(v, ColorMode::OnOff),
        color_mode_set_invalidities(v).contains(ColorModesInvalidity::BrightnessWithOthers) <==> v.contains(
            ColorMode::Brightness,
        ) && has_other_than(v, ColorMode::Brightness),
        color_mode_set_invalidities(v).contains(ColorModesInvalidity::WhiteWithoutColorModes) <==> {
            &&& v.contains(ColorMode::White)
            &&& !v.contains(ColorMode::HueSaturation)
            &&& !v.contains(ColorMode::RedGreenBlue)
            &&& !v.contains(ColorMode::RedGreenBlueWhite)
            &&& !v.contains(ColorMode::RedGreenBlueWhiteWarmWhite)
            &&& !v.contains(ColorMode::XY)
        },
        color_mode_set_invalidities(v).len() == 0 <==> {
            &&& !(v.contains(ColorMode::OnOff) && has_other_than(v, ColorMode::OnOff))
            &&& !(v.contains(ColorMode::Brightness) && has_other_than(v, ColorMode::Brightness))
            &&& !(v.contains(ColorMode::White) && !v.contains(ColorMode::HueSaturation) && !v.contains(ColorMode::RedGreenBlue)
                && !v.contains(ColorMode::RedGreenBlueWhite) && !v.contains(ColorMode::RedGreenBlueWhiteWarmWhite)
                && !v.contains(ColorMode::XY))
        },
{
    let c1 = v.contains(ColorMode::OnOff) && v != set![ColorMode::OnOff];
    let c2 = v.contains(ColorMode::Brightness) && v != set![ColorMode::Brightness];
    let c3 = v.contains(ColorMode::White) && v.disjoint(color_modes());
    let f1 = flag(c1, ColorModesInvalidity::OnOffWithOthers);
    let f2 = flag(c2, ColorModesInvalidity::BrightnessWithOthers);
    let f3 = flag(c3, ColorModesInvalidity::WhiteWithoutColorModes);
    if v.contains(ColorMode::OnOff) {
        lemma_only(v, ColorMode::OnOff);
    }
    if v.contains(ColorMode::Brightness) {
        lemma_only(v, ColorMode::Brightness);
    }
    assert(color_modes().contains(ColorMode::HueSaturation));
    assert(color_modes().contains(ColorMode::RedGreenBlue));
    assert(color_modes().contains(ColorMode::RedGreenBlueWhite));
    assert(color_modes().contains(ColorMode::RedGreenBlueWhiteWarmWhite));
    assert(color_modes().contains(ColorMode::XY));
    let xs = seq![
        ColorModesInvalidity::OnOffWithOthers,
        ColorModesInvalidity::BrightnessWithOthers,
        ColorModesInvalidity::WhiteWithoutColorModes,
    ];
    assert forall|k: int| 0 <= k < 3 implies (color_mode_set_invalidities(v).contains(#[trigger] xs[k]) <==> {
        ||| c1 && ColorModesInvalidity::OnOffWithOthers == xs[k]
        ||| c2 && ColorModesInvalidity::BrightnessWithOthers == xs[k]
        ||| c3 && ColorModesInvalidity::WhiteWithoutColorModes == xs[k]
    }) by {
        lemma_contains_concat(f1 + f2, f3, xs[k]);
        lemma_contains_concat(f1, f2, xs[k]);
        lemma_flag_contains(c1, ColorModesInvalidity::OnOffWithOthers, xs[k]);
        lemma_flag_contains(c2, ColorModesInvalidity::BrightnessWithOthers, xs[k]);
        lemma_flag_contains(c3, ColorModesInvalidity::WhiteWithoutColorModes, xs[k]);
    }
    assert(xs[0] == ColorModesInvalidity::OnOffWithOthers);
    assert(xs[1] == ColorModesInvalidity::BrightnessWithOthers);
    assert(xs[2] == ColorModesInvalidity::WhiteWithoutColorModes);
    lemma_flag_contains(c1, ColorModesInvalidity::OnOffWithOthers, xs[0]);
    lemma_flag_contains(c2, ColorModesInvalidity::BrightnessWithOthers, xs[0]);
    lemma_flag_contains(c3, ColorModesInvalidity::WhiteWithoutColorModes, xs[0]);
}

/// A light reports that white lacks a color mode exactly when its supported
/// color modes hold white but none of hue/saturation, RGB, RGBW, RGBWW and XY.
pub proof fn law_light_white_needs_color_mode(l: Light)
    ensures
        light_invalidities(l).contains(LightInvalidity::SupportedColorModes(ColorModesInvalidity::WhiteWithoutColorModes)) <==> {
            let m = l.supported_color_modes;
            &&& m.white
            &&& !m.hue_saturation
            &&& !m.red_green_blue
            &&& !m.red_green_blue_white
            &&& !m.red_green_blue_white_warm_white
            &&& !m.xy
        },
{
    let v = l.supported_color_modes.view();
    let x = LightInvalidity::SupportedColorModes(ColorModesInvalidity::WhiteWithoutColorModes);
    let e = entity_invalidities(l.entity).map_values(|i: EntityInvalidity| LightInvalidity::Entity(i));
    let s = color_mode_set_invalidities(v).map_values(|i: ColorModesInvalidity| LightInvalidity::SupportedColorModes(i));
    let f = flag(
        l.color_mode == Some(true) && l.supported_color_modes.view() == Set::<ColorMode>::empty(),
        LightInvalidity::ColorModeWithoutSupportedColorModes,
    );
    law_color_mode_set_rules(v);
    lemma_contains_concat(e + s, f, x);
    lemma_contains_concat(e, s, x);
    lemma_flag_contains(
        l.color_mode == Some(true) && l.supported_color_modes.view() == Set::<ColorMode>::empty(),
        LightInvalidity::ColorModeWithoutSupportedColorModes,
        x,
    );
    if e.contains(x) {
        let i = choose|i: int| 0 <= i < e.len() && e[i] == x;
        assert(e[i] is Entity);
    }
    let w = ColorModesInvalidity::WhiteWithoutColorModes;
    if s.contains(x) {
        let i = choose|i: int| 0 <= i < s.len() && s[i] == x;
        assert(color_mode_set_invalidities(v)[i] == w);
    }
    if color_mode_set_invalidities(v).contains(w) {
        let i = choose|i: int| 0 <= i < color_mode_set_invalidities(v).len() && color_mode_set_invalidities(v)[i] == w;
        assert(s[i] == x);
    }
    assert(v.contains(ColorMode::White) == l.supported_color_modes.white);
    assert(v.contains(ColorMode::HueSaturation) == l.supported_color_modes.hue_saturation);
    assert(v.contains(ColorMode::RedGreenBlue) == l.supported_color_modes.red_green_blue);
    assert(v.contains(ColorMode::RedGreenBlueWhite) == l.supported_color_modes.red_green_blue_white);
    assert(v.contains(ColorMode::RedGreenBlueWhiteWarmWhite) == l.supported_color_modes.red_green_blue_white_warm_white);
    assert(v.contains(ColorMode::XY) == l.supported_color_modes.xy);
}

} // verus!
