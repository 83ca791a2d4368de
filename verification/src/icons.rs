//! The glyph that stands for a weather condition, in each icon style.

use vstd::prelude::*;
use crate::text::{parse_unsigned, unsigned_value};

verus! {

/// A set of glyphs from which the icons are taken.
#[derive(Debug, Clone, Copy, PartialEq, Eq, Structural)]
pub enum IconStyle {
    /// The coloured pictographs.
    Emoji,
    /// The symbols of the patched fonts.
    Nerd,
    /// The symbols of the patched fonts, with the moon for a clear sky.
    NerdNight,
}

/// Text of the glyph shown for a condition code that the tables do not hold.
pub open spec fn fallback_glyph() -> Seq<char> {
    "?"@
}

/// Whether the forecast service uses this condition code.
pub open spec fn is_known_code(code: i32) -> bool {
    code == 113
        || code == 116
        || code == 119
        || code == 122
        || code == 143
        || code == 176
        || code == 179
        || code == 182
        || code == 185
        || code == 200
        || code == 227
        || code == 230
        || code == 248
        || code == 260
        || code == 263
        || code == 266
        || code == 281
        || code == 284
        || code == 293
        || code == 296
        || code == 299
        || code == 302
        || code == 305
        || code == 308
        || code == 311
        || code == 314
        || code == 317
        || code == 320
        || code == 323
        || code == 326
        || code == 329
        || code == 332
        || code == 335
        || code == 338
        || code == 350
        || code == 353
        || code == 356
        || code == 359
        || code == 362
        || code == 365
        || code == 368
        || code == 371
        || code == 374
        || code == 377
        || code == 386
        || code == 389
        || code == 392
        || code == 395
        || code == 398
        || code == 401
        || code == 404
        || code == 407
        || code == 410
        || code == 413
        || code == 416
        || code == 419
        || code == 422
        || code == 425
        || code == 428
        || code == 431
}

/// The table of the coloured pictographs: the glyph of each condition code.
pub open spec fn emoji_glyph(code: i32) -> Option<Seq<char>> {
    match code {
        113i32 => Some("☀️"@),
        116i32 => Some("🌤️"@),
        119i32 => Some("☁️"@),
        122i32 => Some("🌥️"@),
        143i32 => Some("🌫️"@),
        176i32 => Some("🌦️"@),
        179i32 => Some("🌧️"@),
        182i32 => Some("🌧️"@),
        185i32 => Some("🌧️"@),
        200i32 => Some("🌩️"@),
        227i32 => Some("❄️"@),
        230i32 => Some("❄️"@),
        248i32 => Some("🌫️"@),
        260i32 => Some("🌫️"@),
        263i32 => Some("🌧️"@),
        266i32 => Some("🌧️"@),
        281i32 => Some("🌦️"@),
        284i32 => Some("🌦️"@),
        293i32 => Some("🌧️"@),
        296i32 => Some("🌧️"@),
        299i32 => Some("🌧️"@),
        302i32 => Some("🌧️"@),
        305i32 => Some("🌧️"@),
        308i32 => Some("🌧️"@),
        311i32 => Some("🌧️"@),
        314i32 => Some("🌧️"@),
        317i32 => Some("🌧️"@),
        320i32 => Some("🌨️"@),
        323i32 => Some("🌨️"@),
        326i32 => Some("🌨️"@),
        329i32 => Some("🌨️"@),
        332i32 => Some("🌨️"@),
        335i32 => Some("🌨️"@),
        338i32 => Some("🌨️"@),
        350i32 => Some("🌨️"@),
        353i32 => Some("🌧️"@),
        356i32 => Some("🌧️"@),
        359i32 => Some("🌧️"@),
        362i32 => Some("🌨️"@),
        365i32 => Some("🌨️"@),
        368i32 => Some("🌨️"@),
        371i32 => Some("🌨️"@),
        374i32 => Some("🌨️"@),
        377i32 => Some("🌨️"@),
        386i32 => Some("🌩️"@),
        389i32 => Some("🌨️"@),
        392i32 => Some("🌨️"@),
        395i32 => Some("🌨️"@),
        398i32 => Some("🌨️"@),
        401i32 => Some("🌨️"@),
        404i32 => Some("🌨️"@),
        407i32 => Some("🌨️"@),
        410i32 => Some("🌨️"@),
        413i32 => Some("🌨️"@),
        416i32 => Some("🌨️"@),
        419i32 => Some("🌨️"@),
        422i32 => Some("🌨️"@),
        425i32 => Some("🌨️"@),
        428i32 => Some("🌨️"@),
        431i32 => Some("🌨️"@),
        _ => None,
    }
}

/// The table of the symbols of the patched fonts: the glyph of each condition code.
pub open spec fn nerd_glyph(code: i32) -> Option<Seq<char>> {
    match code {
        113i32 => Some("󰖙"@),
        116i32 => Some("󰖕"@),
        119i32 => Some("󰼰"@),
        122i32 => Some("󰖐"@),
        143i32 => Some("󰖑"@),
        176i32 => Some("󰖗"@),
        179i32 => Some("󰙿"@),
        182i32 => Some("󰙿"@),
        185i32 => Some("󰙿"@),
        200i32 => Some("󰙾"@),
        227i32 => Some("󰖘"@),
        230i32 => Some("󰼶"@),
        248i32 => Some("󰖑"@),
        260i32 => Some("󰖑"@),
        263i32 => Some("󰖗"@),
        266i32 => Some("󰖗"@),
        281i32 => Some("󰙿"@),
        284i32 => Some("󰙿"@),
        293i32 => Some("󰖗"@),
        296i32 => Some("󰖗"@),
        299i32 => Some("󰖖"@),
        302i32 => Some("󰖖"@),
        305i32 => Some("󰖖"@),
        308i32 => Some("󰖖"@),
        311i32 => Some("󰙿"@),
        314i32 => Some("󰙿"@),
        317i32 => Some("󰙿"@),
        320i32 => Some("󰖘"@),
        323i32 => Some("󰖘"@),
        326i32 => Some("󰖘"@),
        329i32 => Some("󰼶"@),
        332i32 => Some("󰼶"@),
        335i32 => Some("󰼶"@),
        338i32 => Some("󰼶"@),
        350i32 => Some("󰙿"@),
        353i32 => Some("󰖗"@),
        356i32 => Some("󰖖"@),
        359i32 => Some("󰖖"@),
        362i32 => Some("󰙿"@),
        365i32 => Some("󰙿"@),
        368i32 => Some("󰖘"@),
        371i32 => Some("󰼶"@),
        374i32 => Some("󰙿"@),
        377i32 => Some("󰙿"@),
        386i32 => Some("󰙾"@),
        389i32 => Some("󰙾"@),
        392i32 => Some("󰙾"@),
        395i32 => Some("󰼶"@),
        398i32 => Some("󰖗"@),
        401i32 => Some("󰖗"@),
        404i32 => Some("󰖗"@),
        407i32 => Some("󰖗"@),
        410i32 => Some("󰖗"@),
        413i32 => Some("󰖗"@),
        416i32 => Some("󰖗"@),
        419i32 => Some("󰖗"@),
        422i32 => Some("󰖗"@),
        425i32 => Some("󰖗"@),
        428i32 => Some("󰖗"@),
        431i32 => Some("󰖗"@),
        _ => None,
    }
}

/// The table of the symbols of the patched fonts, with the moon for a clear
/// sky: the glyph of each condition code.
pub open spec fn nerd_night_glyph(code: i32) -> Option<Seq<char>> {
    match code {
        113i32 => Some("󰖔"@),
        116i32 => Some("󰼱"@),
        119i32 => Some("󰼱"@),
        122i32 => Some("󰖐"@),
        143i32 => Some("󰖑"@),
        176i32 => Some("󰖗"@),
        179i32 => Some("󰙿"@),
        182i32 => Some("󰙿"@),
        185i32 => Some("󰙿"@),
        200i32 => Some("󰙾"@),
        227i32 => Some("󰖘"@),
        230i32 => Some("󰼶"@),
        248i32 => Some("󰖑"@),
        260i32 => Some("󰖑"@),
        263i32 => Some("󰖗"@),
        266i32 => Some("󰖗"@),
        281i32 => Some("󰙿"@),
        284i32 => Some("󰙿"@),
        293i32 => Some("󰖗"@),
        296i32 => Some("󰖗"@),
        299i32 => Some("󰖖"@),
        302i32 => Some("󰖖"@),
        305i32 => Some("󰖖"@),
        308i32 => Some("󰖖"@),
        311i32 => Some("󰙿"@),
        314i32 => Some("󰙿"@),
        317i32 => Some("󰙿"@),
        320i32 => Some("󰖘"@),
        323i32 => Some("󰖘"@),
        326i32 => Some("󰖘"@),
        329i32 => Some("󰼶"@),
        332i32 => Some("󰼶"@),
        335i32 => Some("󰼶"@),
        338i32 => Some("󰼶"@),
        350i32 => Some("󰙿"@),
        353i32 => Some("󰖗"@),
        356i32 => Some("󰖖"@),
        359i32 => Some("󰖖"@),
        362i32 => Some("󰙿"@),
        365i32 => Some("󰙿"@),
        368i32 => Some("󰖘"@),
        371i32 => Some("󰼶"@),
        374i32 => Some("󰙿"@),
        377i32 => Some("󰙿"@),
        386i32 => Some("󰙾"@),
        389i32 => Some("󰙾"@),
        392i32 => Some("󰙾"@),
        395i32 => Some("󰼶"@),
        398i32 => Some("󰖗"@),
        401i32 => Some("󰖗"@),
        404i32 => Some("󰖗"@),
        407i32 => Some("󰖗"@),
        410i32 => Some("󰖗"@),
        413i32 => Some("󰖗"@),
        416i32 => Some("󰖗"@),
        419i32 => Some("󰖗"@),
        422i32 => Some("󰖗"@),
        425i32 => Some("󰖗"@),
        428i32 => Some("󰖗"@),
        431i32 => Some("󰖗"@),
        _ => None,
    }
}

impl IconStyle {
    /// The glyph that this style has for a condition code, if it has one.
    pub open spec fn glyph(self, code: i32) -> Option<Seq<char>> {
        match self {
            IconStyle::Emoji => emoji_glyph(code),
            IconStyle::Nerd => nerd_glyph(code),
            IconStyle::NerdNight => nerd_night_glyph(code),
        }
    }

    /// Text of the sign that goes before a day's highest temperature.
    pub open spec fn high_sign(self) -> Seq<char> {
        match self {
            IconStyle::Emoji => "⬆️"@,
            _ => "󰳡"@,
        }
    }

    /// Text of the sign that goes before a day's lowest temperature.
    pub open spec fn low_sign(self) -> Seq<char> {
        match self {
            IconStyle::Emoji => "⬇️"@,
            _ => "󰳛"@,
        }
    }

    /// Text of the sign that goes before the time of sunrise.
    pub open spec fn sunrise_sign(self) -> Seq<char> {
        match self {
            IconStyle::Emoji => "🌅"@,
            _ => "󰖜"@,
        }
    }

    /// Text of the sign that goes before the time of sunset.
    pub open spec fn sunset_sign(self) -> Seq<char> {
        match self {
            IconStyle::Emoji => "🌇"@,
            _ => "󰖛"@,
        }
    }

    /// Looks a condition code up in the table of this style.
    pub fn lookup(&self, code: i32) -> (r: Option<&'static str>)
        ensures
            r is Some == is_known_code(code),
            match self.glyph(code) {
                Some(g) => r is Some && r.unwrap()@ == g,
                None => r is None,
            },
    {
        match self {
            IconStyle::Emoji => lookup_emoji(code),
            IconStyle::Nerd => lookup_nerd(code),
            IconStyle::NerdNight => lookup_nerd_night(code),
        }
    }

    /// The sign that goes before a day's highest temperature.
    pub fn high(&self) -> (r: &'static str)
        ensures
            r@ == self.high_sign(),
    {
        match self {
            IconStyle::Emoji => "⬆️",
            _ => "󰳡",
        }
    }

    /// The sign that goes before a day's lowest temperature.
    pub fn low(&self) -> (r: &'static str)
        ensures
            r@ == self.low_sign(),
    {
        match self {
            IconStyle::Emoji => "⬇️",
            _ => "󰳛",
        }
    }

    /// The sign that goes before the time of sunrise.
    pub fn sunrise(&self) -> (r: &'static str)
        ensures
            r@ == self.sunrise_sign(),
    {
        match self {
            IconStyle::Emoji => "🌅",
            _ => "󰖜",
        }
    }

    /// The sign that goes before the time of sunset.
    pub fn sunset(&self) -> (r: &'static str)
        ensures
            r@ == self.sunset_sign(),
    {
        match self {
            IconStyle::Emoji => "🌇",
            _ => "󰖛",
        }
    }
}

fn lookup_emoji(code: i32) -> (r: Option<&'static str>)
    ensures
        r is Some == is_known_code(code),
        match emoji_glyph(code) {
            Some(g) => r is Some && r.unwrap()@ == g,
            None => r is None,
        },
{
    match code {
        113i32 => Some("☀️"),
        116i32 => Some("🌤️"),
        119i32 => Some("☁️"),
        122i32 => Some("🌥️"),
        143i32 => Some("🌫️"),
        176i32 => Some("🌦️"),
        179i32 => Some("🌧️"),
        182i32 => Some("🌧️"),
        185i32 => Some("🌧️"),
        200i32 => Some("🌩️"),
        227i32 => Some("❄️"),
        230i32 => Some("❄️"),
        248i32 => Some("🌫️"),
        260i32 => Some("🌫️"),
        263i32 => Some("🌧️"),
        266i32 => Some("🌧️"),
        281i32 => Some("🌦️"),
        284i32 => Some("🌦️"),
        293i32 => Some("🌧️"),
        296i32 => Some("🌧️"),
        299i32 => Some("🌧️"),
        302i32 => Some("🌧️"),
        305i32 => Some("🌧️"),
        308i32 => Some("🌧️"),
        311i32 => Some("🌧️"),
        314i32 => Some("🌧️"),
        317i32 => Some("🌧️"),
        320i32 => Some("🌨️"),
        323i32 => Some("🌨️"),
        326i32 => Some("🌨️"),
        329i32 => Some("🌨️"),
        332i32 => Some("🌨️"),
        335i32 => Some("🌨️"),
        338i32 => Some("🌨️"),
        350i32 => Some("🌨️"),
        353i32 => Some("🌧️"),
        356i32 => Some("🌧️"),
        359i32 => Some("🌧️"),
        362i32 => Some("🌨️"),
        365i32 => Some("🌨️"),
        368i32 => Some("🌨️"),
        371i32 => Some("🌨️"),
        374i32 => Some("🌨️"),
        377i32 => Some("🌨️"),
        386i32 => Some("🌩️"),
        389i32 => Some("🌨️"),
        392i32 => Some("🌨️"),
        395i32 => Some("🌨️"),
        398i32 => Some("🌨️"),
        401i32 => Some("🌨️"),
        404i32 => Some("🌨️"),
        407i32 => Some("🌨️"),
        410i32 => Some("🌨️"),
        413i32 => Some("🌨️"),
        416i32 => Some("🌨️"),
        419i32 => Some("🌨️"),
        422i32 => Some("🌨️"),
        425i32 => Some("🌨️"),
        428i32 => Some("🌨️"),
        431i32 => Some("🌨️"),
        _ => None,
    }
}

fn lookup_nerd(code: i32) -> (r: Option<&'static str>)
    ensures
        r is Some == is_known_code(code),
        match nerd_glyph(code) {
            Some(g) => r is Some && r.unwrap()@ == g,
            None => r is None,
        },
{
    match code {
        113i32 => Some("󰖙"),
        116i32 => Some("󰖕"),
        119i32 => Some("󰼰"),
        122i32 => Some("󰖐"),
        143i32 => Some("󰖑"),
        176i32 => Some("󰖗"),
        179i32 => Some("󰙿"),
        182i32 => Some("󰙿"),
        185i32 => Some("󰙿"),
        200i32 => Some("󰙾"),
        227i32 => Some("󰖘"),
        230i32 => Some("󰼶"),
        248i32 => Some("󰖑"),
        260i32 => Some("󰖑"),
        263i32 => Some("󰖗"),
        266i32 => Some("󰖗"),
        281i32 => Some("󰙿"),
        284i32 => Some("󰙿"),
        293i32 => Some("󰖗"),
        296i32 => Some("󰖗"),
        299i32 => Some("󰖖"),
        302i32 => Some("󰖖"),
        305i32 => Some("󰖖"),
        308i32 => Some("󰖖"),
        311i32 => Some("󰙿"),
        314i32 => Some("󰙿"),
        317i32 => Some("󰙿"),
        320i32 => Some("󰖘"),
        323i32 => Some("󰖘"),
        326i32 => Some("󰖘"),
        329i32 => Some("󰼶"),
        332i32 => Some("󰼶"),
        335i32 => Some("󰼶"),
        338i32 => Some("󰼶"),
        350i32 => Some("󰙿"),
        353i32 => Some("󰖗"),
        356i32 => Some("󰖖"),
        359i32 => Some("󰖖"),
        362i32 => Some("󰙿"),
        365i32 => Some("󰙿"),
        368i32 => Some("󰖘"),
        371i32 => Some("󰼶"),
        374i32 => Some("󰙿"),
        377i32 => Some("󰙿"),
        386i32 => Some("󰙾"),
        389i32 => Some("󰙾"),
        392i32 => Some("󰙾"),
        395i32 => Some("󰼶"),
        398i32 => Some("󰖗"),
        401i32 => Some("󰖗"),
        404i32 => Some("󰖗"),
        407i32 => Some("󰖗"),
        410i32 => Some("󰖗"),
        413i32 => Some("󰖗"),
        416i32 => Some("󰖗"),
        419i32 => Some("󰖗"),
        422i32 => Some("󰖗"),
        425i32 => Some("󰖗"),
        428i32 => Some("󰖗"),
        431i32 => Some("󰖗"),
        _ => None,
    }
}

fn lookup_nerd_night(code: i32) -> (r: Option<&'static str>)
    ensures
        r is Some == is_known_code(code),
        match nerd_night_glyph(code) {
            Some(g) => r is Some && r.unwrap()@ == g,
            None => r is None,
        },
{
    match code {
        113i32 => Some("󰖔"),
        116i32 => Some("󰼱"),
        119i32 => Some("󰼱"),
        122i32 => Some("󰖐"),
        143i32 => Some("󰖑"),
        176i32 => Some("󰖗"),
        179i32 => Some("󰙿"),
        182i32 => Some("󰙿"),
        185i32 => Some("󰙿"),
        200i32 => Some("󰙾"),
        227i32 => Some("󰖘"),
        230i32 => Some("󰼶"),
        248i32 => Some("󰖑"),
        260i32 => Some("󰖑"),
        263i32 => Some("󰖗"),
        266i32 => Some("󰖗"),
        281i32 => Some("󰙿"),
        284i32 => Some("󰙿"),
        293i32 => Some("󰖗"),
        296i32 => Some("󰖗"),
        299i32 => Some("󰖖"),
        302i32 => Some("󰖖"),
        305i32 => Some("󰖖"),
        308i32 => Some("󰖖"),
        311i32 => Some("󰙿"),
        314i32 => Some("󰙿"),
        317i32 => Some("󰙿"),
        320i32 => Some("󰖘"),
        323i32 => Some("󰖘"),
        326i32 => Some("󰖘"),
        329i32 => Some("󰼶"),
        332i32 => Some("󰼶"),
        335i32 => Some("󰼶"),
        338i32 => Some("󰼶"),
        350i32 => Some("󰙿"),
        353i32 => Some("󰖗"),
        356i32 => Some("󰖖"),
        359i32 => Some("󰖖"),
        362i32 => Some("󰙿"),
        365i32 => Some("󰙿"),
        368i32 => Some("󰖘"),
        371i32 => Some("󰼶"),
        374i32 => Some("󰙿"),
        377i32 => Some("󰙿"),
        386i32 => Some("󰙾"),
        389i32 => Some("󰙾"),
        392i32 => Some("󰙾"),
        395i32 => Some("󰼶"),
        398i32 => Some("󰖗"),
        401i32 => Some("󰖗"),
        404i32 => Some("󰖗"),
        407i32 => Some("󰖗"),
        410i32 => Some("󰖗"),
        413i32 => Some("󰖗"),
        416i32 => Some("󰖗"),
        419i32 => Some("󰖗"),
        422i32 => Some("󰖗"),
        425i32 => Some("󰖗"),
        428i32 => Some("󰖗"),
        431i32 => Some("󰖗"),
        _ => None,
    }
}

/// The glyph shown for a condition code: the one that the style's table
/// holds, or the fallback glyph for a code that the tables do not hold.
pub open spec fn resolved_glyph(code: i32, style: IconStyle) -> Seq<char> {
    match style.glyph(code) {
        Some(g) => g,
        None => fallback_glyph(),
    }
}

/// The condition code that a text of the payload writes, if it writes one.
pub open spec fn code_of_text(text: Seq<char>) -> Option<i32> {
    match unsigned_value(text) {
        Some(n) => if n <= i32::MAX { Some(n as i32) } else { None },
        None => None,
    }
}

/// The glyph shown for a condition code as the payload writes it. A text
/// that is no number gets the fallback glyph, as an unknown code does.
pub open spec fn resolved_glyph_of_text(text: Seq<char>, style: IconStyle) -> Seq<char> {
    match code_of_text(text) {
        Some(code) => resolved_glyph(code, style),
        None => fallback_glyph(),
    }
}

/// Whether a text of the payload writes a condition code that the tables hold.
pub open spec fn is_known_code_text(text: Seq<char>) -> bool {
    match code_of_text(text) {
        Some(code) => is_known_code(code),
        None => false,
    }
}

/// The glyph shown for a condition code. The result is never an error: a code
/// outside the tables is shown as the fallback glyph.
pub fn resolve(code: i32, style: IconStyle) -> (glyph: &'static str)
    ensures
        glyph@ == resolved_glyph(code, style),
        is_known_code(code) ==> Some(glyph@) == style.glyph(code),
        !is_known_code(code) ==> glyph@ == fallback_glyph(),
{
    match style.lookup(code) {
        Some(g) => g,
        None => "?",
    }
}

/// Reads the condition code that a text of the payload writes.
pub fn parse_code(text: &str) -> (r: Option<i32>)
    ensures
        r == code_of_text(text@),
{
    match parse_unsigned(text) {
        Some(n) => if n <= 0x7fff_ffff {
            Some(n as i32)
        } else {
            None
        },
        None => None,
    }
}

/// The glyph shown for a condition code as the payload writes it.
pub fn resolve_text(text: &str, style: IconStyle) -> (glyph: &'static str)
    ensures
        glyph@ == resolved_glyph_of_text(text@, style),
{
    match parse_code(text) {
        Some(code) => resolve(code, style),
        None => "?",
    }
}

/// Whether a text of the payload writes a condition code that the tables
/// hold. Where it does not, the caller has a diagnostic to report.
pub fn is_known(text: &str) -> (r: bool)
    ensures
        r == is_known_code_text(text@),
{
    match parse_code(text) {
        Some(code) => IconStyle::Emoji.lookup(code).is_some(),
        None => false,
    }
}

/// Every style has a glyph for every known condition code, none of them
/// empty, and the fallback glyph is not empty either.
pub proof fn lemma_glyphs_are_not_empty(code: i32, style: IconStyle)
    ensures
        is_known_code(code) ==> style.glyph(code) is Some,
        !is_known_code(code) ==> style.glyph(code) is None,
        resolved_glyph(code, style).len() > 0,
{
    reveal_strlit("☀️");
    reveal_strlit("☁️");
    reveal_strlit("❄️");
    reveal_strlit("🌤️");
    reveal_strlit("🌥️");
    reveal_strlit("🌦️");
    reveal_strlit("🌧️");
    reveal_strlit("🌨️");
    reveal_strlit("🌩️");
    reveal_strlit("🌫️");
    reveal_strlit("󰖐");
    reveal_strlit("󰖑");
    reveal_strlit("󰖔");
    reveal_strlit("󰖕");
    reveal_strlit("󰖖");
    reveal_strlit("󰖗");
    reveal_strlit("󰖘");
    reveal_strlit("󰖙");
    reveal_strlit("󰙾");
    reveal_strlit("󰙿");
    reveal_strlit("󰼰");
    reveal_strlit("󰼱");
    reveal_strlit("󰼶");
    reveal_strlit("?");
}

} // verus!
