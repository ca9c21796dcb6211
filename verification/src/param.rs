//! Encoder configuration: built from defaults or a named preset, refined by
//! a profile and by key/value overrides, and finally consumed to allocate
//! frame buffers or to open an encoder session.
//!
//! Every mutation consumes the configuration and returns a new one or a
//! typed failure, so a value rejected half-way cannot be used further.
//! Names are matched against closed tables; an unrecognized name is an
//! `InvalidArgument`, never a silent default.

use vstd::prelude::*;
use crate::Error;
use crate::colorspace::Colorspace;
use crate::strings::str_eq;

verus! {

/// The speed/quality presets a configuration can start from.
#[derive(Clone, Copy, Debug, PartialEq, Eq, Structural)]
pub enum Preset {
    Ultrafast,
    Superfast,
    Veryfast,
    Faster,
    Fast,
    Medium,
    Slow,
    Slower,
    Veryslow,
    Placebo,
}

/// The tuning keywords that bias a preset toward a kind of input.
#[derive(Clone, Copy, Debug, PartialEq, Eq, Structural)]
pub enum Tune {
    Film,
    Animation,
    Grain,
    Stillimage,
    Psnr,
    Ssim,
    Fastdecode,
    Zerolatency,
}

/// The bitstream compatibility profiles.
#[derive(Clone, Copy, Debug, PartialEq, Eq, Structural)]
pub enum Profile {
    Baseline,
    Main,
    High,
    High10,
    High422,
    High444,
}

/// The mathematical state of a configuration.
pub ghost struct ParamView {
    /// Encode width in pixels.
    pub width: usize,
    /// Encode height in pixels.
    pub height: usize,
    /// Pixel format frames will be allocated with.
    pub csp: Colorspace,
    /// Whether samples take two bytes instead of one.
    pub high_depth: bool,
    /// The preset the configuration started from, if any.
    pub preset: Option<Preset>,
    /// The tuning keyword, if any.
    pub tune: Option<Tune>,
    /// The profile the bitstream is constrained to, if any.
    pub profile: Option<Profile>,
    /// Whether headers are repeated in the stream.
    pub repeat_headers: bool,
    /// Whether output units carry start codes.
    pub annexb: bool,
    /// How many consecutive frames the encoder may buffer between
    /// reference frames; bounds the number of delayed frames.
    pub bframes: usize,
}

/// The configuration every new `Param` starts from.
pub open spec fn spec_default_param() -> ParamView {
    ParamView {
        width: 0,
        height: 0,
        csp: Colorspace::I420,
        high_depth: false,
        preset: None,
        tune: None,
        profile: None,
        repeat_headers: true,
        annexb: true,
        bframes: 3,
    }
}

/// The preset named by `s`, if any.
pub open spec fn spec_preset_of(s: Seq<char>) -> Option<Preset> {
    if s == "ultrafast"@ {
        Some(Preset::Ultrafast)
    } else if s == "superfast"@ {
        Some(Preset::Superfast)
    } else if s == "veryfast"@ {
        Some(Preset::Veryfast)
    } else if s == "faster"@ {
        Some(Preset::Faster)
    } else if s == "fast"@ {
        Some(Preset::Fast)
    } else if s == "medium"@ {
        Some(Preset::Medium)
    } else if s == "slow"@ {
        Some(Preset::Slow)
    } else if s == "slower"@ {
        Some(Preset::Slower)
    } else if s == "veryslow"@ {
        Some(Preset::Veryslow)
    } else if s == "placebo"@ {
        Some(Preset::Placebo)
    } else {
        None
    }
}

/// The tuning keyword named by `s`, if any.
pub open spec fn spec_tune_of(s: Seq<char>) -> Option<Tune> {
    if s == "film"@ {
        Some(Tune::Film)
    } else if s == "animation"@ {
        Some(Tune::Animation)
    } else if s == "grain"@ {
        Some(Tune::Grain)
    } else if s == "stillimage"@ {
        Some(Tune::Stillimage)
    } else if s == "psnr"@ {
        Some(Tune::Psnr)
    } else if s == "ssim"@ {
        Some(Tune::Ssim)
    } else if s == "fastdecode"@ {
        Some(Tune::Fastdecode)
    } else if s == "zerolatency"@ {
        Some(Tune::Zerolatency)
    } else {
        None
    }
}

/// The profile named by `s`, if any.
pub open spec fn spec_profile_of(s: Seq<char>) -> Option<Profile> {
    if s == "baseline"@ {
        Some(Profile::Baseline)
    } else if s == "main"@ {
        Some(Profile::Main)
    } else if s == "high"@ {
        Some(Profile::High)
    } else if s == "high10"@ {
        Some(Profile::High10)
    } else if s == "high422"@ {
        Some(Profile::High422)
    } else if s == "high444"@ {
        Some(Profile::High444)
    } else {
        None
    }
}

/// The numeric value of a decimal digit.
pub open spec fn spec_digit(c: char) -> Option<u8> {
    if c == '0' {
        Some(0u8)
    } else if c == '1' {
        Some(1u8)
    } else if c == '2' {
        Some(2u8)
    } else if c == '3' {
        Some(3u8)
    } else if c == '4' {
        Some(4u8)
    } else if c == '5' {
        Some(5u8)
    } else if c == '6' {
        Some(6u8)
    } else if c == '7' {
        Some(7u8)
    } else if c == '8' {
        Some(8u8)
    } else {
        if c == '9' {
            Some(9u8)
        } else {
            None
        }
    }
}

/// A boolean parameter value: "1" or "true", "0" or "false".
pub open spec fn spec_bool_value(s: Seq<char>) -> Option<bool> {
    if s == "1"@ || s == "true"@ {
        Some(true)
    } else if s == "0"@ || s == "false"@ {
        Some(false)
    } else {
        None
    }
}

/// A small numeric parameter value: one or two decimal digits.
pub open spec fn spec_small_value(s: Seq<char>) -> Option<u8> {
    if s.len() == 1 {
        spec_digit(s[0])
    } else if s.len() == 2 {
        match (spec_digit(s[0]), spec_digit(s[1])) {
            (Some(a), Some(b)) => Some((10 * a + b) as u8),
            _ => None,
        }
    } else {
        None
    }
}

/// The configuration that results from setting `name` to `value`, or none
/// where the name is outside the table or the value does not parse.
pub open spec fn spec_param_update(v: ParamView, name: Seq<char>, value: Seq<char>) -> Option<
    ParamView,
> {
    if name == "repeat_headers"@ {
        match spec_bool_value(value) {
            Some(b) => Some(ParamView { repeat_headers: b, ..v }),
            None => None,
        }
    } else if name == "annexb"@ {
        match spec_bool_value(value) {
            Some(b) => Some(ParamView { annexb: b, ..v }),
            None => None,
        }
    } else if name == "bframes"@ {
        match spec_small_value(value) {
            Some(n) => if n <= 16 {
                Some(ParamView { bframes: n as usize, ..v })
            } else {
                None
            },
            None => None,
        }
    } else {
        None
    }
}

/// An encoder configuration. Built by `new` or `default_preset`, threaded
/// through consuming transformations, and consumed by frame allocation and
/// by opening a session.
pub struct Param {
    width: usize,
    height: usize,
    csp: Colorspace,
    high_depth: bool,
    preset: Option<Preset>,
    tune: Option<Tune>,
    profile: Option<Profile>,
    repeat_headers: bool,
    annexb: bool,
    bframes: usize,
}

impl View for Param {
    type V = ParamView;

    closed spec fn view(&self) -> ParamView {
        ParamView {
            width: self.width,
            height: self.height,
            csp: self.csp,
            high_depth: self.high_depth,
            preset: self.preset,
            tune: self.tune,
            profile: self.profile,
            repeat_headers: self.repeat_headers,
            annexb: self.annexb,
            bframes: self.bframes,
        }
    }
}

/// The digit value of `c`, if it is one.
fn digit_val(c: char) -> (r: Option<u8>)
    ensures
        r == spec_digit(c),
{
    if c == '0' {
        Some(0)
    } else if c == '1' {
        Some(1)
    } else if c == '2' {
        Some(2)
    } else if c == '3' {
        Some(3)
    } else if c == '4' {
        Some(4)
    } else if c == '5' {
        Some(5)
    } else if c == '6' {
        Some(6)
    } else if c == '7' {
        Some(7)
    } else if c == '8' {
        Some(8)
    } else if c == '9' {
        Some(9)
    } else {
        None
    }
}

/// Parses a boolean parameter value.
fn parse_bool_value(s: &str) -> (r: Option<bool>)
    ensures
        r == spec_bool_value(s@),
{
    if str_eq(s, "1") || str_eq(s, "true") {
        Some(true)
    } else if str_eq(s, "0") || str_eq(s, "false") {
        Some(false)
    } else {
        None
    }
}

/// Parses a one- or two-digit parameter value.
fn parse_small_value(s: &str) -> (r: Option<u8>)
    ensures
        r == spec_small_value(s@),
{
    let n = s.unicode_len();
    if n == 1 {
        digit_val(s.get_char(0))
    } else if n == 2 {
        let a = digit_val(s.get_char(0));
        let b = digit_val(s.get_char(1));
        match (a, b) {
            (Some(a), Some(b)) => Some(10 * a + b),
            _ => None,
        }
    } else {
        None
    }
}

/// The preset named by `s`, if any.
pub fn parse_preset(s: &str) -> (r: Option<Preset>)
    ensures
        r == spec_preset_of(s@),
{
    if str_eq(s, "ultrafast") {
        Some(Preset::Ultrafast)
    } else if str_eq(s, "superfast") {
        Some(Preset::Superfast)
    } else if str_eq(s, "veryfast") {
        Some(Preset::Veryfast)
    } else if str_eq(s, "faster") {
        Some(Preset::Faster)
    } else if str_eq(s, "fast") {
        Some(Preset::Fast)
    } else if str_eq(s, "medium") {
        Some(Preset::Medium)
    } else if str_eq(s, "slow") {
        Some(Preset::Slow)
    } else if str_eq(s, "slower") {
        Some(Preset::Slower)
    } else if str_eq(s, "veryslow") {
        Some(Preset::Veryslow)
    } else if str_eq(s, "placebo") {
        Some(Preset::Placebo)
    } else {
        None
    }
}

/// The tuning keyword named by `s`, if any.
pub fn parse_tune(s: &str) -> (r: Option<Tune>)
    ensures
        r == spec_tune_of(s@),
{
    if str_eq(s, "film") {
        Some(Tune::Film)
    } else if str_eq(s, "animation") {
        Some(Tune::Animation)
    } else if str_eq(s, "grain") {
        Some(Tune::Grain)
    } else if str_eq(s, "stillimage") {
        Some(Tune::Stillimage)
    } else if str_eq(s, "psnr") {
        Some(Tune::Psnr)
    } else if str_eq(s, "ssim") {
        Some(Tune::Ssim)
    } else if str_eq(s, "fastdecode") {
        Some(Tune::Fastdecode)
    } else if str_eq(s, "zerolatency") {
        Some(Tune::Zerolatency)
    } else {
        None
    }
}

/// The profile named by `s`, if any.
pub fn parse_profile(s: &str) -> (r: Option<Profile>)
    ensures
        r == spec_profile_of(s@),
{
    if str_eq(s, "baseline") {
        Some(Profile::Baseline)
    } else if str_eq(s, "main") {
        Some(Profile::Main)
    } else if str_eq(s, "high") {
        Some(Profile::High)
    } else if str_eq(s, "high10") {
        Some(Profile::High10)
    } else if str_eq(s, "high422") {
        Some(Profile::High422)
    } else if str_eq(s, "high444") {
        Some(Profile::High444)
    } else {
        None
    }
}

impl Param {
    /// A configuration with library-default tuning. Cannot fail.
    pub fn new() -> (r: Param)
        ensures
            r@ == spec_default_param(),
    {
        Param {
            width: 0,
            height: 0,
            csp: Colorspace::I420,
            high_depth: false,
            preset: None,
            tune: None,
            profile: None,
            repeat_headers: true,
            annexb: true,
            bframes: 3,
        }
    }

    /// A configuration initialized from a named preset and an optional
    /// tuning keyword. Either name being unrecognized fails with
    /// `InvalidArgument`, and no configuration escapes.
    pub fn default_preset(tune: Option<&str>, preset: Option<&str>) -> (r: Result<Param, Error>)
        ensures
            (r is Ok <==> ((match tune {
                Some(t) => spec_tune_of(t@) is Some,
                None => true,
            }) && (match preset {
                Some(p) => spec_preset_of(p@) is Some,
                None => true,
            }))),
            r matches Err(e) ==> e == Error::InvalidArgument,
            r matches Ok(par) ==> par@ == (ParamView {
                tune: match tune {
                    Some(t) => spec_tune_of(t@),
                    None => None,
                },
                preset: match preset {
                    Some(p) => spec_preset_of(p@),
                    None => None,
                },
                ..spec_default_param()
            }),
    {
        let t: Option<Tune> = match tune {
            Some(name) => match parse_tune(name) {
                Some(t) => Some(t),
                None => {
                    return Err(Error::InvalidArgument);
                },
            },
            None => None,
        };
        let p: Option<Preset> = match preset {
            Some(name) => match parse_preset(name) {
                Some(p) => Some(p),
                None => {
                    return Err(Error::InvalidArgument);
                },
            },
            None => None,
        };
        let mut par = Param::new();
        par.tune = t;
        par.preset = p;
        Ok(par)
    }

    /// Constrains the bitstream to a named compatibility profile. An
    /// unrecognized name fails with `InvalidArgument` and consumes the
    /// configuration.
    pub fn apply_profile(self, profile: &str) -> (r: Result<Param, Error>)
        ensures
            r is Ok <==> spec_profile_of(profile@) is Some,
            r matches Err(e) ==> e == Error::InvalidArgument,
            r matches Ok(p) ==> p@ == (ParamView { profile: spec_profile_of(profile@), ..self@ }),
    {
        match parse_profile(profile) {
            Some(p) => {
                let mut par = self;
                par.profile = Some(p);
                Ok(par)
            },
            None => Err(Error::InvalidArgument),
        }
    }

    /// Sets `name` to `value`. The name is matched against the table of
    /// recognized parameters and the value parsed by that parameter's
    /// grammar; either failing is an `InvalidArgument`.
    pub fn param_parse(self, name: &str, value: &str) -> (r: Result<Param, Error>)
        ensures
            r is Ok <==> spec_param_update(self@, name@, value@) is Some,
            r matches Err(e) ==> e == Error::InvalidArgument,
            r matches Ok(p) ==> Some(p@) == spec_param_update(self@, name@, value@),
    {
        if str_eq(name, "repeat_headers") {
            match parse_bool_value(value) {
                Some(b) => {
                    let mut par = self;
                    par.repeat_headers = b;
                    Ok(par)
                },
                None => Err(Error::InvalidArgument),
            }
        } else if str_eq(name, "annexb") {
            match parse_bool_value(value) {
                Some(b) => {
                    let mut par = self;
                    par.annexb = b;
                    Ok(par)
                },
                None => Err(Error::InvalidArgument),
            }
        } else if str_eq(name, "bframes") {
            match parse_small_value(value) {
                Some(n) => {
                    if n <= 16 {
                        let mut par = self;
                        par.bframes = n as usize;
                        Ok(par)
                    } else {
                        Err(Error::InvalidArgument)
                    }
                },
                None => Err(Error::InvalidArgument),
            }
        } else {
            Err(Error::InvalidArgument)
        }
    }

    /// Sets the encode dimensions. No validation happens here; dimensions
    /// outside the supported range surface later as allocation or open
    /// failures.
    pub fn set_dimension(self, height: usize, width: usize) -> (r: Param)
        ensures
            r@ == (ParamView { width: width, height: height, ..self@ }),
    {
        let mut par = self;
        par.height = height;
        par.width = width;
        par
    }

    /// Sets the pixel format frames will be allocated with.
    pub fn set_colorspace(self, csp: Colorspace, high_depth: bool) -> (r: Param)
        ensures
            r@ == (ParamView { csp: csp, high_depth: high_depth, ..self@ }),
    {
        let mut par = self;
        par.csp = csp;
        par.high_depth = high_depth;
        par
    }

    /// Encode width in pixels.
    pub fn width(&self) -> (r: usize)
        ensures
            r == self@.width,
    {
        self.width
    }

    /// Encode height in pixels.
    pub fn height(&self) -> (r: usize)
        ensures
            r == self@.height,
    {
        self.height
    }

    /// The pixel format frames will be allocated with.
    pub fn colorspace(&self) -> (r: Colorspace)
        ensures
            r == self@.csp,
    {
        self.csp
    }

    /// Whether samples take two bytes instead of one.
    pub fn high_depth(&self) -> (r: bool)
        ensures
            r == self@.high_depth,
    {
        self.high_depth
    }

    /// The configured number of consecutive buffered frames.
    pub fn bframes(&self) -> (r: usize)
        ensures
            r == self@.bframes,
    {
        self.bframes
    }
}

} // verus!
