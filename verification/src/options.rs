//! Plain option records for acquiring a rendering context, and the closed
//! union over them.  The records only carry values; turning them into a
//! host option object happens outside the library.

use vstd::prelude::*;

verus! {

broadcast use vstd::string::to_string_from_display_ensures_for_str;

/// Colour space requested for a 2D context.
#[derive(Debug, Clone, Copy, PartialEq, Eq, Structural)]
#[non_exhaustive]
pub enum ColorSpaceType {
    Srgb,
    DisplayP3,
}

impl ColorSpaceType {
    /// The value string the host expects for this colour space.
    pub fn label(&self) -> (r: String)
        ensures
            self == ColorSpaceType::Srgb ==> r@ == "srgb"@,
            self == ColorSpaceType::DisplayP3 ==> r@ == "display-p3"@,
    {
        match self {
            ColorSpaceType::Srgb => "srgb".to_string(),
            ColorSpaceType::DisplayP3 => "display-p3".to_string(),
        }
    }
}

impl Default for ColorSpaceType {
    fn default() -> (r: Self)
        ensures
            r == ColorSpaceType::Srgb,
    {
        ColorSpaceType::Srgb
    }
}

/// Storage requested for an offscreen 2D context.
#[derive(Debug, Clone, Copy, PartialEq, Eq, Structural)]
#[non_exhaustive]
pub enum OffscreenStorageType {
    Persistent,
}

impl OffscreenStorageType {
    /// The value string the host expects for this storage kind.
    pub fn label(&self) -> (r: String)
        ensures
            r@ == "persistent"@,
    {
        "persistent".to_string()
    }
}

impl Default for OffscreenStorageType {
    fn default() -> (r: Self)
        ensures
            r == OffscreenStorageType::Persistent,
    {
        OffscreenStorageType::Persistent
    }
}

/// Power preference requested for a GPU context.
#[derive(Debug, Clone, Copy, PartialEq, Eq, Structural)]
#[non_exhaustive]
pub enum PowerPreference {
    Default,
    LowPower,
    HighPerformance,
}

impl PowerPreference {
    /// The value string the host expects for this power preference.
    pub fn label(&self) -> (r: String)
        ensures
            self == PowerPreference::Default ==> r@ == "default"@,
            self == PowerPreference::LowPower ==> r@ == "low-power"@,
            self == PowerPreference::HighPerformance ==> r@ == "high-performance"@,
    {
        match self {
            PowerPreference::Default => "default".to_string(),
            PowerPreference::LowPower => "low-power".to_string(),
            PowerPreference::HighPerformance => "high-performance".to_string(),
        }
    }
}

impl Default for PowerPreference {
    fn default() -> (r: Self)
        ensures
            r == PowerPreference::Default,
    {
        PowerPreference::Default
    }
}

/// Which GPU context generation to acquire.
#[derive(Debug, Clone, Copy, PartialEq, Eq, Structural)]
pub enum GLVersion {
    WebGL,
    WebGL2,
}

impl GLVersion {
    /// The context name the host expects for this generation.
    pub fn label(&self) -> (r: String)
        ensures
            self == GLVersion::WebGL ==> r@ == "webgl"@,
            self == GLVersion::WebGL2 ==> r@ == "webgl2"@,
    {
        match self {
            GLVersion::WebGL => "webgl".to_string(),
            GLVersion::WebGL2 => "webgl2".to_string(),
        }
    }
}

impl Default for GLVersion {
    fn default() -> (r: Self)
        ensures
            r == GLVersion::WebGL,
    {
        GLVersion::WebGL
    }
}

/// Options for a 2D context on an on-page canvas.
#[derive(Debug, Clone, Copy, PartialEq, Eq, Structural)]
pub struct HtmlContextOptions2D {
    pub alpha: bool,
    pub desynchronized: bool,
    pub will_read_frequently: bool,
    pub color_space: ColorSpaceType,
}

impl HtmlContextOptions2D {
    pub fn alpha(self, value: bool) -> (r: Self)
        ensures
            r == (HtmlContextOptions2D { alpha: value, ..self }),
    {
        HtmlContextOptions2D { alpha: value, ..self }
    }

    pub fn desynchronized(self, value: bool) -> (r: Self)
        ensures
            r == (HtmlContextOptions2D { desynchronized: value, ..self }),
    {
        HtmlContextOptions2D { desynchronized: value, ..self }
    }

    pub fn will_read_frequently(self, value: bool) -> (r: Self)
        ensures
            r == (HtmlContextOptions2D { will_read_frequently: value, ..self }),
    {
        HtmlContextOptions2D { will_read_frequently: value, ..self }
    }

    pub fn color_space(self, value: ColorSpaceType) -> (r: Self)
        ensures
            r == (HtmlContextOptions2D { color_space: value, ..self }),
    {
        HtmlContextOptions2D { color_space: value, ..self }
    }
}

impl Default for HtmlContextOptions2D {
    fn default() -> (r: Self)
        ensures
            r == (HtmlContextOptions2D {
                alpha: false,
                desynchronized: false,
                will_read_frequently: false,
                color_space: ColorSpaceType::Srgb,
            }),
    {
        HtmlContextOptions2D {
            alpha: false,
            desynchronized: false,
            will_read_frequently: false,
            color_space: ColorSpaceType::Srgb,
        }
    }
}

/// Options for a 2D context on an offscreen canvas.
#[derive(Debug, Clone, Copy, PartialEq, Eq, Structural)]
pub struct OffscreenContextOptions2D {
    pub alpha: bool,
    pub will_read_frequently: bool,
    pub storage: OffscreenStorageType,
}

impl OffscreenContextOptions2D {
    pub fn alpha(self, value: bool) -> (r: Self)
        ensures
            r == (OffscreenContextOptions2D { alpha: value, ..self }),
    {
        OffscreenContextOptions2D { alpha: value, ..self }
    }

    pub fn will_read_frequently(self, value: bool) -> (r: Self)
        ensures
            r == (OffscreenContextOptions2D { will_read_frequently: value, ..self }),
    {
        OffscreenContextOptions2D { will_read_frequently: value, ..self }
    }

    pub fn storage(self, value: OffscreenStorageType) -> (r: Self)
        ensures
            r == (OffscreenContextOptions2D { storage: value, ..self }),
    {
        OffscreenContextOptions2D { storage: value, ..self }
    }
}

impl Default for OffscreenContextOptions2D {
    fn default() -> (r: Self)
        ensures
            r == (OffscreenContextOptions2D {
                alpha: false,
                will_read_frequently: false,
                storage: OffscreenStorageType::Persistent,
            }),
    {
        OffscreenContextOptions2D {
            alpha: false,
            will_read_frequently: false,
            storage: OffscreenStorageType::Persistent,
        }
    }
}

/// Options for a GPU context on an on-page canvas.
#[derive(Debug, Clone, Copy, PartialEq, Eq, Structural)]
pub struct HtmlContextOptionsGL {
    pub version: GLVersion,
    pub experimental: bool,
    pub alpha: bool,
    pub depth: bool,
    pub stencil: bool,
    pub desynchronized: bool,
    pub antialias: bool,
    pub fail_if_major_performance_caveat: bool,
    pub power_preference: PowerPreference,
    pub premultiplied_alpha: bool,
    pub preserve_drawing_buffer: bool,
    pub xr_compatible: bool,
}

impl HtmlContextOptionsGL {
    pub fn version(self, value: GLVersion) -> (r: Self)
        ensures
            r == (HtmlContextOptionsGL { version: value, ..self }),
    {
        HtmlContextOptionsGL { version: value, ..self }
    }

    pub fn experimental(self, value: bool) -> (r: Self)
        ensures
            r == (HtmlContextOptionsGL { experimental: value, ..self }),
    {
        HtmlContextOptionsGL { experimental: value, ..self }
    }

    pub fn alpha(self, value: bool) -> (r: Self)
        ensures
            r == (HtmlContextOptionsGL { alpha: value, ..self }),
    {
        HtmlContextOptionsGL { alpha: value, ..self }
    }

    pub fn depth(self, value: bool) -> (r: Self)
        ensures
            r == (HtmlContextOptionsGL { depth: value, ..self }),
    {
        HtmlContextOptionsGL { depth: value, ..self }
    }

    pub fn stencil(self, value: bool) -> (r: Self)
        ensures
            r == (HtmlContextOptionsGL { stencil: value, ..self }),
    {
        HtmlContextOptionsGL { stencil: value, ..self }
    }

    pub fn desynchronized(self, value: bool) -> (r: Self)
        ensures
            r == (HtmlContextOptionsGL { desynchronized: value, ..self }),
    {
        HtmlContextOptionsGL { desynchronized: value, ..self }
    }

    pub fn antialias(self, value: bool) -> (r: Self)
        ensures
            r == (HtmlContextOptionsGL { antialias: value, ..self }),
    {
        HtmlContextOptionsGL { antialias: value, ..self }
    }

    pub fn fail_if_major_performance_caveat(self, value: bool) -> (r: Self)
        ensures
            r == (HtmlContextOptionsGL { fail_if_major_performance_caveat: value, ..self }),
    {
        HtmlContextOptionsGL { fail_if_major_performance_caveat: value, ..self }
    }

    pub fn power_preference(self, value: PowerPreference) -> (r: Self)
        ensures
            r == (HtmlContextOptionsGL { power_preference: value, ..self }),
    {
        HtmlContextOptionsGL { power_preference: value, ..self }
    }

    pub fn premultiplied_alpha(self, value: bool) -> (r: Self)
        ensures
            r == (HtmlContextOptionsGL { premultiplied_alpha: value, ..self }),
    {
        HtmlContextOptionsGL { premultiplied_alpha: value, ..self }
    }

    pub fn preserve_drawing_buffer(self, value: bool) -> (r: Self)
        ensures
            r == (HtmlContextOptionsGL { preserve_drawing_buffer: value, ..self }),
    {
        HtmlContextOptionsGL { preserve_drawing_buffer: value, ..self }
    }

    pub fn xr_compatible(self, value: bool) -> (r: Self)
        ensures
            r == (HtmlContextOptionsGL { xr_compatible: value, ..self }),
    {
        HtmlContextOptionsGL { xr_compatible: value, ..self }
    }
}

impl Default for HtmlContextOptionsGL {
    fn default() -> (r: Self)
        ensures
            r == (HtmlContextOptionsGL {
                version: GLVersion::WebGL,
                experimental: false,
                alpha: false,
                depth: false,
                stencil: false,
                desynchronized: false,
                antialias: false,
                fail_if_major_performance_caveat: false,
                power_preference: PowerPreference::Default,
                premultiplied_alpha: false,
                preserve_drawing_buffer: false,
                xr_compatible: false,
            }),
    {
        HtmlContextOptionsGL {
            version: GLVersion::WebGL,
            experimental: false,
            alpha: false,
            depth: false,
            stencil: false,
            desynchronized: false,
            antialias: false,
            fail_if_major_performance_caveat: false,
            power_preference: PowerPreference::Default,
            premultiplied_alpha: false,
            preserve_drawing_buffer: false,
            xr_compatible: false,
        }
    }
}

/// Options for a GPU context on an offscreen canvas.
#[derive(Debug, Clone, Copy, PartialEq, Eq, Structural)]
pub struct OffscreenContextOptionsGL {
    pub version: GLVersion,
    pub experimental: bool,
    pub alpha: bool,
    pub depth: bool,
    pub stencil: bool,
    pub antialias: bool,
    pub fail_if_major_performance_caveat: bool,
    pub premultiplied_alpha: bool,
    pub preserve_drawing_buffer: bool,
}

impl OffscreenContextOptionsGL {
    pub fn version(self, value: GLVersion) -> (r: Self)
        ensures
            r == (OffscreenContextOptionsGL { version: value, ..self }),
    {
        OffscreenContextOptionsGL { version: value, ..self }
    }

    pub fn experimental(self, value: bool) -> (r: Self)
        ensures
            r == (OffscreenContextOptionsGL { experimental: value, ..self }),
    {
        OffscreenContextOptionsGL { experimental: value, ..self }
    }

    pub fn alpha(self, value: bool) -> (r: Self)
        ensures
            r == (OffscreenContextOptionsGL { alpha: value, ..self }),
    {
        OffscreenContextOptionsGL { alpha: value, ..self }
    }

    pub fn depth(self, value: bool) -> (r: Self)
        ensures
            r == (OffscreenContextOptionsGL { depth: value, ..self }),
    {
        OffscreenContextOptionsGL { depth: value, ..self }
    }

    pub fn stencil(self, value: bool) -> (r: Self)
        ensures
            r == (OffscreenContextOptionsGL { stencil: value, ..self }),
    {
        OffscreenContextOptionsGL { stencil: value, ..self }
    }

    pub fn antialias(self, value: bool) -> (r: Self)
        ensures
            r == (OffscreenContextOptionsGL { antialias: value, ..self }),
    {
        OffscreenContextOptionsGL { antialias: value, ..self }
    }

    pub fn fail_if_major_performance_caveat(self, value: bool) -> (r: Self)
        ensures
            r == (OffscreenContextOptionsGL { fail_if_major_performance_caveat: value, ..self }),
    {
        OffscreenContextOptionsGL { fail_if_major_performance_caveat: value, ..self }
    }

    pub fn premultiplied_alpha(self, value: bool) -> (r: Self)
        ensures
            r == (OffscreenContextOptionsGL { premultiplied_alpha: value, ..self }),
    {
        OffscreenContextOptionsGL { premultiplied_alpha: value, ..self }
    }

    pub fn preserve_drawing_buffer(self, value: bool) -> (r: Self)
        ensures
            r == (OffscreenContextOptionsGL { preserve_drawing_buffer: value, ..self }),
    {
        OffscreenContextOptionsGL { preserve_drawing_buffer: value, ..self }
    }
}

impl Default for OffscreenContextOptionsGL {
    fn default() -> (r: Self)
        ensures
            r == (OffscreenContextOptionsGL {
                version: GLVersion::WebGL,
                experimental: false,
                alpha: false,
                depth: false,
                stencil: false,
                antialias: false,
                fail_if_major_performance_caveat: false,
                premultiplied_alpha: false,
                preserve_drawing_buffer: false,
            }),
    {
        OffscreenContextOptionsGL {
            version: GLVersion::WebGL,
            experimental: false,
            alpha: false,
            depth: false,
            stencil: false,
            antialias: false,
            fail_if_major_performance_caveat: false,
            premultiplied_alpha: false,
            preserve_drawing_buffer: false,
        }
    }
}

/// The closed union over every supported option record.
#[derive(Debug, Clone, Copy, PartialEq, Eq, Structural)]
pub enum SupportedOptions {
    Html2D(HtmlContextOptions2D),
    Offscreen2D(OffscreenContextOptions2D),
    HtmlGL(HtmlContextOptionsGL),
    OffscreenGL(OffscreenContextOptionsGL),
}

impl From<HtmlContextOptions2D> for SupportedOptions {
    fn from(value: HtmlContextOptions2D) -> (r: Self) {
        SupportedOptions::Html2D(value)
    }
}

impl vstd::std_specs::convert::FromSpecImpl<HtmlContextOptions2D> for SupportedOptions {
    open spec fn obeys_from_spec() -> bool {
        true
    }

    open spec fn from_spec(value: HtmlContextOptions2D) -> Self {
        SupportedOptions::Html2D(value)
    }
}

impl From<OffscreenContextOptions2D> for SupportedOptions {
    fn from(value: OffscreenContextOptions2D) -> (r: Self) {
        SupportedOptions::Offscreen2D(value)
    }
}

impl vstd::std_specs::convert::FromSpecImpl<OffscreenContextOptions2D> for SupportedOptions {
    open spec fn obeys_from_spec() -> bool {
        true
    }

    open spec fn from_spec(value: OffscreenContextOptions2D) -> Self {
        SupportedOptions::Offscreen2D(value)
    }
}

impl From<HtmlContextOptionsGL> for SupportedOptions {
    fn from(value: HtmlContextOptionsGL) -> (r: Self) {
        SupportedOptions::HtmlGL(value)
    }
}

impl vstd::std_specs::convert::FromSpecImpl<HtmlContextOptionsGL> for SupportedOptions {
    open spec fn obeys_from_spec() -> bool {
        true
    }

    open spec fn from_spec(value: HtmlContextOptionsGL) -> Self {
        SupportedOptions::HtmlGL(value)
    }
}

impl From<OffscreenContextOptionsGL> for SupportedOptions {
    fn from(value: OffscreenContextOptionsGL) -> (r: Self) {
        SupportedOptions::OffscreenGL(value)
    }
}

impl vstd::std_specs::convert::FromSpecImpl<OffscreenContextOptionsGL> for SupportedOptions {
    open spec fn obeys_from_spec() -> bool {
        true
    }

    open spec fn from_spec(value: OffscreenContextOptionsGL) -> Self {
        SupportedOptions::OffscreenGL(value)
    }
}

} // verus!
