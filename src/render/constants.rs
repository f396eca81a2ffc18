//! The WebGL enumerations that the rendering interface names, each as a closed
//! Rust enum with the numeric constant that the GL API expects for it.
use vstd::prelude::*;

verus! {

/// Usage hint for the contents of a buffer: how often they change.
#[derive(Clone, Copy, Debug, PartialEq, Eq, Structural)]
pub enum DrawKind {
    StaticDraw,
    DynamicDraw,
    StreamDraw,
}

/// The GL constant of each `DrawKind`.
pub open spec fn gl_draw_kind(k: DrawKind) -> u32 {
    match k {
        DrawKind::StaticDraw => 35044,
        DrawKind::DynamicDraw => 35048,
        DrawKind::StreamDraw => 35040,
    }
}

/// A value that stands for a `DrawKind` and can report its GL constant.
pub trait HasDrawKind {
    spec fn draw_kind_constant_spec(&self) -> u32;

    fn draw_kind_constant(&self) -> (r: u32)
        ensures
            r == self.draw_kind_constant_spec(),
    ;
}

impl HasDrawKind for DrawKind {
    open spec fn draw_kind_constant_spec(&self) -> u32 {
        gl_draw_kind(*self)
    }

    fn draw_kind_constant(&self) -> (r: u32) {
        match self {
            DrawKind::StaticDraw => 35044,
            DrawKind::DynamicDraw => 35048,
            DrawKind::StreamDraw => 35040,
        }
    }
}

/// The primitive that a draw call assembles from the vertices.
#[derive(Clone, Copy, Debug, PartialEq, Eq, Structural)]
pub enum DrawArrayKind {
    Points,
    LineStrip,
    LineLoop,
    Lines,
    TriangleStrip,
    TriangleFan,
    Triangles,
}

/// The GL constant of each `DrawArrayKind`.
pub open spec fn gl_draw_array_kind(k: DrawArrayKind) -> u32 {
    match k {
        DrawArrayKind::Points => 0,
        DrawArrayKind::LineStrip => 3,
        DrawArrayKind::LineLoop => 2,
        DrawArrayKind::Lines => 1,
        DrawArrayKind::TriangleStrip => 5,
        DrawArrayKind::TriangleFan => 6,
        DrawArrayKind::Triangles => 4,
    }
}

/// A value that stands for a `DrawArrayKind` and can report its GL constant.
pub trait HasDrawArrayKind {
    spec fn draw_array_kind_constant_spec(&self) -> u32;

    fn draw_array_kind_constant(&self) -> (r: u32)
        ensures
            r == self.draw_array_kind_constant_spec(),
    ;
}

impl HasDrawArrayKind for DrawArrayKind {
    open spec fn draw_array_kind_constant_spec(&self) -> u32 {
        gl_draw_array_kind(*self)
    }

    fn draw_array_kind_constant(&self) -> (r: u32) {
        match self {
            DrawArrayKind::Points => 0,
            DrawArrayKind::LineStrip => 3,
            DrawArrayKind::LineLoop => 2,
            DrawArrayKind::Lines => 1,
            DrawArrayKind::TriangleStrip => 5,
            DrawArrayKind::TriangleFan => 6,
            DrawArrayKind::Triangles => 4,
        }
    }
}

/// The buffer that a clear resets.
#[derive(Clone, Copy, Debug, PartialEq, Eq, Structural)]
pub enum ClearMask {
    ColorBufferBit,
    DepthBufferBit,
    StencilBufferBit,
}

/// The GL constant of each `ClearMask`.
pub open spec fn gl_clear_mask(k: ClearMask) -> u32 {
    match k {
        ClearMask::ColorBufferBit => 16384,
        ClearMask::DepthBufferBit => 256,
        ClearMask::StencilBufferBit => 1024,
    }
}

/// A value that stands for a `ClearMask` and can report its GL constant.
pub trait HasClearMaskKind {
    spec fn clear_mask_constant_spec(&self) -> u32;

    fn clear_mask_constant(&self) -> (r: u32)
        ensures
            r == self.clear_mask_constant_spec(),
    ;
}

impl HasClearMaskKind for ClearMask {
    open spec fn clear_mask_constant_spec(&self) -> u32 {
        gl_clear_mask(*self)
    }

    fn clear_mask_constant(&self) -> (r: u32) {
        match self {
            ClearMask::ColorBufferBit => 16384,
            ClearMask::DepthBufferBit => 256,
            ClearMask::StencilBufferBit => 1024,
        }
    }
}

/// The binding point of a GPU buffer.
#[derive(Clone, Copy, Debug, PartialEq, Eq, Structural)]
pub enum BufferKind {
    ArrayBuffer,
    ElementBuffer,
}

/// The GL constant of each `BufferKind`.
pub open spec fn gl_buffer_kind(k: BufferKind) -> u32 {
    match k {
        BufferKind::ArrayBuffer => 34962,
        BufferKind::ElementBuffer => 34963,
    }
}

/// A value that stands for a `BufferKind` and can report its GL constant.
pub trait HasBufferKind {
    spec fn buffer_kind_constant_spec(&self) -> u32;

    fn buffer_kind_constant(&self) -> (r: u32)
        ensures
            r == self.buffer_kind_constant_spec(),
    ;
}

impl HasBufferKind for BufferKind {
    open spec fn buffer_kind_constant_spec(&self) -> u32 {
        gl_buffer_kind(*self)
    }

    fn buffer_kind_constant(&self) -> (r: u32) {
        match self {
            BufferKind::ArrayBuffer => 34962,
            BufferKind::ElementBuffer => 34963,
        }
    }
}

/// The numeric storage format of the elements of a view.
#[derive(Clone, Copy, Debug, PartialEq, Eq, Structural)]
pub enum ViewPrecision {
    Byte,
    Short,
    UnsignedByte,
    UnsignedShort,
    Float,
}

/// The GL constant of each `ViewPrecision`.
pub open spec fn gl_view_precision(k: ViewPrecision) -> u32 {
    match k {
        ViewPrecision::Byte => 5120,
        ViewPrecision::Short => 5122,
        ViewPrecision::UnsignedByte => 5121,
        ViewPrecision::UnsignedShort => 5123,
        ViewPrecision::Float => 5126,
    }
}

/// A value that stands for a `ViewPrecision` and can report its GL constant.
pub trait HasViewPrecision {
    spec fn view_precision_constant_spec(&self) -> u32;

    fn view_precision_constant(&self) -> (r: u32)
        ensures
            r == self.view_precision_constant_spec(),
    ;
}

impl HasViewPrecision for ViewPrecision {
    open spec fn view_precision_constant_spec(&self) -> u32 {
        gl_view_precision(*self)
    }

    fn view_precision_constant(&self) -> (r: u32) {
        match self {
            ViewPrecision::Byte => 5120,
            ViewPrecision::Short => 5122,
            ViewPrecision::UnsignedByte => 5121,
            ViewPrecision::UnsignedShort => 5123,
            ViewPrecision::Float => 5126,
        }
    }
}

/// A factor of the blend function.
#[derive(Clone, Copy, Debug, PartialEq, Eq, Structural)]
pub enum BlendFuncFactor {
    /// Multiplies all colors by 0.
    Zero,
    /// Multiplies all colors by 1.
    One,
    /// Multiplies all colors by the source colors.
    SrcColor,
    /// Multiplies all colors by 1 minus each source color.
    OneMinusSrcColor,
    /// Multiplies all colors by the destination color.
    DstColor,
    /// Multiplies all colors by 1 minus each destination color.
    OneMinusDstColor,
    /// Multiplies all colors by the source alpha value.
    SrcAlpha,
    /// Multiplies all colors by 1 minus the source alpha value.
    OneMinusSrcAlpha,
    /// Multiplies all colors by the destination alpha value.
    DstAlpha,
    /// Multiplies all colors by 1 minus the destination alpha value.
    OneMinusDstAlpha,
    /// Multiplies all colors by a constant color.
    ConstantColor,
    /// Multiplies all colors by 1 minus a constant color.
    OneMinusConstantColor,
    /// Multiplies all colors by a constant alpha value.
    ConstantAlpha,
    /// Multiplies all colors by 1 minus a constant alpha value.
    OneMinusConstantAlpha,
    /// Multiplies the RGB colors by the smaller of the source alpha value and 1 minus the destination alpha value; the alpha value is multiplied by 1.
    SrcAlphaSaturate,
}

/// The GL constant of each `BlendFuncFactor`.
pub open spec fn gl_blend_func_factor(k: BlendFuncFactor) -> u32 {
    match k {
        BlendFuncFactor::Zero => 0,
        BlendFuncFactor::One => 1,
        BlendFuncFactor::SrcColor => 768,
        BlendFuncFactor::OneMinusSrcColor => 769,
        BlendFuncFactor::DstColor => 774,
        BlendFuncFactor::OneMinusDstColor => 775,
        BlendFuncFactor::SrcAlpha => 770,
        BlendFuncFactor::OneMinusSrcAlpha => 771,
        BlendFuncFactor::DstAlpha => 772,
        BlendFuncFactor::OneMinusDstAlpha => 773,
        BlendFuncFactor::ConstantColor => 32769,
        BlendFuncFactor::OneMinusConstantColor => 32770,
        BlendFuncFactor::ConstantAlpha => 32771,
        BlendFuncFactor::OneMinusConstantAlpha => 32772,
        BlendFuncFactor::SrcAlphaSaturate => 776,
    }
}

/// A value that stands for a `BlendFuncFactor` and can report its GL constant.
pub trait HasBlendFuncFactor {
    spec fn blend_func_factor_constant_spec(&self) -> u32;

    fn blend_func_factor_constant(&self) -> (r: u32)
        ensures
            r == self.blend_func_factor_constant_spec(),
    ;
}

impl HasBlendFuncFactor for BlendFuncFactor {
    open spec fn blend_func_factor_constant_spec(&self) -> u32 {
        gl_blend_func_factor(*self)
    }

    fn blend_func_factor_constant(&self) -> (r: u32) {
        match self {
            BlendFuncFactor::Zero => 0,
            BlendFuncFactor::One => 1,
            BlendFuncFactor::SrcColor => 768,
            BlendFuncFactor::OneMinusSrcColor => 769,
            BlendFuncFactor::DstColor => 774,
            BlendFuncFactor::OneMinusDstColor => 775,
            BlendFuncFactor::SrcAlpha => 770,
            BlendFuncFactor::OneMinusSrcAlpha => 771,
            BlendFuncFactor::DstAlpha => 772,
            BlendFuncFactor::OneMinusDstAlpha => 773,
            BlendFuncFactor::ConstantColor => 32769,
            BlendFuncFactor::OneMinusConstantColor => 32770,
            BlendFuncFactor::ConstantAlpha => 32771,
            BlendFuncFactor::OneMinusConstantAlpha => 32772,
            BlendFuncFactor::SrcAlphaSaturate => 776,
        }
    }
}

} // verus!
