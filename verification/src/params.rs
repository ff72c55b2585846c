//! The uniform parameters of one draw pass, and how a paint and a scissor
//! determine them.

use vstd::prelude::*;
use crate::backend::GpuRendererBackend;
use crate::error::ErrorKind;
use crate::paint::{Paint, Scissor};
use crate::scalar::{Scalar, is_below_neg_half, below_neg_half, ZERO, ONE, TWO, THREE};
use crate::texture::{ImageId, TextureInfo, TextureType, FLIP_Y, PREMULTIPLIED};

verus! {

/// What the fragment stage computes a pixel's colour from.
#[derive(Clone, Copy, Debug, PartialEq, Eq, Structural)]
pub enum ShaderType {
    /// A gradient between the paint's two colours.
    FillGradient,
    /// The paint's image.
    FillImage,
    /// Nothing: the pass only marks coverage in the stencil buffer.
    Simple,
    /// The bound texture, sampled at the vertices' own coordinates.
    Img,
}

impl Default for ShaderType {
    fn default() -> (r: Self)
        ensures
            r == ShaderType::Simple,
    {
        ShaderType::Simple
    }
}

impl ShaderType {
    /// The number by which shaders know this mode.
    pub open spec fn code(self) -> int {
        match self {
            ShaderType::FillGradient => 0,
            ShaderType::FillImage => 1,
            ShaderType::Simple => 2,
            ShaderType::Img => 3,
        }
    }

    /// The mode's number, as the scalar that a uniform record stores.
    pub open spec fn selector(self) -> Scalar {
        match self {
            ShaderType::FillGradient => ZERO,
            ShaderType::FillImage => ONE,
            ShaderType::Simple => TWO,
            ShaderType::Img => THREE,
        }
    }

    pub fn to_i32(self) -> (r: i32)
        ensures
            r == self.code(),
    {
        match self {
            ShaderType::FillGradient => 0,
            ShaderType::FillImage => 1,
            ShaderType::Simple => 2,
            ShaderType::Img => 3,
        }
    }

    /// The mode's number as a scalar: `0.0`, `1.0`, `2.0` or `3.0`.
    pub fn to_scalar(self) -> (r: Scalar)
        ensures
            r == self.selector(),
    {
        match self {
            ShaderType::FillGradient => ZERO,
            ShaderType::FillImage => ONE,
            ShaderType::Simple => TWO,
            ShaderType::Img => THREE,
        }
    }
}

/// The uniform record of one draw pass, in the layout that shaders read.
#[derive(Clone, Copy, Debug, PartialEq, Eq)]
pub struct Params {
    /// Maps a screen position into the scissor's frame.
    pub scissor_mat: [Scalar; 12],
    /// Maps a screen position into the paint's frame.
    pub paint_mat: [Scalar; 12],
    /// Premultiplied inner colour.
    pub inner_col: [Scalar; 4],
    /// Premultiplied outer colour.
    pub outer_col: [Scalar; 4],
    /// Half the size of the scissor's box.
    pub scissor_ext: [Scalar; 2],
    /// Lengths in the scissor's frame, per pixel of fringe.
    pub scissor_scale: [Scalar; 2],
    pub extent: [Scalar; 2],
    pub radius: Scalar,
    pub feather: Scalar,
    pub stroke_mult: Scalar,
    /// The coverage below which a stroke's pixel is dropped; `-1.0` drops
    /// none.
    pub stroke_thr: Scalar,
    /// A [`ShaderType`], as a scalar.
    pub shader_type: Scalar,
    /// How the bound texture's samples are read: `0.0` premultiplied colour,
    /// `1.0` colour still to be premultiplied, `2.0` alpha alone.
    pub tex_type: Scalar,
}

/// Whether `scissor` clips at all.
pub open spec fn clips(scissor: Scissor) -> bool {
    !below_neg_half(scissor.extent[0]) && !below_neg_half(scissor.extent[1])
}

/// The texture selector for a texture that the backend reports as `texture`.
pub open spec fn texture_selector(texture: TextureInfo) -> Scalar {
    match texture.kind {
        TextureType::Rgba => if texture.flags.has(PREMULTIPLIED) {
            ZERO
        } else {
            ONE
        },
        TextureType::Alpha => TWO,
        TextureType::Rgb => ZERO,
    }
}

/// The uniform record for painting with `paint` inside `scissor`.
///
/// `texture` is what the backend reports of the paint's image, and `None`
/// for a paint without one.
pub open spec fn uniforms(
    paint: Paint,
    scissor: Scissor,
    stroke_mult: Scalar,
    stroke_thr: Scalar,
    texture: Option<TextureInfo>,
) -> Params {
    Params {
        scissor_mat: if clips(scissor) {
            scissor.inverse.mat3x4()
        } else {
            [ZERO, ZERO, ZERO, ZERO, ZERO, ZERO, ZERO, ZERO, ZERO, ZERO, ZERO, ZERO]
        },
        paint_mat: match texture {
            Some(t) => if t.flags.has(FLIP_Y) {
                paint.flipped_inverse.mat3x4()
            } else {
                paint.inverse.mat3x4()
            },
            None => paint.inverse.mat3x4(),
        },
        inner_col: paint.inner_color.channels(),
        outer_col: paint.outer_color.channels(),
        scissor_ext: if clips(scissor) {
            scissor.extent
        } else {
            [ONE, ONE]
        },
        scissor_scale: if clips(scissor) {
            scissor.scale
        } else {
            [ONE, ONE]
        },
        extent: paint.extent,
        radius: if texture is None {
            paint.radius
        } else {
            ZERO
        },
        feather: if texture is None {
            paint.feather
        } else {
            ZERO
        },
        stroke_mult,
        stroke_thr,
        shader_type: if texture is None {
            ShaderType::FillGradient.selector()
        } else {
            ShaderType::FillImage.selector()
        },
        tex_type: match texture {
            Some(t) => texture_selector(t),
            None => ZERO,
        },
    }
}

/// The record in which every number is `0.0`.
pub open spec fn zeroed() -> Params {
    Params {
        scissor_mat: [ZERO, ZERO, ZERO, ZERO, ZERO, ZERO, ZERO, ZERO, ZERO, ZERO, ZERO, ZERO],
        paint_mat: [ZERO, ZERO, ZERO, ZERO, ZERO, ZERO, ZERO, ZERO, ZERO, ZERO, ZERO, ZERO],
        inner_col: [ZERO, ZERO, ZERO, ZERO],
        outer_col: [ZERO, ZERO, ZERO, ZERO],
        scissor_ext: [ZERO, ZERO],
        scissor_scale: [ZERO, ZERO],
        extent: [ZERO, ZERO],
        radius: ZERO,
        feather: ZERO,
        stroke_mult: ZERO,
        stroke_thr: ZERO,
        shader_type: ZERO,
        tex_type: ZERO,
    }
}

impl Default for Params {
    fn default() -> (r: Self)
        ensures
            r == zeroed(),
    {
        Params {
            scissor_mat: [ZERO, ZERO, ZERO, ZERO, ZERO, ZERO, ZERO, ZERO, ZERO, ZERO, ZERO, ZERO],
            paint_mat: [ZERO, ZERO, ZERO, ZERO, ZERO, ZERO, ZERO, ZERO, ZERO, ZERO, ZERO, ZERO],
            inner_col: [ZERO, ZERO, ZERO, ZERO],
            outer_col: [ZERO, ZERO, ZERO, ZERO],
            scissor_ext: [ZERO, ZERO],
            scissor_scale: [ZERO, ZERO],
            extent: [ZERO, ZERO],
            radius: ZERO,
            feather: ZERO,
            stroke_mult: ZERO,
            stroke_thr: ZERO,
            shader_type: ZERO,
            tex_type: ZERO,
        }
    }
}

/// Whether `texture` is what `backend` answered when it was asked for the
/// layout and for the flags of the texture `id`.
pub open spec fn answered<T: GpuRendererBackend>(backend: &T, id: ImageId, texture: TextureInfo) -> bool {
    &&& call_ensures(T::texture_type, (backend, id), Some(texture.kind))
    &&& call_ensures(T::texture_flags, (backend, id), texture.flags)
}

/// Whether `backend`, asked for the layout of the texture `id`, answered
/// that it knows no such texture.
pub open spec fn unknown<T: GpuRendererBackend>(backend: &T, id: ImageId) -> bool {
    call_ensures(T::texture_type, (backend, id), None::<TextureType>)
}

/// Whether `texture` is what `backend` reported of the image of `paint`:
/// nothing for a paint without an image, which asks nothing, and else what
/// the backend answered about that image.
pub open spec fn reported<T: GpuRendererBackend>(
    backend: &T,
    paint: Paint,
    texture: Option<TextureInfo>,
) -> bool {
    match (paint.image, texture) {
        (None, None) => true,
        (Some(id), Some(found)) => answered(backend, id, found),
        _ => false,
    }
}

/// Whether `backend` answered that it does not know the image of `paint`.
pub open spec fn missing<T: GpuRendererBackend>(backend: &T, paint: Paint) -> bool {
    paint.image matches Some(id) && unknown(backend, id)
}

impl TextureInfo {
    /// Asks `backend` for the layout and the flags of the texture `id`.
    ///
    /// The result holds what the backend answered about `id`, the layout
    /// and the flags as they came. A backend that knows no such texture
    /// gives no layout. That is a fault: nothing is put in the place of
    /// what it did not report, and the flags are not asked for.
    pub fn of<T: GpuRendererBackend>(backend: &T, id: ImageId) -> (r: Result<TextureInfo, ErrorKind>)
        ensures
            match r {
                Ok(texture) => answered(backend, id, texture),
                Err(e) => e == ErrorKind::ImageIdNotFound && unknown(backend, id),
            },
    {
        match backend.texture_type(id) {
            None => Err(ErrorKind::ImageIdNotFound),
            Some(kind) => Ok(TextureInfo { flags: backend.texture_flags(id), kind }),
        }
    }

    /// Asks `backend` about the image of `paint`, if it has one.
    ///
    /// A paint without an image asks nothing, and cannot fail. For a paint
    /// with an image the result is what the backend answered about that
    /// image, or the fault that it answered that it knows none.
    pub fn of_paint<T: GpuRendererBackend>(backend: &T, paint: &Paint) -> (r: Result<
        Option<TextureInfo>,
        ErrorKind,
    >)
        ensures
            paint.image is None ==> r == Ok::<Option<TextureInfo>, ErrorKind>(None),
            r matches Ok(texture) ==> reported(backend, *paint, texture),
            r is Err ==> r == Err::<Option<TextureInfo>, ErrorKind>(ErrorKind::ImageIdNotFound)
                && missing(backend, *paint),
    {
        match paint.image {
            None => Ok(None),
            Some(id) => match TextureInfo::of(backend, id) {
                Ok(texture) => Ok(Some(texture)),
                Err(e) => Err(e),
            },
        }
    }
}

impl Params {
    /// Builds the record for `paint` and `scissor`, asking `backend` about
    /// the paint's image.
    ///
    /// For a paint without an image the record is that of
    /// [`Params::build`] without a texture. For a paint with an image it is
    /// the record of [`Params::build`] with what the backend reported, or
    /// the fault that the backend knows no such texture.
    pub fn new<T: GpuRendererBackend>(
        backend: &T,
        paint: &Paint,
        scissor: &Scissor,
        stroke_mult: Scalar,
        stroke_thr: Scalar,
    ) -> (r: Result<Params, ErrorKind>)
        ensures
            paint.image is None ==> r == Ok::<Params, ErrorKind>(
                uniforms(*paint, *scissor, stroke_mult, stroke_thr, None),
            ),
            r matches Ok(params) ==> exists|texture: Option<TextureInfo>|
                reported(backend, *paint, texture) && params == #[trigger] uniforms(
                    *paint,
                    *scissor,
                    stroke_mult,
                    stroke_thr,
                    texture,
                ),
            r is Err ==> r == Err::<Params, ErrorKind>(ErrorKind::ImageIdNotFound) && missing(
                backend,
                *paint,
            ),
    {
        match TextureInfo::of_paint(backend, paint) {
            Ok(texture) => Ok(Params::build(paint, scissor, stroke_mult, stroke_thr, texture)),
            Err(e) => Err(e),
        }
    }

    /// Builds the record for `paint` and `scissor`, given what the backend
    /// reports of the paint's image (`None` for a paint without one).
    ///
    /// A scissor whose extent has a component below `-0.5` does not clip:
    /// whatever its transform, the record then holds the extent and the
    /// scale `[1.0, 1.0]`.
    pub fn build(
        paint: &Paint,
        scissor: &Scissor,
        stroke_mult: Scalar,
        stroke_thr: Scalar,
        texture: Option<TextureInfo>,
    ) -> (r: Params)
        ensures
            r == uniforms(*paint, *scissor, stroke_mult, stroke_thr, texture),
            below_neg_half(scissor.extent[0]) || below_neg_half(scissor.extent[1]) ==> r.scissor_ext
                == [ONE, ONE] && r.scissor_scale == [ONE, ONE],
    {
        let mut params = Params::default();

        params.inner_col = paint.inner_color.to_array();
        params.outer_col = paint.outer_color.to_array();

        if is_below_neg_half(scissor.extent[0]) || is_below_neg_half(scissor.extent[1]) {
            params.scissor_ext = [ONE, ONE];
            params.scissor_scale = [ONE, ONE];
        } else {
            params.scissor_mat = scissor.inverse.to_mat3x4();
            params.scissor_ext = scissor.extent;
            params.scissor_scale = scissor.scale;
        }

        params.extent = paint.extent;
        params.stroke_mult = stroke_mult;
        params.stroke_thr = stroke_thr;

        match texture {
            Some(t) => {
                if t.flags.contains(FLIP_Y) {
                    params.paint_mat = paint.flipped_inverse.to_mat3x4();
                } else {
                    params.paint_mat = paint.inverse.to_mat3x4();
                }
                params.shader_type = ShaderType::FillImage.to_scalar();
                params.tex_type = match t.kind {
                    TextureType::Rgba => if t.flags.contains(PREMULTIPLIED) {
                        ZERO
                    } else {
                        ONE
                    },
                    TextureType::Alpha => TWO,
                    TextureType::Rgb => ZERO,
                };
            },
            None => {
                params.shader_type = ShaderType::FillGradient.to_scalar();
                params.radius = paint.radius;
                params.feather = paint.feather;
                params.paint_mat = paint.inverse.to_mat3x4();
            },
        }

        params
    }
}

} // verus!
