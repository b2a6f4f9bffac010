//! The checks that a render request goes through, and the answers to the ones it fails.

use std::sync::Arc;

use image::ImageEncoder;

use vstd::prelude::*;

use crate::response::{response_model, APIResponse, ResponseModel};
use crate::text::{
    append_tenths_text, eq_ignore_ascii_case, lower_code, same_ignoring_ascii_case, tenths_text,
};

verus! {

/// The player model whose mesh the texture is drawn on.
#[derive(Clone, Copy, Debug, PartialEq, Eq, Structural)]
pub enum Skin {
    Alex,
    Steve,
    SteveOld,
}

/// The skin that a `skin_type` text selects: `"steve"` and `"steve_old"` select their
/// models, every other text selects Alex.
pub open spec fn skin_named(name: Seq<char>) -> Skin {
    if name == "steve"@ {
        Skin::Steve
    } else if name == "steve_old"@ {
        Skin::SteveOld
    } else {
        Skin::Alex
    }
}

impl Skin {
    /// The skin that `name` selects (see `skin_named`).
    pub fn from_name(name: &str) -> (r: Skin)
        ensures
            r == skin_named(name@),
    {
        let given = name.to_owned();
        if given == "steve".to_owned() {
            Skin::Steve
        } else if given == "steve_old".to_owned() {
            Skin::SteveOld
        } else {
            Skin::Alex
        }
    }
}

/// The meshes the service draws on, one for each skin.
pub struct AppState<M> {
    alex: Arc<M>,
    steve: Arc<M>,
    steve_old: Arc<M>,
}

impl<M> AppState<M> {
    /// The mesh that `skin` is drawn on.
    pub closed spec fn mesh_of(&self, skin: Skin) -> M {
        match skin {
            Skin::Alex => *self.alex,
            Skin::Steve => *self.steve,
            Skin::SteveOld => *self.steve_old,
        }
    }

    /// The state that holds the three meshes.
    pub fn new(alex: M, steve: M, steve_old: M) -> (r: Self)
        ensures
            r.mesh_of(Skin::Alex) == alex,
            r.mesh_of(Skin::Steve) == steve,
            r.mesh_of(Skin::SteveOld) == steve_old,
    {
        AppState { alex: Arc::new(alex), steve: Arc::new(steve), steve_old: Arc::new(steve_old) }
    }

    /// The shared mesh that `skin` is drawn on.
    pub fn mesh(&self, skin: Skin) -> (r: &Arc<M>)
        ensures
            **r == self.mesh_of(skin),
    {
        match skin {
            Skin::Alex => &self.alex,
            Skin::Steve => &self.steve,
            Skin::SteveOld => &self.steve_old,
        }
    }
}

/// A form field that must lie within bounds.
#[derive(Clone, Copy, Debug, PartialEq, Eq, Structural)]
pub enum Limit {
    Width,
    Height,
    Fov,
    Far,
    Near,
    CamPosX,
    CamPosY,
    CamPosZ,
    CamRotX,
    CamRotY,
    ModPosX,
    ModPosY,
    ModPosZ,
    ModRotX,
    ModRotY,
    ResizeWidth,
    ResizeHeight,
}

/// The name of the form field.
pub open spec fn limit_name(limit: Limit) -> Seq<char> {
    match limit {
        Limit::Width => "width"@,
        Limit::Height => "height"@,
        Limit::Fov => "fov"@,
        Limit::Far => "far"@,
        Limit::Near => "near"@,
        Limit::CamPosX => "cam_pos_x"@,
        Limit::CamPosY => "cam_pos_y"@,
        Limit::CamPosZ => "cam_pos_z"@,
        Limit::CamRotX => "cam_rot_x"@,
        Limit::CamRotY => "cam_rot_y"@,
        Limit::ModPosX => "mod_pos_x"@,
        Limit::ModPosY => "mod_pos_y"@,
        Limit::ModPosZ => "mod_pos_z"@,
        Limit::ModRotX => "mod_rot_x"@,
        Limit::ModRotY => "mod_rot_y"@,
        Limit::ResizeWidth => "resize_width"@,
        Limit::ResizeHeight => "resize_height"@,
    }
}

/// The least and the greatest value the field admits, in tenths
/// (so `(1, 10000)` admits the values from 0.1 to 1000).
pub open spec fn limit_bounds(limit: Limit) -> (int, int) {
    match limit {
        Limit::Width | Limit::Height | Limit::ResizeWidth | Limit::ResizeHeight => (100, 10000),
        Limit::Fov => (10, 3600),
        Limit::Far => (10, 10000),
        Limit::Near => (1, 10000),
        Limit::CamPosX | Limit::CamPosY | Limit::CamPosZ => (-10000, 10000),
        Limit::ModPosX | Limit::ModPosY | Limit::ModPosZ => (-10000, 10000),
        Limit::CamRotX | Limit::CamRotY | Limit::ModRotX | Limit::ModRotY => (-3600, 3600),
    }
}

/// Whether the whole number `value` lies within the field's bounds.
pub open spec fn admits(limit: Limit, value: u32) -> bool {
    limit_bounds(limit).0 <= 10 * value <= limit_bounds(limit).1
}

impl Limit {
    /// The name of the form field.
    pub fn name(&self) -> (r: &'static str)
        ensures
            r@ == limit_name(*self),
    {
        match self {
            Limit::Width => "width",
            Limit::Height => "height",
            Limit::Fov => "fov",
            Limit::Far => "far",
            Limit::Near => "near",
            Limit::CamPosX => "cam_pos_x",
            Limit::CamPosY => "cam_pos_y",
            Limit::CamPosZ => "cam_pos_z",
            Limit::CamRotX => "cam_rot_x",
            Limit::CamRotY => "cam_rot_y",
            Limit::ModPosX => "mod_pos_x",
            Limit::ModPosY => "mod_pos_y",
            Limit::ModPosZ => "mod_pos_z",
            Limit::ModRotX => "mod_rot_x",
            Limit::ModRotY => "mod_rot_y",
            Limit::ResizeWidth => "resize_width",
            Limit::ResizeHeight => "resize_height",
        }
    }

    /// The least and the greatest value the field admits, in tenths.
    pub fn bounds_in_tenths(&self) -> (r: (i32, i32))
        ensures
            r.0 == limit_bounds(*self).0,
            r.1 == limit_bounds(*self).1,
    {
        match self {
            Limit::Width | Limit::Height | Limit::ResizeWidth | Limit::ResizeHeight => (100, 10000),
            Limit::Fov => (10, 3600),
            Limit::Far => (10, 10000),
            Limit::Near => (1, 10000),
            Limit::CamPosX | Limit::CamPosY | Limit::CamPosZ => (-10000, 10000),
            Limit::ModPosX | Limit::ModPosY | Limit::ModPosZ => (-10000, 10000),
            Limit::CamRotX | Limit::CamRotY | Limit::ModRotX | Limit::ModRotY => (-3600, 3600),
        }
    }

    /// Whether the whole number `value` lies within the field's bounds.
    pub fn admits(&self, value: u32) -> (r: bool)
        ensures
            r == admits(*self, value),
    {
        let (lo, hi) = self.bounds_in_tenths();
        let tenths: i64 = (value as i64) * 10;
        lo as i64 <= tenths && tenths <= hi as i64
    }
}

/// The fractional fields of the form, in the order in which they are checked.
pub open spec fn view_float_limits() -> Seq<Limit> {
    seq![
        Limit::Fov,
        Limit::Far,
        Limit::Near,
        Limit::CamPosX,
        Limit::CamPosY,
        Limit::CamPosZ,
        Limit::CamRotX,
        Limit::CamRotY,
        Limit::ModPosX,
        Limit::ModPosY,
        Limit::ModPosZ,
        Limit::ModRotX,
        Limit::ModRotY,
    ]
}

/// The fractional fields of the form, in the order in which they are checked.
pub fn float_limits() -> (r: Vec<Limit>)
    ensures
        r@ == view_float_limits(),
{
    vec![
        Limit::Fov,
        Limit::Far,
        Limit::Near,
        Limit::CamPosX,
        Limit::CamPosY,
        Limit::CamPosZ,
        Limit::CamRotX,
        Limit::CamRotY,
        Limit::ModPosX,
        Limit::ModPosY,
        Limit::ModPosZ,
        Limit::ModRotX,
        Limit::ModRotY,
    ]
}

/// Why a render request is refused.
#[derive(Clone, Copy, Debug, PartialEq, Eq, Structural)]
pub enum RenderFailure {
    /// The uploaded texture is not declared as a PNG image.
    TextureFormat,
    /// The uploaded texture's file could not be opened.
    TextureOpen,
    /// The uploaded texture could not be read as a PNG image.
    TextureRead,
    /// The texture is neither as wide as high nor twice as wide as high.
    AspectRatio,
    /// A field lies outside its bounds.
    OutOfLimits(Limit),
}

/// The answer to each refusal.
pub open spec fn failure_model(failure: RenderFailure) -> ResponseModel {
    match failure {
        RenderFailure::TextureFormat => response_model(
            400,
            "texture"@,
            "texture must be in png format"@,
            "texture must be an image in png format and have size up to ~1MB"@,
        ),
        RenderFailure::TextureOpen => response_model(
            500,
            "texture"@,
            "texture file couldn't be opened on the server"@,
            "maybe texture file is corrupted"@,
        ),
        RenderFailure::TextureRead => response_model(
            500,
            "texture"@,
            "texture file couldn't be readed on the server"@,
            "maybe texture file is corrupted"@,
        ),
        RenderFailure::AspectRatio => response_model(
            400,
            "texture"@,
            "texture have wrong aspect ratio"@,
            "texture aspect-ratio needs to be 1/1 or 2/1 (64x64, 256x256, 64x32 etc...)"@,
        ),
        RenderFailure::OutOfLimits(limit) => response_model(
            400,
            limit_name(limit),
            "field '"@ + limit_name(limit) + "' is out of limits"@,
            "field '"@ + limit_name(limit) + "' value needs to be in range "@ + tenths_text(
                limit_bounds(limit).0,
            ) + "-"@ + tenths_text(limit_bounds(limit).1),
        ),
    }
}

impl RenderFailure {
    /// The answer to the refusal.
    pub fn response(&self) -> (r: APIResponse)
        ensures
            r@ == failure_model(*self),
    {
        match self {
            RenderFailure::TextureFormat => APIResponse::new(
                400,
                "texture",
                "texture must be in png format",
                "texture must be an image in png format and have size up to ~1MB",
            ),
            RenderFailure::TextureOpen => APIResponse::new(
                500,
                "texture",
                "texture file couldn't be opened on the server",
                "maybe texture file is corrupted",
            ),
            RenderFailure::TextureRead => APIResponse::new(
                500,
                "texture",
                "texture file couldn't be readed on the server",
                "maybe texture file is corrupted",
            ),
            RenderFailure::AspectRatio => APIResponse::new(
                400,
                "texture",
                "texture have wrong aspect ratio",
                "texture aspect-ratio needs to be 1/1 or 2/1 (64x64, 256x256, 64x32 etc...)",
            ),
            RenderFailure::OutOfLimits(limit) => {
                let name = limit.name();
                let (lo, hi) = limit.bounds_in_tenths();
                let mut message = "field '".to_owned();
                message.append(name);
                message.append("' is out of limits");
                let mut description = "field '".to_owned();
                description.append(name);
                description.append("' value needs to be in range ");
                append_tenths_text(&mut description, lo);
                description.append("-");
                append_tenths_text(&mut description, hi);
                APIResponse { code: 400, field: name.to_owned(), message, description }
            },
        }
    }
}

/// Whether the content type that the upload declares is the PNG type: its text is
/// `image/png` up to the case of ASCII letters (a type with parameters never is).
pub open spec fn declares_png(content_type: Option<Seq<char>>) -> bool {
    match content_type {
        Some(text) => eq_ignore_ascii_case(text, "image/png"@),
        None => false,
    }
}

/// Checks the content type that the uploaded texture declares.
pub fn check_texture_type(content_type: Option<&str>) -> (r: Result<(), RenderFailure>)
    ensures
        r == (if declares_png(
            match content_type {
                Some(text) => Some(text@),
                None => None,
            },
        ) {
            Ok(())
        } else {
            Err(RenderFailure::TextureFormat)
        }),
{
    match content_type {
        Some(text) => {
            if same_ignoring_ascii_case(text, "image/png") {
                Ok(())
            } else {
                Err(RenderFailure::TextureFormat)
            }
        },
        None => Err(RenderFailure::TextureFormat),
    }
}

#[verifier::external_type_specification]
#[verifier::external_body]
pub struct ExDynamicImage(image::DynamicImage);

/// The width and height of the image that `image::load_from_memory_with_format`
/// decodes from `bytes` as PNG, or `None` where it returns an error.
pub uninterp spec fn png_dimensions(bytes: Seq<u8>) -> Option<(u32, u32)>;

/// The image that `image::load_from_memory_with_format` decodes from `bytes` as PNG
/// (with the decoder's fixed default limits), or `None` where it returns an error.
pub uninterp spec fn png_texture(bytes: Seq<u8>) -> Option<image::DynamicImage>;

/// `image::load_from_memory_with_format(bytes, ImageFormat::Png)`, with the decoded
/// image's `width()` and `height()`. The image is named by `png_texture` and its size by
/// `png_dimensions`; the `png` crate refuses an image with a zero width or height, so
/// both are positive.
#[verifier::external_body]
fn decode_png(bytes: &[u8]) -> (r: Option<(image::DynamicImage, u32, u32)>)
    ensures
        match r {
            Some((texture, width, height)) => png_texture(bytes@) == Some(texture)
                && png_dimensions(bytes@) == Some((width, height)) && width > 0 && height > 0,
            None => png_texture(bytes@) is None && png_dimensions(bytes@) is None,
        },
{
    match image::load_from_memory_with_format(bytes, image::ImageFormat::Png) {
        Ok(texture) => {
            let (width, height) = (texture.width(), texture.height());
            Some((texture, width, height))
        },
        Err(_) => None,
    }
}

/// Reads the uploaded texture as a PNG image: the image with its width and height, or
/// the refusal for a texture that cannot be read.
pub fn load_texture(bytes: &[u8]) -> (r: Result<(image::DynamicImage, u32, u32), RenderFailure>)
    ensures
        match r {
            Ok((texture, width, height)) => png_texture(bytes@) == Some(texture) && png_dimensions(
                bytes@,
            ) == Some((width, height)) && width > 0 && height > 0,
            Err(failure) => failure == RenderFailure::TextureRead && png_texture(bytes@) is None
                && png_dimensions(bytes@) is None,
        },
{
    match decode_png(bytes) {
        Some(decoded) => Ok(decoded),
        None => Err(RenderFailure::TextureRead),
    }
}

/// What the renderer is asked to draw once the request is accepted.
#[derive(Clone, Copy, Debug, PartialEq, Eq, Structural)]
pub struct ViewPlan {
    pub width: u32,
    pub height: u32,
    pub skin: Skin,
}

/// The first index from `i` on at which `flags` holds `false`.
pub open spec fn first_false_from(flags: Seq<bool>, i: int) -> Option<int>
    decreases flags.len() - i,
{
    if i < 0 || i >= flags.len() {
        None
    } else if !flags[i] {
        Some(i)
    } else {
        first_false_from(flags, i + 1)
    }
}

/// Whether a texture of this size is as wide as high or twice as wide as high, in
/// whole-number division (so 64x32 and 65x64 pass, 64x20 does not).
pub open spec fn aspect_ratio_ok(texture_width: u32, texture_height: u32) -> bool {
    texture_width / texture_height == 1 || texture_width / texture_height == 2
}

/// The decision on the view that a request asks for. `in_range[i]` says whether the
/// value of the fractional field `view_float_limits()[i]` lies within its bounds. The
/// texture's aspect ratio is judged first, then `width`, then `height`, then the
/// fractional fields in order; the first that fails is the refusal.
pub open spec fn view_decision(
    texture_width: u32,
    texture_height: u32,
    width: u32,
    height: u32,
    skin_type: Seq<char>,
    in_range: Seq<bool>,
) -> Result<ViewPlan, RenderFailure> {
    if !aspect_ratio_ok(texture_width, texture_height) {
        Err(RenderFailure::AspectRatio)
    } else if !admits(Limit::Width, width) {
        Err(RenderFailure::OutOfLimits(Limit::Width))
    } else if !admits(Limit::Height, height) {
        Err(RenderFailure::OutOfLimits(Limit::Height))
    } else {
        match first_false_from(in_range, 0) {
            Some(i) => Err(RenderFailure::OutOfLimits(view_float_limits()[i])),
            None => Ok(ViewPlan { width, height, skin: skin_named(skin_type) }),
        }
    }
}

/// Decides on the view that a request asks for (see `view_decision`).
pub fn plan_view(
    texture_width: u32,
    texture_height: u32,
    width: u32,
    height: u32,
    skin_type: &str,
    in_range: &Vec<bool>,
) -> (r: Result<ViewPlan, RenderFailure>)
    requires
        texture_height > 0,
        in_range@.len() == view_float_limits().len(),
    ensures
        r == view_decision(texture_width, texture_height, width, height, skin_type@, in_range@),
{
    let ratio = texture_width / texture_height;
    if ratio != 1 && ratio != 2 {
        return Err(RenderFailure::AspectRatio);
    }
    if !Limit::Width.admits(width) {
        return Err(RenderFailure::OutOfLimits(Limit::Width));
    }
    if !Limit::Height.admits(height) {
        return Err(RenderFailure::OutOfLimits(Limit::Height));
    }
    let skin = Skin::from_name(skin_type);
    let limits = float_limits();
    let mut i: usize = 0;
    while i < in_range.len()
        invariant
            limits@ == view_float_limits(),
            in_range@.len() == limits@.len(),
            i <= in_range@.len(),
            first_false_from(in_range@, 0) == first_false_from(in_range@, i as int),
            aspect_ratio_ok(texture_width, texture_height),
            admits(Limit::Width, width),
            admits(Limit::Height, height),
            skin == skin_named(skin_type@),
        decreases in_range@.len() - i,
    {
        if !in_range[i] {
            return Err(RenderFailure::OutOfLimits(limits[i]));
        }
        i = i + 1;
    }
    Ok(ViewPlan { width, height, skin })
}

/// The decision on the resizing that a request asks for, made after rendering:
/// without `resize` there is none; with it, `resize_width` is checked, then
/// `resize_height`.
pub open spec fn resize_decision(resize: bool, resize_width: u32, resize_height: u32) -> Result<
    Option<(u32, u32)>,
    RenderFailure,
> {
    if !resize {
        Ok(None)
    } else if !admits(Limit::ResizeWidth, resize_width) {
        Err(RenderFailure::OutOfLimits(Limit::ResizeWidth))
    } else if !admits(Limit::ResizeHeight, resize_height) {
        Err(RenderFailure::OutOfLimits(Limit::ResizeHeight))
    } else {
        Ok(Some((resize_width, resize_height)))
    }
}

/// Decides on the resizing that a request asks for (see `resize_decision`).
pub fn plan_resize(resize: bool, resize_width: u32, resize_height: u32) -> (r: Result<
    Option<(u32, u32)>,
    RenderFailure,
>)
    ensures
        r == resize_decision(resize, resize_width, resize_height),
{
    if !resize {
        return Ok(None);
    }
    if !Limit::ResizeWidth.admits(resize_width) {
        return Err(RenderFailure::OutOfLimits(Limit::ResizeWidth));
    }
    if !Limit::ResizeHeight.admits(resize_height) {
        return Err(RenderFailure::OutOfLimits(Limit::ResizeHeight));
    }
    Ok(Some((resize_width, resize_height)))
}

/// The PNG file that `image::codecs::png::PngEncoder` writes for an RGBA image with 8
/// bits a channel, or `None` where `write_image` returns an error.
pub uninterp spec fn png_encoding(rgba: Seq<u8>, width: u32, height: u32) -> Option<Seq<u8>>;

/// `PngEncoder::new(..).write_image(rgba, width, height, ExtendedColorType::Rgba8)` into
/// a vector. What it writes is named by `png_encoding`. `write_image` panics unless the
/// buffer holds exactly four bytes for each pixel, hence the `requires`.
#[verifier::external_body]
fn write_rgba_png(rgba: &[u8], width: u32, height: u32) -> (r: Option<Vec<u8>>)
    requires
        rgba@.len() == width * height * 4,
    ensures
        match r {
            Some(file) => png_encoding(rgba@, width, height) == Some(file@),
            None => png_encoding(rgba@, width, height) is None,
        },
{
    let mut file: Vec<u8> = Vec::new();
    match image::codecs::png::PngEncoder::new(&mut file).write_image(
        rgba,
        width,
        height,
        image::ExtendedColorType::Rgba8,
    ) {
        Ok(()) => Some(file),
        Err(_) => None,
    }
}

/// Encodes the rendered RGBA picture (four bytes a pixel, row by row) as the PNG file
/// that the service answers with; `None` where the encoder fails.
pub fn encode_png(rgba: &[u8], width: u32, height: u32) -> (r: Option<Vec<u8>>)
    requires
        rgba@.len() == width * height * 4,
    ensures
        match r {
            Some(file) => png_encoding(rgba@, width, height) == Some(file@),
            None => png_encoding(rgba@, width, height) is None,
        },
{
    write_rgba_png(rgba, width, height)
}

/// Where no index from `i` on holds `false`, every index from `i` on holds `true`.
proof fn lemma_no_false_from(flags: Seq<bool>, i: int)
    requires
        0 <= i,
        first_false_from(flags, i) is None,
    ensures
        forall|j: int| i <= j < flags.len() ==> flags[j],
    decreases flags.len() - i,
{
    if i < flags.len() {
        lemma_no_false_from(flags, i + 1);
    }
}

/// A view that is accepted has passed every check: the texture is as wide as high or
/// twice as wide as high, `width` and `height` lie from 10 to 1000, and every
/// fractional field lies within its bounds.
pub proof fn lemma_accepted_view_meets_every_limit(
    texture_width: u32,
    texture_height: u32,
    width: u32,
    height: u32,
    skin_type: Seq<char>,
    in_range: Seq<bool>,
)
    requires
        view_decision(texture_width, texture_height, width, height, skin_type, in_range) is Ok,
    ensures
        aspect_ratio_ok(texture_width, texture_height),
        10 <= width <= 1000,
        10 <= height <= 1000,
        forall|i: int| 0 <= i < in_range.len() ==> in_range[i],
{
    lemma_no_false_from(in_range, 0);
}

/// The skin type never causes a refusal: two requests that differ only in it are
/// refused for the same reason or both accepted, with the same size.
pub proof fn lemma_skin_type_never_refuses(
    texture_width: u32,
    texture_height: u32,
    width: u32,
    height: u32,
    skin_type: Seq<char>,
    other_skin_type: Seq<char>,
    in_range: Seq<bool>,
)
    ensures
        ({
            let a = view_decision(texture_width, texture_height, width, height, skin_type, in_range);
            let b = view_decision(
                texture_width,
                texture_height,
                width,
                height,
                other_skin_type,
                in_range,
            );
            &&& a is Ok <==> b is Ok
            &&& a is Err ==> a == b
            &&& a is Ok ==> a->Ok_0.width == b->Ok_0.width && a->Ok_0.height == b->Ok_0.height
        }),
{
}

/// Each skin type selects its own mesh: `"steve"` Steve's, `"steve_old"` the old
/// Steve's, and every other text Alex's.
pub proof fn lemma_skin_type_selects_mesh<M>(state: AppState<M>, skin_type: Seq<char>)
    ensures
        state.mesh_of(skin_named(skin_type)) == (if skin_type == "steve"@ {
            state.mesh_of(Skin::Steve)
        } else if skin_type == "steve_old"@ {
            state.mesh_of(Skin::SteveOld)
        } else {
            state.mesh_of(Skin::Alex)
        }),
{
    reveal_strlit("steve");
    reveal_strlit("steve_old");
}

/// Every refusal of a render request carries a valid HTTP status, so it is sent with
/// exactly the code it holds.
pub proof fn lemma_render_refusals_keep_their_status(failure: RenderFailure)
    ensures
        100 <= failure_model(failure).code < 1000,
        crate::response::effective_status(failure_model(failure).code) == failure_model(
            failure,
        ).code,
{
}

/// A refusal for a field out of bounds names that field, in `field` and in its message
/// (right after `field '`), and its description ends with the field's upper bound.
pub proof fn lemma_out_of_limits_names_the_field(limit: Limit)
    ensures
        ({
            let model = failure_model(RenderFailure::OutOfLimits(limit));
            let name = limit_name(limit);
            let upper = tenths_text(limit_bounds(limit).1);
            &&& model.code == 400
            &&& model.field == name
            &&& model.message.subrange(7, 7 + name.len() as int) == name
            &&& model.description.len() >= upper.len()
            &&& model.description.subrange(
                model.description.len() - upper.len(),
                model.description.len() as int,
            ) == upper
        }),
{
    reveal_strlit("field '");
    let model = failure_model(RenderFailure::OutOfLimits(limit));
    let name = limit_name(limit);
    let upper = tenths_text(limit_bounds(limit).1);
    assert(model.message.subrange(7, 7 + name.len() as int) =~= name);
    assert(model.description.subrange(
        model.description.len() - upper.len(),
        model.description.len() as int,
    ) =~= upper);
}

/// The outcome of every step of a render request, in the order in which the steps run:
/// the declared content type of the texture, whether its file could be opened, what
/// decoding it gave (its width and height), the view fields (`in_range[i]` says whether
/// the fractional field `view_float_limits()[i]` lies within its bounds), and the resize
/// fields. The first step that fails decides the refusal; rendering happens between the
/// view and the resize checks.
pub open spec fn request_decision(
    content_type: Option<Seq<char>>,
    opened: bool,
    decoded: Option<(u32, u32)>,
    width: u32,
    height: u32,
    skin_type: Seq<char>,
    in_range: Seq<bool>,
    resize: bool,
    resize_width: u32,
    resize_height: u32,
) -> Result<(ViewPlan, Option<(u32, u32)>), RenderFailure> {
    if !declares_png(content_type) {
        Err(RenderFailure::TextureFormat)
    } else if !opened {
        Err(RenderFailure::TextureOpen)
    } else {
        match decoded {
            None => Err(RenderFailure::TextureRead),
            Some((texture_width, texture_height)) => match view_decision(
                texture_width,
                texture_height,
                width,
                height,
                skin_type,
                in_range,
            ) {
                Err(failure) => Err(failure),
                Ok(plan) => match resize_decision(resize, resize_width, resize_height) {
                    Err(failure) => Err(failure),
                    Ok(size) => Ok((plan, size)),
                },
            },
        }
    }
}

/// The first `false` from `i` on lies within `flags`, holds `false`, and every index
/// before it from `i` on holds `true`.
proof fn lemma_first_false_facts(flags: Seq<bool>, i: int, k: int)
    requires
        0 <= i,
        first_false_from(flags, i) == Some(k),
    ensures
        i <= k < flags.len(),
        !flags[k],
        forall|j: int| i <= j < k ==> flags[j],
    decreases flags.len() - i,
{
    if i < flags.len() && flags[i] {
        lemma_first_false_facts(flags, i + 1, k);
    }
}

/// Where `flags` and `other` agree up to and including the first `false` of `flags`,
/// that is also the first `false` of `other`.
proof fn lemma_first_false_prefix(flags: Seq<bool>, other: Seq<bool>, i: int, k: int)
    requires
        0 <= i <= k,
        first_false_from(flags, i) == Some(k),
        k < other.len(),
        forall|j: int| i <= j <= k ==> flags[j] == other[j],
    ensures
        first_false_from(other, i) == Some(k),
    decreases k - i,
{
    lemma_first_false_facts(flags, i, k);
    assert(flags[i] == other[i]);
    assert(flags[k] == other[k]);
    if i < k {
        assert(flags[i]);
        lemma_first_false_prefix(flags, other, i + 1, k);
    }
}

/// A request refused before its file is opened, opened or decoded is refused for the
/// same reason whatever the later steps would have given.
pub proof fn lemma_texture_refusal_ignores_later_steps(
    content_type: Option<Seq<char>>,
    opened: bool,
    other_opened: bool,
    decoded: Option<(u32, u32)>,
    other_decoded: Option<(u32, u32)>,
    width: u32,
    other_width: u32,
    height: u32,
    other_height: u32,
    skin_type: Seq<char>,
    other_skin_type: Seq<char>,
    in_range: Seq<bool>,
    other_in_range: Seq<bool>,
    resize: bool,
    other_resize: bool,
    resize_width: u32,
    other_resize_width: u32,
    resize_height: u32,
    other_resize_height: u32,
)
    ensures
        ({
            let first = request_decision(
                content_type, opened, decoded, width, height, skin_type, in_range, resize,
                resize_width, resize_height,
            );
            let other = request_decision(
                content_type, other_opened, other_decoded, other_width, other_height,
                other_skin_type, other_in_range, other_resize, other_resize_width,
                other_resize_height,
            );
            &&& !declares_png(content_type) ==> first == other && first == Err::<
                (ViewPlan, Option<(u32, u32)>),
                RenderFailure,
            >(RenderFailure::TextureFormat)
            &&& (declares_png(content_type) && !opened && !other_opened) ==> first == other
                && first == Err::<(ViewPlan, Option<(u32, u32)>), RenderFailure>(
                RenderFailure::TextureOpen,
            )
            &&& (declares_png(content_type) && opened && other_opened && decoded is None
                && other_decoded is None) ==> first == other && first == Err::<
                (ViewPlan, Option<(u32, u32)>),
                RenderFailure,
            >(RenderFailure::TextureRead)
        }),
{
}

/// A request whose view is refused is refused for the same reason whatever its later
/// fields hold: a bad aspect ratio whatever the view and resize fields, a bad `width`
/// whatever `height` and the fractional fields, a bad `height` whatever the fractional
/// fields, a fractional field out of bounds whatever the fields after it, and, in every
/// case, whatever the resize fields.
pub proof fn lemma_view_refusal_ignores_later_fields(
    content_type: Option<Seq<char>>,
    texture_width: u32,
    texture_height: u32,
    width: u32,
    other_width: u32,
    height: u32,
    other_height: u32,
    skin_type: Seq<char>,
    other_skin_type: Seq<char>,
    in_range: Seq<bool>,
    other_in_range: Seq<bool>,
    resize: bool,
    other_resize: bool,
    resize_width: u32,
    other_resize_width: u32,
    resize_height: u32,
    other_resize_height: u32,
)
    requires
        declares_png(content_type),
    ensures
        ({
            let decoded = Some((texture_width, texture_height));
            let refusal = request_decision(
                content_type, true, decoded, width, height, skin_type, in_range, resize,
                resize_width, resize_height,
            );
            &&& !aspect_ratio_ok(texture_width, texture_height) ==> refusal == request_decision(
                content_type, true, decoded, other_width, other_height, other_skin_type,
                other_in_range, other_resize, other_resize_width, other_resize_height,
            ) && refusal == Err::<(ViewPlan, Option<(u32, u32)>), RenderFailure>(
                RenderFailure::AspectRatio,
            )
            &&& (aspect_ratio_ok(texture_width, texture_height) && !admits(Limit::Width, width))
                ==> refusal == request_decision(
                content_type, true, decoded, width, other_height, other_skin_type,
                other_in_range, other_resize, other_resize_width, other_resize_height,
            ) && refusal == Err::<(ViewPlan, Option<(u32, u32)>), RenderFailure>(
                RenderFailure::OutOfLimits(Limit::Width),
            )
            &&& (aspect_ratio_ok(texture_width, texture_height) && admits(Limit::Width, width)
                && !admits(Limit::Height, height)) ==> refusal == request_decision(
                content_type, true, decoded, width, height, other_skin_type, other_in_range,
                other_resize, other_resize_width, other_resize_height,
            ) && refusal == Err::<(ViewPlan, Option<(u32, u32)>), RenderFailure>(
                RenderFailure::OutOfLimits(Limit::Height),
            )
            &&& view_decision(texture_width, texture_height, width, height, skin_type, in_range)
                is Err ==> refusal == request_decision(
                content_type, true, decoded, width, height, skin_type, in_range, other_resize,
                other_resize_width, other_resize_height,
            )
        }),
{
}

/// A request refused because the fractional field at index `k` of `view_float_limits()`
/// is out of bounds (the first such field) is refused so whatever the fields after it,
/// the skin type and the resize fields hold.
pub proof fn lemma_fraction_refusal_ignores_later_fields(
    content_type: Option<Seq<char>>,
    texture_width: u32,
    texture_height: u32,
    width: u32,
    height: u32,
    skin_type: Seq<char>,
    other_skin_type: Seq<char>,
    in_range: Seq<bool>,
    other_in_range: Seq<bool>,
    k: int,
    resize: bool,
    other_resize: bool,
    resize_width: u32,
    other_resize_width: u32,
    resize_height: u32,
    other_resize_height: u32,
)
    requires
        declares_png(content_type),
        aspect_ratio_ok(texture_width, texture_height),
        admits(Limit::Width, width),
        admits(Limit::Height, height),
        first_false_from(in_range, 0) == Some(k),
        k < other_in_range.len(),
        forall|j: int| 0 <= j <= k ==> in_range[j] == other_in_range[j],
    ensures
        request_decision(
            content_type, true, Some((texture_width, texture_height)), width, height, skin_type,
            in_range, resize, resize_width, resize_height,
        ) == request_decision(
            content_type, true, Some((texture_width, texture_height)), width, height,
            other_skin_type, other_in_range, other_resize, other_resize_width,
            other_resize_height,
        ),
        request_decision(
            content_type, true, Some((texture_width, texture_height)), width, height, skin_type,
            in_range, resize, resize_width, resize_height,
        ) == Err::<(ViewPlan, Option<(u32, u32)>), RenderFailure>(
            RenderFailure::OutOfLimits(view_float_limits()[k]),
        ),
{
    lemma_first_false_facts(in_range, 0, k);
    lemma_first_false_prefix(in_range, other_in_range, 0, k);
}

/// A request refused for its resize width is refused so whatever its resize height.
pub proof fn lemma_resize_width_refusal_ignores_height(
    resize_width: u32,
    resize_height: u32,
    other_resize_height: u32,
)
    requires
        !admits(Limit::ResizeWidth, resize_width),
    ensures
        resize_decision(true, resize_width, resize_height) == resize_decision(
            true,
            resize_width,
            other_resize_height,
        ),
{
}

/// The PNG type check accepts a declared content type exactly when it has the nine
/// characters of `image/png`, each either that character or, for a letter, its ASCII
/// upper-case form; no declared type, or any other text, is refused.
pub proof fn lemma_png_type_check_is_exact(content_type: Option<Seq<char>>)
    ensures
        declares_png(content_type) <==> match content_type {
            Some(t) => t.len() == 9 && forall|i: int|
                0 <= i < 9 ==> (#[trigger] t[i] == "image/png"@[i] || (97 <= "image/png"@[i] as int
                    <= 122 && t[i] as int == "image/png"@[i] as int - 32)),
            None => false,
        },
{
    reveal_strlit("image/png");
    let p = "image/png"@;
    assert(p =~= seq!['i', 'm', 'a', 'g', 'e', '/', 'p', 'n', 'g']);
    if let Some(t) = content_type {
        if t.len() == 9 {
            assert forall|i: int| 0 <= i < 9 implies (lower_code(t[i]) == lower_code(p[i]) <==> (
            t[i] == p[i] || (97 <= p[i] as int <= 122 && t[i] as int == p[i] as int - 32))) by {
                assert(p[i] as int == 47 || 97 <= p[i] as int <= 122);
            }
        }
    }
}

/// The aspect-ratio refusal: with any texture height above zero, a view is refused for
/// its aspect ratio exactly when the texture is narrower than high or at least three
/// times as wide as high (so square and 2:1 textures of any size pass).
pub proof fn lemma_aspect_ratio_refusal_is_exact(
    texture_width: u32,
    texture_height: u32,
    width: u32,
    height: u32,
    skin_type: Seq<char>,
    in_range: Seq<bool>,
)
    requires
        texture_height > 0,
    ensures
        (view_decision(texture_width, texture_height, width, height, skin_type, in_range)
            == Err::<ViewPlan, RenderFailure>(RenderFailure::AspectRatio)) <==> !(texture_height
            <= texture_width && texture_width < 3 * texture_height),
{
    let w = texture_width as int;
    let h = texture_height as int;
    assert((w / h == 1 || w / h == 2) <==> (h <= w && w < 3 * h)) by (nonlinear_arith)
        requires
            h > 0,
            w >= 0,
    {
        let q = w / h;
        assert(w == h * q + w % h);
        assert(0 <= w % h < h);
        if q <= 0 {
            assert(h * q <= 0);
        }
        if q >= 3 {
            assert(h * q >= 3 * h);
        }
        if q == 1 {
            assert(h * q == h);
        }
        if q == 2 {
            assert(h * q == 2 * h);
        }
        if h <= w && w < 3 * h {
            assert(q >= 1 && q <= 2) by {
                if q <= 0 {
                    assert(h * q <= 0);
                }
                if q >= 3 {
                    assert(h * q >= 3 * h);
                }
            }
        }
    }
}

/// An accepted view draws the requested size on the model its skin type names:
/// `"steve"` the Steve model, `"steve_old"` the old Steve model, any other text the Alex
/// model; and it only accepts sizes from 10 to 1000.
pub proof fn lemma_accepted_view_plan(
    texture_width: u32,
    texture_height: u32,
    width: u32,
    height: u32,
    skin_type: Seq<char>,
    in_range: Seq<bool>,
)
    requires
        view_decision(texture_width, texture_height, width, height, skin_type, in_range) is Ok,
    ensures
        ({
            let plan = view_decision(
                texture_width,
                texture_height,
                width,
                height,
                skin_type,
                in_range,
            )->Ok_0;
            &&& plan.width == width
            &&& plan.height == height
            &&& 10 <= width <= 1000
            &&& 10 <= height <= 1000
            &&& plan.skin == (if skin_type == "steve"@ {
                Skin::Steve
            } else if skin_type == "steve_old"@ {
                Skin::SteveOld
            } else {
                Skin::Alex
            })
        }),
{
}

/// The skin names: `"steve"` names the Steve model, `"steve_old"` the old Steve model,
/// and every other text the Alex model; the two Steve names name different models.
pub proof fn lemma_skin_names(name: Seq<char>)
    ensures
        skin_named(name) == (if name == "steve"@ {
            Skin::Steve
        } else if name == "steve_old"@ {
            Skin::SteveOld
        } else {
            Skin::Alex
        }),
        skin_named("steve"@) == Skin::Steve,
        skin_named("steve_old"@) == Skin::SteveOld,
{
    reveal_strlit("steve");
    reveal_strlit("steve_old");
    assert("steve"@.len() != "steve_old"@.len());
}

/// Without the resize flag nothing is resized, whatever the resize fields hold; with it,
/// a size is accepted exactly when both sides lie from 10 to 1000, and the accepted size
/// is `(resize_width, resize_height)` in that order.
pub proof fn lemma_resize_decision_is_exact(resize_width: u32, resize_height: u32)
    ensures
        resize_decision(false, resize_width, resize_height) == Ok::<
            Option<(u32, u32)>,
            RenderFailure,
        >(None),
        resize_decision(true, resize_width, resize_height) is Ok <==> (10 <= resize_width <= 1000
            && 10 <= resize_height <= 1000),
        resize_decision(true, resize_width, resize_height) is Ok ==> resize_decision(
            true,
            resize_width,
            resize_height,
        ) == Ok::<Option<(u32, u32)>, RenderFailure>(Some((resize_width, resize_height))),
{
}

/// An accepted request hands back the requested view and, where resizing was asked for,
/// the requested size `(resize_width, resize_height)` in that order, or no size without
/// the flag.
pub proof fn lemma_accepted_request(
    content_type: Option<Seq<char>>,
    texture_width: u32,
    texture_height: u32,
    width: u32,
    height: u32,
    skin_type: Seq<char>,
    in_range: Seq<bool>,
    resize: bool,
    resize_width: u32,
    resize_height: u32,
)
    requires
        request_decision(
            content_type,
            true,
            Some((texture_width, texture_height)),
            width,
            height,
            skin_type,
            in_range,
            resize,
            resize_width,
            resize_height,
        ) is Ok,
    ensures
        ({
            let (plan, size) = request_decision(
                content_type,
                true,
                Some((texture_width, texture_height)),
                width,
                height,
                skin_type,
                in_range,
                resize,
                resize_width,
                resize_height,
            )->Ok_0;
            &&& plan.width == width
            &&& plan.height == height
            &&& plan.skin == (if skin_type == "steve"@ {
                Skin::Steve
            } else if skin_type == "steve_old"@ {
                Skin::SteveOld
            } else {
                Skin::Alex
            })
            &&& size == (if resize {
                Some((resize_width, resize_height))
            } else {
                None
            })
        }),
{
    lemma_accepted_view_plan(texture_width, texture_height, width, height, skin_type, in_range);
}

/// After the aspect ratio, `width` is refused exactly when it lies outside 10 to 1000,
/// and then `height` exactly when it does.
pub proof fn lemma_size_refusals_are_exact(
    texture_width: u32,
    texture_height: u32,
    width: u32,
    height: u32,
    skin_type: Seq<char>,
    in_range: Seq<bool>,
)
    requires
        aspect_ratio_ok(texture_width, texture_height),
        in_range.len() == view_float_limits().len(),
    ensures
        (view_decision(texture_width, texture_height, width, height, skin_type, in_range)
            == Err::<ViewPlan, RenderFailure>(RenderFailure::OutOfLimits(Limit::Width))) <==> !(10
            <= width <= 1000),
        10 <= width <= 1000 ==> ((view_decision(
            texture_width,
            texture_height,
            width,
            height,
            skin_type,
            in_range,
        ) == Err::<ViewPlan, RenderFailure>(RenderFailure::OutOfLimits(Limit::Height))) <==> !(10
            <= height <= 1000)),
{
    if let Some(k) = first_false_from(in_range, 0) {
        lemma_first_false_facts(in_range, 0, k);
        assert(view_float_limits()[k] != Limit::Width && view_float_limits()[k] != Limit::Height);
    }
}

/// A view refused for a fractional field names a field whose flag is `false` while the
/// flags of every field before it are `true`; a view whose size and aspect ratio pass
/// and whose flags are all `true` is accepted.
pub proof fn lemma_fraction_refusal_is_first_false(
    texture_width: u32,
    texture_height: u32,
    width: u32,
    height: u32,
    skin_type: Seq<char>,
    in_range: Seq<bool>,
    limit: Limit,
)
    requires
        in_range.len() == view_float_limits().len(),
    ensures
        (aspect_ratio_ok(texture_width, texture_height) && 10 <= width <= 1000 && 10 <= height
            <= 1000 && forall|i: int| 0 <= i < in_range.len() ==> in_range[i]) ==> view_decision(
            texture_width,
            texture_height,
            width,
            height,
            skin_type,
            in_range,
        ) is Ok,
        (view_decision(texture_width, texture_height, width, height, skin_type, in_range)
            == Err::<ViewPlan, RenderFailure>(RenderFailure::OutOfLimits(limit)) && limit
            != Limit::Width && limit != Limit::Height) ==> exists|k: int|
            0 <= k < in_range.len() && #[trigger] view_float_limits()[k] == limit && !in_range[k]
                && (forall|j: int| 0 <= j < k ==> in_range[j]),
{
    if let Some(k) = first_false_from(in_range, 0) {
        lemma_first_false_facts(in_range, 0, k);
        assert(view_float_limits()[k] == view_float_limits()[k]);
    }
}

/// The status of each refusal: 500 where the server could not open or read the
/// texture's file, 400 for every other refusal; the texture refusals name the field
/// `texture`.
pub proof fn lemma_render_refusal_statuses(failure: RenderFailure)
    ensures
        failure_model(failure).code == (match failure {
            RenderFailure::TextureOpen | RenderFailure::TextureRead => 500u16,
            _ => 400u16,
        }),
        !(failure is OutOfLimits) ==> failure_model(failure).field == "texture"@,
{
}

} // verus!
