//! A render request taken through its checks one step at a time, in the order in which
//! they run. Each step is a type of its own, so a step can only follow the one before
//! it, and each refusal is the first refusal of the whole request (`request_decision`)
//! whatever the later steps would give.

use vstd::prelude::*;

use crate::render::{
    check_texture_type, declares_png, load_texture, plan_resize, plan_view, png_dimensions,
    png_texture, request_decision, view_decision, view_float_limits, RenderFailure, ViewPlan,
};

verus! {

/// The declared content type as text.
pub open spec fn declared_text(content_type: Option<&str>) -> Option<Seq<char>> {
    match content_type {
        Some(text) => Some(text@),
        None => None,
    }
}

/// What reading and decoding the texture's file gave: its size, or `None` where the
/// file could not be read (`bytes` is `None`) or not decoded.
pub open spec fn read_outcome(bytes: Option<&[u8]>) -> Option<(u32, u32)> {
    match bytes {
        Some(data) => png_dimensions(data@),
        None => None,
    }
}

/// A request whose texture declares the PNG type; its file is to be opened next.
pub struct TypeChecked {
    content_type: Ghost<Option<Seq<char>>>,
}

/// A request whose texture file was opened; it is to be read and decoded next.
pub struct FileOpened {
    content_type: Ghost<Option<Seq<char>>>,
}

/// A request whose texture was decoded; its view fields are to be checked next.
pub struct TextureLoaded {
    content_type: Ghost<Option<Seq<char>>>,
    texture_width: u32,
    texture_height: u32,
}

/// A request whose view was accepted; it is rendered, then its resize fields are
/// checked.
pub struct ViewChecked {
    content_type: Ghost<Option<Seq<char>>>,
    texture_width: u32,
    texture_height: u32,
    width: u32,
    height: u32,
    skin_type: Ghost<Seq<char>>,
    in_range: Ghost<Seq<bool>>,
    plan: ViewPlan,
}

/// Checks the content type that the uploaded texture declares: the first step.
pub fn check_request_type(content_type: Option<&str>) -> (r: Result<TypeChecked, RenderFailure>)
    ensures
        match r {
            Ok(next) => next.content_type() == declared_text(content_type),
            Err(failure) => forall|
                opened: bool,
                decoded: Option<(u32, u32)>,
                width: u32,
                height: u32,
                skin_type: Seq<char>,
                in_range: Seq<bool>,
                resize: bool,
                resize_width: u32,
                resize_height: u32,
            |
                #[trigger] request_decision(
                    declared_text(content_type),
                    opened,
                    decoded,
                    width,
                    height,
                    skin_type,
                    in_range,
                    resize,
                    resize_width,
                    resize_height,
                ) == Err::<(ViewPlan, Option<(u32, u32)>), RenderFailure>(failure),
        },
{
    match check_texture_type(content_type) {
        Ok(()) => Ok(TypeChecked { content_type: Ghost(declared_text(content_type)) }),
        Err(failure) => Err(failure),
    }
}

impl TypeChecked {
    #[verifier::type_invariant]
    spec fn declares_png_type(self) -> bool {
        declares_png(self.content_type@)
    }

    /// The content type that the request declared.
    pub closed spec fn content_type(self) -> Option<Seq<char>> {
        self.content_type@
    }

    /// Takes whether the texture's file could be opened.
    pub fn file_opened(self, opened: bool) -> (r: Result<FileOpened, RenderFailure>)
        ensures
            match r {
                Ok(next) => opened && next.content_type() == self.content_type(),
                Err(failure) => !opened && forall|
                    decoded: Option<(u32, u32)>,
                    width: u32,
                    height: u32,
                    skin_type: Seq<char>,
                    in_range: Seq<bool>,
                    resize: bool,
                    resize_width: u32,
                    resize_height: u32,
                |
                    #[trigger] request_decision(
                        self.content_type(),
                        opened,
                        decoded,
                        width,
                        height,
                        skin_type,
                        in_range,
                        resize,
                        resize_width,
                        resize_height,
                    ) == Err::<(ViewPlan, Option<(u32, u32)>), RenderFailure>(failure),
            },
    {
        proof {
            use_type_invariant(&self);
        }
        if opened {
            Ok(FileOpened { content_type: self.content_type })
        } else {
            Err(RenderFailure::TextureOpen)
        }
    }
}

impl FileOpened {
    #[verifier::type_invariant]
    spec fn declares_png_type(self) -> bool {
        declares_png(self.content_type@)
    }

    /// The content type that the request declared.
    pub closed spec fn content_type(self) -> Option<Seq<char>> {
        self.content_type@
    }

    /// Takes the bytes of the texture's file, or `None` where it could not be read, and
    /// decodes them as a PNG image.
    pub fn texture_read(self, bytes: Option<&[u8]>) -> (r: Result<
        (TextureLoaded, image::DynamicImage),
        RenderFailure,
    >)
        ensures
            match r {
                Ok((next, texture)) => {
                    &&& read_outcome(bytes) == Some((next.texture_width(), next.texture_height()))
                    &&& bytes is Some && png_texture(bytes->0@) == Some(texture)
                    &&& next.content_type() == self.content_type()
                },
                Err(failure) => read_outcome(bytes) is None && forall|
                    width: u32,
                    height: u32,
                    skin_type: Seq<char>,
                    in_range: Seq<bool>,
                    resize: bool,
                    resize_width: u32,
                    resize_height: u32,
                |
                    #[trigger] request_decision(
                        self.content_type(),
                        true,
                        read_outcome(bytes),
                        width,
                        height,
                        skin_type,
                        in_range,
                        resize,
                        resize_width,
                        resize_height,
                    ) == Err::<(ViewPlan, Option<(u32, u32)>), RenderFailure>(failure),
            },
    {
        proof {
            use_type_invariant(&self);
        }
        match bytes {
            None => Err(RenderFailure::TextureRead),
            Some(data) => match load_texture(data) {
                Ok((texture, texture_width, texture_height)) => Ok(
                    (
                        TextureLoaded {
                            content_type: self.content_type,
                            texture_width,
                            texture_height,
                        },
                        texture,
                    ),
                ),
                Err(failure) => Err(failure),
            },
        }
    }
}

impl TextureLoaded {
    #[verifier::type_invariant]
    spec fn loaded(self) -> bool {
        declares_png(self.content_type@) && self.texture_height > 0
    }

    /// The content type that the request declared.
    pub closed spec fn content_type(self) -> Option<Seq<char>> {
        self.content_type@
    }

    /// The width of the decoded texture.
    pub closed spec fn texture_width(self) -> u32 {
        self.texture_width
    }

    /// The height of the decoded texture.
    pub closed spec fn texture_height(self) -> u32 {
        self.texture_height
    }

    /// Checks the view that the request asks for: the texture's aspect ratio, `width`,
    /// `height`, then the fractional fields (`in_range[i]` says whether the field
    /// `view_float_limits()[i]` lies within its bounds).
    pub fn check_view(self, width: u32, height: u32, skin_type: &str, in_range: &Vec<bool>) -> (r:
        Result<ViewChecked, RenderFailure>)
        requires
            in_range@.len() == view_float_limits().len(),
        ensures
            match r {
                Ok(next) => {
                    &&& view_decision(
                        self.texture_width(),
                        self.texture_height(),
                        width,
                        height,
                        skin_type@,
                        in_range@,
                    ) == Ok::<ViewPlan, RenderFailure>(next.view_plan())
                    &&& next.content_type() == self.content_type()
                    &&& next.texture_width() == self.texture_width()
                    &&& next.texture_height() == self.texture_height()
                    &&& next.width() == width
                    &&& next.height() == height
                    &&& next.skin_type() == skin_type@
                    &&& next.in_range() == in_range@
                },
                Err(failure) => forall|resize: bool, resize_width: u32, resize_height: u32|
                    #[trigger] request_decision(
                        self.content_type(),
                        true,
                        Some((self.texture_width(), self.texture_height())),
                        width,
                        height,
                        skin_type@,
                        in_range@,
                        resize,
                        resize_width,
                        resize_height,
                    ) == Err::<(ViewPlan, Option<(u32, u32)>), RenderFailure>(failure),
            },
    {
        proof {
            use_type_invariant(&self);
        }
        match plan_view(
            self.texture_width,
            self.texture_height,
            width,
            height,
            skin_type,
            in_range,
        ) {
            Ok(plan) => Ok(
                ViewChecked {
                    content_type: self.content_type,
                    texture_width: self.texture_width,
                    texture_height: self.texture_height,
                    width,
                    height,
                    skin_type: Ghost(skin_type@),
                    in_range: Ghost(in_range@),
                    plan,
                },
            ),
            Err(failure) => Err(failure),
        }
    }
}

impl ViewChecked {
    #[verifier::type_invariant]
    spec fn accepted(self) -> bool {
        &&& declares_png(self.content_type@)
        &&& view_decision(
            self.texture_width,
            self.texture_height,
            self.width,
            self.height,
            self.skin_type@,
            self.in_range@,
        ) == Ok::<ViewPlan, RenderFailure>(self.plan)
    }

    /// The content type that the request declared.
    pub closed spec fn content_type(self) -> Option<Seq<char>> {
        self.content_type@
    }

    /// The width of the decoded texture.
    pub closed spec fn texture_width(self) -> u32 {
        self.texture_width
    }

    /// The height of the decoded texture.
    pub closed spec fn texture_height(self) -> u32 {
        self.texture_height
    }

    /// The requested picture width.
    pub closed spec fn width(self) -> u32 {
        self.width
    }

    /// The requested picture height.
    pub closed spec fn height(self) -> u32 {
        self.height
    }

    /// The requested skin type.
    pub closed spec fn skin_type(self) -> Seq<char> {
        self.skin_type@
    }

    /// Whether each fractional field lay within its bounds.
    pub closed spec fn in_range(self) -> Seq<bool> {
        self.in_range@
    }

    /// What the renderer is to draw.
    pub closed spec fn view_plan(self) -> ViewPlan {
        self.plan
    }

    /// What the renderer is to draw.
    pub fn plan(&self) -> (r: ViewPlan)
        ensures
            r == self.view_plan(),
    {
        self.plan
    }

    /// Checks the resize fields, after rendering: the last step. The result is the
    /// decision on the whole request.
    pub fn check_resize(self, resize: bool, resize_width: u32, resize_height: u32) -> (r: Result<
        (ViewPlan, Option<(u32, u32)>),
        RenderFailure,
    >)
        ensures
            r == request_decision(
                self.content_type(),
                true,
                Some((self.texture_width(), self.texture_height())),
                self.width(),
                self.height(),
                self.skin_type(),
                self.in_range(),
                resize,
                resize_width,
                resize_height,
            ),
    {
        proof {
            use_type_invariant(&self);
        }
        match plan_resize(resize, resize_width, resize_height) {
            Ok(size) => Ok((self.plan, size)),
            Err(failure) => Err(failure),
        }
    }
}

} // verus!
