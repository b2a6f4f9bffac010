use renderenko::multipart::{multipart_error_response, MultipartFailure};
use renderenko::render::{Limit, RenderFailure};
use renderenko::response::{cors_headers, APIResponse};

fn parts(r: &APIResponse) -> (u16, &str, &str, &str) {
    (r.code, r.field.as_str(), r.message.as_str(), r.description.as_str())
}

#[test]
fn new_keeps_its_arguments() {
    let r = APIResponse::new(404, "a", "b", "c");
    assert_eq!(parts(&r), (404, "a", "b", "c"));
}

#[test]
fn status_code_passes_valid_codes() {
    for code in [100u16, 200, 400, 415, 418, 500, 999] {
        assert_eq!(APIResponse::new(code, "", "", "").status_code(), code);
    }
}

#[test]
fn status_code_replaces_invalid_codes_with_500() {
    for code in [0u16, 42, 99, 1000, 65535] {
        assert_eq!(APIResponse::new(code, "", "", "").status_code(), 500);
    }
}

#[test]
fn display_text_is_fixed() {
    assert_eq!(APIResponse::new(400, "x", "y", "z").to_string(), "Oh no, something bad went down");
}

#[test]
fn clone_keeps_every_field() {
    let r = APIResponse::new(415, "f", "m", "d");
    let c = r.clone();
    assert_eq!(parts(&c), parts(&r));
}

#[test]
fn cors_headers_allow_post_from_anywhere() {
    assert_eq!(
        cors_headers(),
        vec![("Access-Control-Allow-Origin", "*"), ("Access-Control-Allow-Methods", "POST")]
    );
}

#[test]
fn multipart_header_failures() {
    let cases = [
        (MultipartFailure::NoContentDisposition, 400, "Content-Disposition", "wrong Content-Disposition header is set"),
        (MultipartFailure::NoContentType, 415, "Content-Type", "wrong Content-Type header is set"),
        (MultipartFailure::ParseContentType, 400, "Content-Type", "couldn't parse Content-Type header"),
        (MultipartFailure::Boundary, 400, "multipart", "multipart boundary is not found"),
        (MultipartFailure::Nested, 400, "multipart", "nested multipart is not supported"),
        (MultipartFailure::Incomplete, 400, "multipart", "multipart stream is incomplete"),
        (MultipartFailure::Parse, 400, "", "error during field parsing"),
        (MultipartFailure::Payload, 400, "", "payload error"),
        (MultipartFailure::NotConsumed, 400, "", "not consumed"),
    ];
    for (failure, code, field, message) in cases {
        let r = multipart_error_response(&failure);
        assert_eq!(parts(&r), (code, field, message, ""));
    }
}

#[test]
fn multipart_field_failure_names_field_and_source() {
    let failure = MultipartFailure::Field { field_name: "width".to_string(), source: "bad number".to_string() };
    let r = multipart_error_response(&failure);
    assert_eq!(parts(&r), (400, "width", "deserialize error in field 'width'", "bad number"));
}

#[test]
fn multipart_duplicate_missing_unsupported() {
    let r = multipart_error_response(&MultipartFailure::DuplicateField("fov".to_string()));
    assert_eq!(parts(&r), (400, "fov", "dublicate field fov", ""));
    let r = multipart_error_response(&MultipartFailure::MissingField("texture".to_string()));
    assert_eq!(parts(&r), (400, "texture", "missing required field 'texture'", ""));
    let r = multipart_error_response(&MultipartFailure::UnsupportedField("x".to_string()));
    assert_eq!(parts(&r), (400, "x", "unsupported field x", ""));
}

#[test]
fn multipart_unknown_failure_is_a_teapot() {
    let r = multipart_error_response(&MultipartFailure::Unknown);
    assert_eq!(parts(&r), (418, "unknown", "unknown error", "idk"));
}

#[test]
fn every_refusal_is_sent_with_its_own_code() {
    let multipart = [
        MultipartFailure::NoContentType,
        MultipartFailure::Unknown,
        MultipartFailure::MissingField("a".to_string()),
    ];
    for failure in multipart {
        let r = multipart_error_response(&failure);
        assert_eq!(r.status_code(), r.code);
    }
    let render = [
        RenderFailure::TextureFormat,
        RenderFailure::TextureOpen,
        RenderFailure::TextureRead,
        RenderFailure::AspectRatio,
        RenderFailure::OutOfLimits(Limit::Near),
    ];
    for failure in render {
        let r = failure.response();
        assert_eq!(r.status_code(), r.code);
    }
}

#[test]
fn texture_refusals() {
    assert_eq!(
        parts(&RenderFailure::TextureFormat.response()),
        (400, "texture", "texture must be in png format", "texture must be an image in png format and have size up to ~1MB")
    );
    assert_eq!(
        parts(&RenderFailure::TextureOpen.response()),
        (500, "texture", "texture file couldn't be opened on the server", "maybe texture file is corrupted")
    );
    assert_eq!(
        parts(&RenderFailure::TextureRead.response()),
        (500, "texture", "texture file couldn't be readed on the server", "maybe texture file is corrupted")
    );
    assert_eq!(
        parts(&RenderFailure::AspectRatio.response()),
        (400, "texture", "texture have wrong aspect ratio", "texture aspect-ratio needs to be 1/1 or 2/1 (64x64, 256x256, 64x32 etc...)")
    );
}

#[test]
fn out_of_limits_texts() {
    let cases = [
        (Limit::Width, "width", "10-1000"),
        (Limit::Height, "height", "10-1000"),
        (Limit::Fov, "fov", "1-360"),
        (Limit::Far, "far", "1-1000"),
        (Limit::Near, "near", "0.1-1000"),
        (Limit::CamPosX, "cam_pos_x", "-1000-1000"),
        (Limit::CamPosY, "cam_pos_y", "-1000-1000"),
        (Limit::CamPosZ, "cam_pos_z", "-1000-1000"),
        (Limit::CamRotX, "cam_rot_x", "-360-360"),
        (Limit::CamRotY, "cam_rot_y", "-360-360"),
        (Limit::ModPosX, "mod_pos_x", "-1000-1000"),
        (Limit::ModPosY, "mod_pos_y", "-1000-1000"),
        (Limit::ModPosZ, "mod_pos_z", "-1000-1000"),
        (Limit::ModRotX, "mod_rot_x", "-360-360"),
        (Limit::ModRotY, "mod_rot_y", "-360-360"),
        (Limit::ResizeWidth, "resize_width", "10-1000"),
        (Limit::ResizeHeight, "resize_height", "10-1000"),
    ];
    for (limit, name, range) in cases {
        let r = RenderFailure::OutOfLimits(limit).response();
        assert_eq!(r.code, 400);
        assert_eq!(r.field, name);
        assert_eq!(r.message, format!("field '{}' is out of limits", name));
        assert_eq!(r.description, format!("field '{}' value needs to be in range {}", name, range));
    }
}

#[test]
fn float_bound_texts_match_f32_display() {
    // The bounds are given in tenths; their text must be what `{}` writes for the f32.
    for limit in renderenko::render::float_limits() {
        let (lo, hi) = limit.bounds_in_tenths();
        let expected = format!(
            "field '{}' value needs to be in range {}-{}",
            limit.name(),
            lo as f32 / 10.0,
            hi as f32 / 10.0
        );
        assert_eq!(RenderFailure::OutOfLimits(limit).response().description, expected);
    }
}
