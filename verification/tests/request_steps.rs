use renderenko::render::{encode_png, float_limits, Limit, RenderFailure, Skin, ViewPlan};
use renderenko::request::check_request_type;

fn png(width: u32, height: u32) -> Vec<u8> {
    let rgba = vec![200u8; (width * height * 4) as usize];
    encode_png(&rgba, width, height).unwrap()
}

fn all_in_range() -> Vec<bool> {
    vec![true; float_limits().len()]
}

#[test]
fn whole_request_accepted_with_resize() {
    let file = png(64, 32);
    let step = check_request_type(Some("image/png")).unwrap();
    let step = step.file_opened(true).unwrap();
    let (step, texture) = step.texture_read(Some(&file)).unwrap();
    assert_eq!((texture.width(), texture.height()), (64, 32));
    let view = step.check_view(300, 200, "steve", &all_in_range()).unwrap();
    let plan = ViewPlan { width: 300, height: 200, skin: Skin::Steve };
    assert_eq!(view.plan(), plan);
    assert_eq!(view.check_resize(true, 64, 64), Ok((plan, Some((64, 64)))));
}

#[test]
fn whole_request_accepted_without_resize() {
    let file = png(16, 16);
    let (step, _) = check_request_type(Some("image/PNG"))
        .unwrap()
        .file_opened(true)
        .unwrap()
        .texture_read(Some(&file))
        .unwrap();
    let view = step.check_view(10, 1000, "x", &all_in_range()).unwrap();
    assert_eq!(
        view.check_resize(false, 0, 0),
        Ok((ViewPlan { width: 10, height: 1000, skin: Skin::Alex }, None))
    );
}

#[test]
fn wrong_type_is_the_first_refusal() {
    assert_eq!(check_request_type(Some("image/jpeg")).err(), Some(RenderFailure::TextureFormat));
    assert_eq!(check_request_type(None).err(), Some(RenderFailure::TextureFormat));
}

#[test]
fn unopened_file_is_refused() {
    let step = check_request_type(Some("image/png")).unwrap();
    assert_eq!(step.file_opened(false).err(), Some(RenderFailure::TextureOpen));
}

#[test]
fn unread_or_undecodable_file_is_refused() {
    let step = check_request_type(Some("image/png")).unwrap().file_opened(true).unwrap();
    assert_eq!(step.texture_read(None).err(), Some(RenderFailure::TextureRead));
    let step = check_request_type(Some("image/png")).unwrap().file_opened(true).unwrap();
    assert_eq!(step.texture_read(Some(b"GIF89a")).err(), Some(RenderFailure::TextureRead));
}

#[test]
fn view_refusals_come_before_resize() {
    let file = png(64, 20);
    let (step, _) = check_request_type(Some("image/png"))
        .unwrap()
        .file_opened(true)
        .unwrap()
        .texture_read(Some(&file))
        .unwrap();
    assert_eq!(step.check_view(5, 5, "", &all_in_range()).err(), Some(RenderFailure::AspectRatio));

    let file = png(64, 64);
    let (step, _) = check_request_type(Some("image/png"))
        .unwrap()
        .file_opened(true)
        .unwrap()
        .texture_read(Some(&file))
        .unwrap();
    let mut flags = all_in_range();
    flags[2] = false;
    assert_eq!(
        step.check_view(100, 100, "", &flags).err(),
        Some(RenderFailure::OutOfLimits(Limit::Near))
    );
}

#[test]
fn resize_refusal_is_last() {
    let file = png(64, 64);
    let (step, _) = check_request_type(Some("image/png"))
        .unwrap()
        .file_opened(true)
        .unwrap()
        .texture_read(Some(&file))
        .unwrap();
    let view = step.check_view(100, 100, "steve_old", &all_in_range()).unwrap();
    assert_eq!(view.check_resize(true, 1001, 5), Err(RenderFailure::OutOfLimits(Limit::ResizeWidth)));
}
