use std::sync::Arc;

use renderenko::render::{
    check_texture_type, encode_png, float_limits, load_texture, plan_resize, plan_view, AppState,
    Limit, RenderFailure, Skin, ViewPlan,
};

fn all_in_range() -> Vec<bool> {
    vec![true; float_limits().len()]
}

#[test]
fn skin_names() {
    assert_eq!(Skin::from_name("steve"), Skin::Steve);
    assert_eq!(Skin::from_name("steve_old"), Skin::SteveOld);
    assert_eq!(Skin::from_name("alex"), Skin::Alex);
    assert_eq!(Skin::from_name(""), Skin::Alex);
    assert_eq!(Skin::from_name("Steve"), Skin::Alex);
    assert_eq!(Skin::from_name("steve_old "), Skin::Alex);
}

#[test]
fn each_skin_has_its_mesh() {
    let state = AppState::new("alex mesh", "steve mesh", "old steve mesh");
    assert_eq!(**state.mesh(Skin::Alex), "alex mesh");
    assert_eq!(**state.mesh(Skin::Steve), "steve mesh");
    assert_eq!(**state.mesh(Skin::SteveOld), "old steve mesh");
    let shared: Arc<&str> = Arc::clone(state.mesh(Skin::from_name("steve_old")));
    assert_eq!(*shared, "old steve mesh");
    assert_eq!(**state.mesh(Skin::from_name("zombie")), "alex mesh");
}

#[test]
fn png_content_type_is_accepted() {
    assert_eq!(check_texture_type(Some("image/png")), Ok(()));
    assert_eq!(check_texture_type(Some("IMAGE/Png")), Ok(()));
}

#[test]
fn other_content_types_are_refused() {
    for t in ["image/jpeg", "image/png; charset=utf-8", "image/pn", "", "image/pngx"] {
        assert_eq!(check_texture_type(Some(t)), Err(RenderFailure::TextureFormat));
    }
    assert_eq!(check_texture_type(None), Err(RenderFailure::TextureFormat));
}

#[test]
fn encoded_png_reads_back_with_its_size() {
    let rgba: Vec<u8> = (0..(8 * 4 * 4)).map(|i| i as u8).collect();
    let file = encode_png(&rgba, 8, 4).expect("encodes");
    assert_eq!(&file[..8], &[0x89, b'P', b'N', b'G', 0x0d, 0x0a, 0x1a, 0x0a]);
    let (texture, width, height) = load_texture(&file).expect("decodes");
    assert_eq!((width, height), (8, 4));
    assert_eq!(texture.to_rgba8().into_raw(), rgba);
}

#[test]
fn unreadable_texture_is_refused() {
    assert_eq!(load_texture(b"not a png").err(), Some(RenderFailure::TextureRead));
    assert_eq!(load_texture(&[]).err(), Some(RenderFailure::TextureRead));
}

#[test]
fn accepted_view() {
    let plan = plan_view(64, 64, 500, 400, "steve", &all_in_range());
    assert_eq!(plan, Ok(ViewPlan { width: 500, height: 400, skin: Skin::Steve }));
    let plan = plan_view(64, 32, 10, 1000, "anything", &all_in_range());
    assert_eq!(plan, Ok(ViewPlan { width: 10, height: 1000, skin: Skin::Alex }));
}

#[test]
fn aspect_ratio_is_judged_by_whole_number_division() {
    assert!(plan_view(65, 64, 100, 100, "", &all_in_range()).is_ok());
    assert!(plan_view(128, 43, 100, 100, "", &all_in_range()).is_ok());
    assert_eq!(plan_view(64, 20, 100, 100, "", &all_in_range()), Err(RenderFailure::AspectRatio));
    assert_eq!(plan_view(32, 64, 100, 100, "", &all_in_range()), Err(RenderFailure::AspectRatio));
}

#[test]
fn aspect_ratio_is_judged_first() {
    let mut flags = all_in_range();
    flags[0] = false;
    assert_eq!(plan_view(64, 16, 0, 0, "", &flags), Err(RenderFailure::AspectRatio));
}

#[test]
fn width_then_height_then_fractions() {
    let mut flags = all_in_range();
    flags[3] = false;
    assert_eq!(plan_view(64, 64, 9, 0, "", &flags), Err(RenderFailure::OutOfLimits(Limit::Width)));
    assert_eq!(plan_view(64, 64, 1001, 0, "", &flags), Err(RenderFailure::OutOfLimits(Limit::Width)));
    assert_eq!(plan_view(64, 64, 10, 9, "", &flags), Err(RenderFailure::OutOfLimits(Limit::Height)));
    assert_eq!(plan_view(64, 64, 10, 1001, "", &flags), Err(RenderFailure::OutOfLimits(Limit::Height)));
    assert_eq!(plan_view(64, 64, 10, 10, "", &flags), Err(RenderFailure::OutOfLimits(Limit::CamPosX)));
}

#[test]
fn first_fraction_out_of_range_is_reported() {
    let limits = float_limits();
    for i in 0..limits.len() {
        let mut flags = all_in_range();
        for j in (i + 1)..flags.len() {
            flags[j] = j % 2 == 0;
        }
        flags[i] = false;
        assert_eq!(
            plan_view(64, 64, 100, 100, "", &flags),
            Err(RenderFailure::OutOfLimits(limits[i]))
        );
    }
}

#[test]
fn fraction_order() {
    assert_eq!(
        float_limits(),
        vec![
            Limit::Fov,
            Limit::Far,
            Limit::Near,
            Limit::CamPosX,
            Limit::CamPosY,
            Limit::CamPosZ,
            Limit::CamRotX,
            Limit::CamRotY,
            Limit::ModPosX,
            Limit::ModPosY,
            Limit::ModPosZ,
            Limit::ModRotX,
            Limit::ModRotY,
        ]
    );
}

#[test]
fn skin_type_never_refuses_a_request() {
    let mut flags = all_in_range();
    flags[5] = false;
    for skin in ["steve", "steve_old", "alex", "??"] {
        assert_eq!(plan_view(64, 64, 100, 100, skin, &flags), Err(RenderFailure::OutOfLimits(Limit::CamPosZ)));
        let plan = plan_view(64, 64, 100, 200, skin, &all_in_range()).unwrap();
        assert_eq!((plan.width, plan.height), (100, 200));
    }
}

#[test]
fn accepted_view_meets_every_limit() {
    for (w, h) in [(10, 10), (1000, 1000), (11, 999)] {
        let plan = plan_view(64, 64, w, h, "", &all_in_range()).unwrap();
        assert!(Limit::Width.admits(plan.width) && Limit::Height.admits(plan.height));
    }
}

#[test]
fn limits_admit_their_bounds() {
    assert!(Limit::Width.admits(10));
    assert!(Limit::Width.admits(1000));
    assert!(!Limit::Width.admits(9));
    assert!(!Limit::Width.admits(1001));
    assert!(!Limit::ResizeHeight.admits(u32::MAX));
    assert_eq!(Limit::Near.bounds_in_tenths(), (1, 10000));
    assert_eq!(Limit::CamRotY.bounds_in_tenths(), (-3600, 3600));
    assert_eq!(Limit::ModPosX.name(), "mod_pos_x");
}

#[test]
fn no_resize() {
    assert_eq!(plan_resize(false, 0, 0), Ok(None));
}

#[test]
fn resize_is_checked_width_first() {
    assert_eq!(plan_resize(true, 10, 1000), Ok(Some((10, 1000))));
    assert_eq!(plan_resize(true, 9, 5), Err(RenderFailure::OutOfLimits(Limit::ResizeWidth)));
    assert_eq!(plan_resize(true, 500, 1001), Err(RenderFailure::OutOfLimits(Limit::ResizeHeight)));
}
