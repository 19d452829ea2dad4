use ram_core::appearance::{by_id, inset_alpha, themes, Corner, Fit};
use ram_core::background::{image_kind, is_gif, is_webp, BackgroundSource, FrameBudget, ImageKind, SyncPlan, FRAME_BUDGET_BYTES, MAX_FRAMES};
use ram_core::neko::{
    check_advertised_length, check_downloaded_length, first_nekos_best_result, NekoImage,
    NekoSource, NekosBestResult, MAX_IMAGE_BYTES,
};
use ram_core::overlay::Overlay;
use ram_core::settings::{
    background_detail, launch_delay_from_input, multi_instance_action, SettingsAction,
    SettingsState,
};
use ram_core::text::{str_eq, u64_to_decimal};

#[test]
fn decimal_rendering_matches_to_string() {
    for n in [0u64, 7, 10, 99, 100, 4_294_967_296, u64::MAX] {
        assert_eq!(u64_to_decimal(n), n.to_string());
    }
}

#[test]
fn string_equality() {
    assert!(str_eq("cover", "cover"));
    assert!(!str_eq("cover", "covers"));
    assert!(!str_eq("café", "cafe"));
    assert!(str_eq("", ""));
}

#[test]
fn fit_ids_round_trip_and_unknown_falls_back() {
    for f in Fit::all() {
        assert!(Fit::from_id(f.id()) == f);
    }
    assert!(Fit::from_id("contain") == Fit::Contain);
    assert!(Fit::from_id("stretch") == Fit::Stretch);
    assert!(Fit::from_id("tile") == Fit::Cover);
    assert_eq!(Fit::Cover.label(), "Fill (crop)");
    assert_eq!(Fit::Contain.label(), "Fit (letterbox)");
    assert_eq!(Fit::Stretch.label(), "Stretch");
}

#[test]
fn corner_ids_round_trip_and_unknown_falls_back() {
    for c in Corner::all() {
        assert!(Corner::from_id(c.id()) == c);
    }
    assert!(Corner::from_id("middle") == Corner::BottomRight);
    assert_eq!(Corner::TopLeft.id(), "top_left");
    assert_eq!(Corner::BottomLeft.label(), "Bottom left");
}

#[test]
fn theme_lookup_by_id() {
    let all = themes();
    assert_eq!(all.len(), 6);
    for p in &all {
        assert_eq!(by_id(p.id).id, p.id);
    }
    assert_eq!(by_id("slate").name, "Slate (plain dark)");
    assert_eq!(by_id("slate").panel.r, 30);
    assert_eq!(by_id("does-not-exist").id, "cosmos");
}

#[test]
fn image_kind_sniffs_magic_bytes() {
    assert!(is_gif(b"GIF89a...."));
    assert!(is_gif(b"GIF87a"));
    assert!(!is_gif(b"GIF88a"));
    assert!(is_webp(b"RIFF\x00\x00\x00\x00WEBPVP8 "));
    assert!(!is_webp(b"RIFF\x00\x00\x00\x00WAVE"));
    assert!(image_kind(b"GIF89a") == ImageKind::Gif);
    assert!(image_kind(b"RIFF1234WEBP") == ImageKind::WebP);
    assert!(image_kind(b"\x89PNG\r\n\x1a\n") == ImageKind::Still);
}

#[test]
fn frame_budget_truncates() {
    let mut b = FrameBudget::new();
    // The first frame is always kept, even over budget.
    assert!(b.accept_frame(FRAME_BUDGET_BYTES + 1));
    assert!(!b.accept_frame(1));
    assert!(b.was_truncated());
    assert_eq!(b.frames(), 1);

    let mut b = FrameBudget::new();
    assert!(b.accept_frame(FRAME_BUDGET_BYTES / 2));
    assert!(b.accept_frame(FRAME_BUDGET_BYTES / 2));
    assert!(!b.accept_frame(1));
    assert_eq!(b.used_bytes(), FRAME_BUDGET_BYTES);

    let mut b = FrameBudget::new();
    for _ in 0..MAX_FRAMES {
        assert!(b.accept_frame(1));
    }
    assert!(!b.accept_frame(1));
    assert!(b.was_truncated());
    assert_eq!(b.frames(), MAX_FRAMES);
}

#[test]
fn background_source_tracks_loaded_and_broken_paths() {
    let mut s = BackgroundSource::new();
    assert!(s.plan(None) == SyncPlan::Keep);
    assert!(s.plan(Some("a.gif")) == SyncPlan::Load);
    s.record_loaded("a.gif".to_string(), 12, true);
    assert!(s.plan(Some("a.gif")) == SyncPlan::Keep);
    assert!(s.plan(Some("b.png")) == SyncPlan::Load);
    assert_eq!(s.frame_count(), 12);
    assert!(s.was_truncated());
    s.record_failed("b.png".to_string());
    assert!(s.plan(Some("b.png")) == SyncPlan::Keep);
    assert!(s.is_broken(Some("b.png")));
    assert!(!s.is_broken(Some("a.gif")));
    assert!(!s.is_broken(None));
    assert!(s.plan(None) == SyncPlan::Clear);
    s.clear();
    assert_eq!(s.frame_count(), 0);
    assert!(!s.is_broken(Some("b.png")));
}

#[test]
fn overlay_state_and_credit() {
    let mut o: Overlay<u32> = Overlay::new();
    assert!(!o.has_image());
    assert!(o.credit().is_none());
    o.loading = true;
    o.set_image(Ok(7), Some("Artist".to_string()), "nekos.best".to_string());
    assert!(o.has_image());
    assert!(!o.loading);
    assert_eq!(o.credit().unwrap(), "Art by Artist \u{2014} via nekos.best");
    o.set_image(Err("bad gif".to_string()), None, "nekos.life".to_string());
    assert!(o.has_image());
    assert_eq!(o.last_error.as_deref(), Some("Could not decode the image: bad gif"));
    assert_eq!(o.credit().unwrap(), "Art by Artist \u{2014} via nekos.best");
    o.set_image(Ok(8), None, "nekos.life".to_string());
    assert_eq!(o.credit().unwrap(), "via nekos.life");
    assert!(o.last_error.is_none());
    o.fail("timeout".to_string());
    assert_eq!(o.last_error.as_deref(), Some("timeout"));
    assert!(o.has_image());
    o.clear();
    assert!(!o.has_image());
    assert!(o.credit().is_none());
    assert!(o.last_error.is_none());
}

#[test]
fn neko_source_choice() {
    assert!(NekoSource::pick(0) == NekoSource::NekosBest);
    assert!(NekoSource::pick(3) == NekoSource::NekosLife);
    assert_eq!(NekoSource::NekosBest.api_url(), "https://nekos.best/api/v2/neko");
    assert_eq!(NekoSource::NekosLife.api_url(), "https://nekos.life/api/v2/img/neko");
    assert_eq!(NekoSource::NekosLife.site(), "nekos.life");
}

#[test]
fn neko_results_and_size_limits() {
    assert_eq!(
        first_nekos_best_result(Vec::new()).unwrap_err().message(),
        "Account not found: nekos.best returned no results"
    );
    let r = first_nekos_best_result(vec![
        NekosBestResult { url: "u1".to_string(), artist_name: Some("A".to_string()), source_url: None },
        NekosBestResult { url: "u2".to_string(), artist_name: None, source_url: None },
    ])
    .unwrap();
    assert_eq!(r.url, "u1");
    let img = NekoImage::from_nekos_best(vec![1, 2], r);
    assert_eq!(img.artist.as_deref(), Some("A"));
    assert_eq!(img.source_site, "nekos.best");
    let img = NekoImage::from_nekos_life(vec![3]);
    assert!(img.artist.is_none());
    assert_eq!(img.source_site, "nekos.life");

    assert!(check_advertised_length(None).is_ok());
    assert!(check_advertised_length(Some(MAX_IMAGE_BYTES as u64)).is_ok());
    assert_eq!(
        check_advertised_length(Some(20 * 1024 * 1024)).unwrap_err().message(),
        "Crypto error: image is 20 MB, over the 12 MB limit"
    );
    assert!(check_downloaded_length(MAX_IMAGE_BYTES).is_ok());
    assert_eq!(
        check_downloaded_length(MAX_IMAGE_BYTES + 1).unwrap_err().message(),
        "Crypto error: image exceeded the size limit"
    );
}

#[test]
fn password_change_form() {
    let mut s = SettingsState::default();
    assert!(!s.passwords_match());
    s.new_password_input = "abc".to_string();
    s.confirm_password_input = "abd".to_string();
    assert!(!s.passwords_match());
    assert!(s.shows_mismatch());
    assert!(s.take_password_change().is_none());
    assert_eq!(s.new_password_input, "abc");
    s.confirm_password_input = "abc".to_string();
    assert!(!s.shows_mismatch());
    match s.take_password_change() {
        Some(SettingsAction::ChangePassword { new_password }) => assert_eq!(new_password, "abc"),
        _ => panic!("expected a password change"),
    }
    assert!(s.new_password_input.is_empty());
    assert!(s.confirm_password_input.is_empty());
}

#[test]
fn settings_inputs() {
    assert_eq!(launch_delay_from_input(-5), 0);
    assert_eq!(launch_delay_from_input(30), 30);
    assert!(matches!(multi_instance_action(true), SettingsAction::EnableMultiInstance));
    assert!(matches!(multi_instance_action(false), SettingsAction::DisableMultiInstance));
    assert_eq!(background_detail("wall.gif", 24), "wall.gif \u{2014} animated, 24 frames");
    assert_eq!(background_detail("wall.png", 1), "wall.png");
}

#[test]
fn inset_frames_are_more_solid_than_panels() {
    assert_eq!(inset_alpha(0), 85);
    assert_eq!(inset_alpha(216), 229);
    assert_eq!(inset_alpha(255), 255);
}
