use andromeda_stars::errors::AppError;
use andromeda_stars::forms::{DraftForm, FeedQuery, PublishForm, StarsFilter};
use andromeda_stars::handlers::stars::{
    current_username, delete_outcome, distance_filter, draft_catalog_id, draft_location,
    draft_template, draft_to_create, empty_draft_template, feed_action, feed_lookup, grid_page,
    grid_summary, likes_total, media_config, media_url, missing_draft_error, missing_star_error,
    new_draft, publish_changes, star_location, to_template, user_id_of, FeedAction, FeedLookup,
    GridPage, MediaConfig, DEFAULT_IMAGE_URL, DEFAULT_VIDEO_URL,
};
use andromeda_stars::models::andromeda_stars::Model as Star;
use andromeda_stars::models::andromeda_users::Model as User;
use andromeda_stars::models::DecimalValue;

fn media() -> MediaConfig {
    MediaConfig { base: "http://127.0.0.1:9000/".to_string(), bucket: "/andromeda/".to_string() }
}

fn star(mantissa: i128, scale: u32) -> Star {
    Star {
        star_id: 7,
        created_by: 1,
        star_name: "Vega".to_string(),
        star_catalog_id: "M31-V1".to_string(),
        distance_kpc: DecimalValue { mantissa, scale },
        velocity_kms: 120,
        star_status: "published".to_string(),
        star_description: "bright".to_string(),
        image_url: "/stars/vega.png".to_string(),
        video_url: "https://cdn.example/vega.mp4".to_string(),
    }
}

#[test]
fn media_links() {
    let m = media();
    assert_eq!(media_url("", "/fallback.svg", &m), "/fallback.svg");
    assert_eq!(media_url("https://x/y.png", "/f", &m), "https://x/y.png");
    assert_eq!(media_url("http://x/y.png", "/f", &m), "http://x/y.png");
    assert_eq!(media_url("//img/a.png", "/f", &m), "http://127.0.0.1:9000/andromeda/img/a.png");
    assert_eq!(media_url("img/a.png", "/f", &m), "http://127.0.0.1:9000/andromeda/img/a.png");
}

#[test]
fn media_defaults() {
    let c = media_config(None, None);
    assert_eq!(c.base, "http://127.0.0.1:9000");
    assert_eq!(c.bucket, "andromeda");
    let c = media_config(Some("https://s3".to_string()), Some("b".to_string()));
    assert_eq!(c.base, "https://s3");
    assert_eq!(c.bucket, "b");
}

#[test]
fn card_of_a_star() {
    let card = to_template(star(184, 1), 3, &media());
    assert_eq!(card.id, 7);
    assert_eq!(card.name, "Vega");
    assert_eq!(card.catalog_id, "M31-V1");
    assert_eq!(card.distance_kpc, "18.4");
    assert_eq!(card.velocity_kms, 120);
    assert_eq!(card.status, "published");
    assert_eq!(card.description, "bright");
    assert_eq!(card.image_url, "http://127.0.0.1:9000/andromeda/stars/vega.png");
    assert_eq!(card.video_url, "https://cdn.example/vega.mp4");
    assert_eq!(card.likes_count, 3);
}

#[test]
fn distance_rounds_half_to_even() {
    assert_eq!(to_template(star(1845, 2), 0, &media()).distance_kpc, "18.4");
    assert_eq!(to_template(star(1855, 2), 0, &media()).distance_kpc, "18.6");
    assert_eq!(to_template(star(18, 0), 0, &media()).distance_kpc, "18");
    assert_eq!(to_template(star(-25, 2), 0, &media()).distance_kpc, "-0.2");
    assert_eq!(to_template(star(-4, 2), 0, &media()).distance_kpc, "0.0");
    assert_eq!(to_template(star(0, 0), 0, &media()).distance_kpc, "0");
    assert_eq!(to_template(star(7, 1), 0, &media()).distance_kpc, "0.7");
    assert_eq!(to_template(star(123456, 5), 0, &media()).distance_kpc, "1.2");
    assert_eq!(to_template(star(-150000, 5), 0, &media()).distance_kpc, "-1.5");
    assert_eq!(to_template(star(1250001, 6), 0, &media()).distance_kpc, "1.3");
}

#[test]
fn empty_draft_card() {
    let card = empty_draft_template();
    assert_eq!(card.id, 0);
    assert_eq!(card.name, "");
    assert_eq!(card.distance_kpc, "0.0");
    assert_eq!(card.status, "new");
    assert_eq!(card.image_url, DEFAULT_IMAGE_URL);
    assert_eq!(card.video_url, DEFAULT_VIDEO_URL);
    assert_eq!(card.likes_count, 0);
    assert_eq!(draft_template(None, &media()).status, "new");
    let card = draft_template(Some((star(184, 1), 2)), &media());
    assert_eq!(card.id, 7);
    assert_eq!(card.likes_count, 2);
    let mut bare = star(0, 0);
    bare.image_url = String::new();
    bare.video_url = String::new();
    let card = to_template(bare, 0, &media());
    assert_eq!(card.image_url, DEFAULT_IMAGE_URL);
    assert_eq!(card.video_url, DEFAULT_VIDEO_URL);
}

#[test]
fn feed_addresses() {
    let plain = FeedQuery { next: None };
    let next = FeedQuery { next: Some(true) };
    let not_next = FeedQuery { next: Some(false) };
    assert_eq!(feed_lookup("first", &next), Ok(FeedLookup::First));
    assert_eq!(feed_lookup("42", &plain), Ok(FeedLookup::Exact(42)));
    assert_eq!(feed_lookup("42", &not_next), Ok(FeedLookup::Exact(42)));
    assert_eq!(feed_lookup("42", &next), Ok(FeedLookup::After(42)));
    assert_eq!(
        feed_lookup("First", &plain),
        Err(AppError::Validation("id звезды должен быть целым числом или first".to_string()))
    );
    assert_eq!(feed_action(FeedLookup::After(5), false), FeedAction::LookUpFirst);
    assert_eq!(feed_action(FeedLookup::After(5), true), FeedAction::Show);
    assert_eq!(feed_action(FeedLookup::Exact(5), false), FeedAction::Missing);
    assert_eq!(feed_action(FeedLookup::First, false), FeedAction::Missing);
    assert_eq!(
        missing_star_error("42"),
        AppError::NotFound("звезда 42 отсутствует или удалена".to_string())
    );
}

#[test]
fn publication_link_leads_back_to_the_star() {
    assert_eq!(star_location(17), "/andromeda-stars/17");
    assert_eq!(star_location(-5), "/andromeda-stars/-5");
    let path = star_location(123456);
    let id = path.trim_start_matches("/andromeda-stars/");
    assert_eq!(feed_lookup(id, &FeedQuery { next: None }), Ok(FeedLookup::Exact(123456)));
}

#[test]
fn users() {
    assert_eq!(current_username(None), "andromeda_student");
    assert_eq!(current_username(Some("ann".to_string())), "ann");
    let u = User { user_id: 9, username: "ann".to_string(), password_hash: "h".to_string() };
    assert_eq!(user_id_of(Some(u), "ann"), Ok(9));
    assert_eq!(
        user_id_of(None, "ann"),
        Err(AppError::NotFound("пользователь Андромеды с именем ann".to_string()))
    );
    assert_eq!(likes_total(5), 5);
    assert_eq!(likes_total(u64::MAX), -1);
}

#[test]
fn drafts() {
    let form = DraftForm { name: "  Vega  ".to_string() };
    assert!(draft_to_create(&form, 3, true).is_none());
    let card = draft_to_create(&form, 3, false).unwrap();
    assert_eq!(card.created_by, 3);
    assert_eq!(card.star_name, "Vega");
    assert!(card.star_catalog_id.starts_with("M31-DRAFT-"));
    let uuid = &card.star_catalog_id[10..];
    assert_eq!(uuid.len(), 36);
    for (i, c) in uuid.chars().enumerate() {
        if [8, 13, 18, 23].contains(&i) {
            assert_eq!(c, '-');
        } else {
            assert!(c.is_ascii_hexdigit() && !c.is_ascii_uppercase());
        }
    }
    assert_eq!(uuid.chars().nth(14), Some('4'));
    assert!(matches!(uuid.chars().nth(19), Some('8' | '9' | 'a' | 'b')));
    let other = draft_to_create(&form, 3, false).unwrap();
    assert_ne!(other.star_catalog_id, card.star_catalog_id);
    assert_eq!(card.distance_kpc, DecimalValue { mantissa: 0, scale: 0 });
    assert_eq!(card.velocity_kms, 0);
    assert_eq!(card.star_status, "draft");
    assert_eq!(card.star_description, "");
    assert_eq!(card.image_url, "");
    assert_eq!(card.video_url, "");
    assert_eq!(draft_catalog_id("abc"), "M31-DRAFT-abc");
    let d = new_draft(&form, 4, "M31-X".to_string());
    assert_eq!(d.star_catalog_id, "M31-X");
    assert_eq!(d.created_by, 4);
    assert_eq!(draft_location(), "/andromeda-stars/draft");
}

#[test]
fn publication_and_deletion() {
    let form = PublishForm {
        name: " Vega ".to_string(),
        catalog_id: "\tM31-V1".to_string(),
        velocity_kms: 12,
        description: " bright star ".to_string(),
    };
    let c = publish_changes(&form);
    assert_eq!(c.star_name, "Vega");
    assert_eq!(c.star_catalog_id, "M31-V1");
    assert_eq!(c.velocity_kms, 12);
    assert_eq!(c.star_description, "bright star");
    assert_eq!(c.star_status, "published");
    assert_eq!(missing_draft_error(), AppError::NotFound("черновик звезды".to_string()));
    assert_eq!(
        delete_outcome(0),
        Err(AppError::NotFound("активная карточка звезды".to_string()))
    );
    assert_eq!(delete_outcome(1), Ok("/andromeda-stars/grid".to_string()));
}

#[test]
fn grid_pages() {
    assert_eq!(grid_page(None), GridPage { number: 1, offset: 0, limit: 20 });
    assert_eq!(grid_page(Some(0)), GridPage { number: 1, offset: 0, limit: 20 });
    assert_eq!(grid_page(Some(3)), GridPage { number: 3, offset: 40, limit: 20 });
    let p = grid_page(Some(3));
    let cards: Vec<_> = (0..20).map(|_| empty_draft_template()).collect();
    let s = grid_summary(&p, &cards);
    assert!(s.has_stars);
    assert!(s.has_more);
    assert_eq!(s.cover_image_url, DEFAULT_IMAGE_URL);
    assert_eq!(s.next_page, 4);
    assert_eq!(grid_page(Some(s.next_page)).offset, p.offset + 20);
    let s = grid_summary(&GridPage { number: usize::MAX, offset: 0, limit: 20 }, &Vec::new());
    assert!(!s.has_stars);
    assert!(!s.has_more);
    assert_eq!(s.cover_image_url, "");
    assert_eq!(s.next_page, usize::MAX);
}

#[test]
fn distance_filters() {
    let f = distance_filter(&StarsFilter { distance_kpc: Some(" 18,4 ".to_string()), page: None });
    assert_eq!(f.shown, "18,4");
    assert_eq!(f.number_text, Some("18.4".to_string()));
    let f = distance_filter(&StarsFilter { distance_kpc: Some("   ".to_string()), page: Some(2) });
    assert_eq!(f.shown, "");
    assert_eq!(f.number_text, None);
    let f = distance_filter(&StarsFilter { distance_kpc: None, page: None });
    assert_eq!(f.number_text, None);
}

#[test]
fn resolved_media_links_are_stable() {
    let m = media();
    for value in ["", "img/a.png", "//b.png", "https://x/y.png"] {
        let once = media_url(value, DEFAULT_IMAGE_URL, &m);
        if !value.is_empty() {
            assert!(once.starts_with("http://") || once.starts_with("https://"));
            assert_eq!(media_url(&once, DEFAULT_IMAGE_URL, &m), once);
        }
    }
}
