use anime_list::commands::{
    create_anime, finish_image, get_anime_image, get_image_by_link, step_from_cache,
    step_from_entry, step_from_saved,
};
use anime_list::db::AnimeDb;
use anime_list::error::{CatalogError, FetchStage};
use anime_list::fetch::{page_arrived, ImageReply, ImageStep, PageReply};
use anime_list::models::{Anime, AnimeImage, AnimeStatus};

const LINK: &str = "https://shikimori.one/animes/123-show";

const PAGE: &str = "<html><body><div id=\"animes_show\"><section><div>\
    <div class=\"menu-slide-outer x199\"><div><div><div><div class=\"b-db_entry\">\
    <div class=\"c-image\"><div class=\"cc block\"><div class=\"c-poster\"><div><picture>\
    <source srcset=\"//cdn.example/a.jpg 1x, //cdn.example/b.jpg 2x\">\
    </picture></div></div></div></div></div></div></div></div></div></div></section></div>\
    </body></html>";

fn store(name: &str) -> AnimeDb {
    let unique = Anime::new(String::new(), 0, String::new(), String::new(), AnimeStatus::Unset).id;
    AnimeDb::open(&format!("/tmp/anime_list_tests/commands/{}-{}", name, unique), true).unwrap()
}

fn loaded(body: &[u8]) -> ImageReply {
    ImageReply::Loaded {
        status: 200,
        content_type: Some("image/webp".to_string()),
        body: body.to_vec(),
    }
}

fn done(step: ImageStep) -> AnimeImage {
    match step {
        ImageStep::Done(image) => image,
        other => panic!("expected the image, got {:?}", other),
    }
}

fn failure(step: ImageStep) -> CatalogError {
    match step {
        ImageStep::Failed(e) => e,
        other => panic!("expected a failure, got {:?}", other),
    }
}

#[test]
fn create_anime_stores_an_entry_with_a_fresh_id() {
    let mut db = store("create_anime");
    let a = create_anime(
        &mut db,
        "Show A".to_string(),
        8.5f64.to_bits(),
        String::new(),
        LINK.to_string(),
        AnimeStatus::Waiting,
    )
    .unwrap();
    assert_eq!(a.id.len(), 36);
    assert_eq!(a.name, "Show A");
    assert_eq!(f64::from_bits(a.score), 8.5);
    assert_eq!(a.review, "");
    assert_eq!(a.link, LINK);
    assert_eq!(a.status, AnimeStatus::Waiting);
    let found = db.get(&a.id).unwrap().unwrap();
    assert_eq!(found.id, a.id);
    assert_eq!(found.name, "Show A");
    assert_eq!(found.score, a.score);
    assert_eq!(found.link, LINK);
    assert_eq!(found.status, AnimeStatus::Waiting);
    let b = create_anime(&mut db, "Show B".to_string(), 0, String::new(), String::new(), AnimeStatus::Unset)
        .unwrap();
    assert_ne!(a.id, b.id);
    assert_eq!(db.list().unwrap().len(), 2);
}

#[test]
fn a_link_without_cached_image_is_fetched() {
    let db = store("uncached_link");
    match get_image_by_link(&db, LINK.to_string()) {
        ImageStep::FetchPage { link } => assert_eq!(link, LINK),
        other => panic!("expected a request for the page, got {:?}", other),
    }
}

#[test]
fn an_unsupported_link_fails_without_a_request() {
    let db = store("unsupported_link");
    let e = failure(get_image_by_link(&db, "https://example.org/animes/1".to_string()));
    assert_eq!(e, CatalogError::UnsupportedSource);
}

#[test]
fn a_second_call_is_served_from_the_cache() {
    let mut db = store("second_call");
    let first = done(finish_image(&mut db, LINK.to_string(), loaded(&[1, 2, 3])));
    assert_eq!(first.link, LINK);
    let second = done(get_image_by_link(&db, LINK.to_string()));
    assert_eq!(second.link, LINK);
    assert_eq!(second.image_data, vec![1, 2, 3]);
    assert_eq!(second.content_type, "image/webp");
    let third = done(get_image_by_link(&db, LINK.to_string()));
    assert_eq!(third.image_data, vec![1, 2, 3]);
}

#[test]
fn clearing_the_cache_makes_the_link_fetched_again() {
    let mut db = store("cleared_cache");
    done(finish_image(&mut db, LINK.to_string(), loaded(&[1])));
    db.clear_images().unwrap();
    assert!(matches!(get_image_by_link(&db, LINK.to_string()), ImageStep::FetchPage { .. }));
}

#[test]
fn the_cover_of_an_unknown_entry_fails_without_a_request() {
    let db = store("unknown_entry");
    let e = failure(get_anime_image(&db, "no-such-id"));
    assert_eq!(e, CatalogError::NotFound { id: "no-such-id".to_string() });
    assert_eq!(e.message(), "Anime with id no-such-id not found");
}

#[test]
fn the_cover_of_an_entry_with_an_unsupported_link_fails() {
    let mut db = store("entry_unsupported_link");
    let a = create_anime(
        &mut db,
        "Show".to_string(),
        0,
        String::new(),
        "https://example.org/1".to_string(),
        AnimeStatus::Unset,
    )
    .unwrap();
    assert_eq!(failure(get_anime_image(&db, &a.id)), CatalogError::UnsupportedSource);
}

#[test]
fn a_failed_image_is_not_cached() {
    let mut db = store("failed_image");
    let e = failure(finish_image(
        &mut db,
        LINK.to_string(),
        ImageReply::Loaded { status: 500, content_type: None, body: vec![1] },
    ));
    assert_eq!(
        e,
        CatalogError::Transport { stage: FetchStage::ImageRequest, cause: "HTTP 500".to_string() }
    );
    let e = failure(finish_image(
        &mut db,
        LINK.to_string(),
        ImageReply::BodyFailed { cause: "cut".to_string() },
    ));
    assert_eq!(e, CatalogError::Transport { stage: FetchStage::ImageBody, cause: "cut".to_string() });
    assert!(db.get_image(LINK).unwrap().is_none());
    assert!(matches!(get_image_by_link(&db, LINK.to_string()), ImageStep::FetchPage { .. }));
}

#[test]
fn entries_with_one_link_share_the_image() {
    let mut db = store("shared_image");
    let a = create_anime(&mut db, "A".to_string(), 0, String::new(), LINK.to_string(), AnimeStatus::Unset)
        .unwrap();
    let b = create_anime(&mut db, "B".to_string(), 0, String::new(), LINK.to_string(), AnimeStatus::Unset)
        .unwrap();
    done(finish_image(&mut db, LINK.to_string(), loaded(&[7])));
    assert_eq!(done(get_anime_image(&db, &a.id)).image_data, vec![7]);
    assert_eq!(done(get_anime_image(&db, &b.id)).image_data, vec![7]);
}

#[test]
fn the_first_step_follows_the_lookup() {
    let image = AnimeImage { link: LINK.to_string(), image_data: vec![1], content_type: "t".to_string() };
    assert_eq!(done(step_from_cache(LINK.to_string(), Ok(Some(image)))).image_data, vec![1]);
    assert!(matches!(step_from_cache(LINK.to_string(), Ok(None)), ImageStep::FetchPage { .. }));
    assert_eq!(
        failure(step_from_cache("x".to_string(), Ok(None))),
        CatalogError::UnsupportedSource
    );
    assert_eq!(
        failure(step_from_cache(LINK.to_string(), Err(CatalogError::Serialization))),
        CatalogError::Serialization
    );
}

#[test]
fn the_first_step_for_an_entry_follows_its_lookup() {
    let mut db = store("step_from_entry");
    let entry = |link: &str| Anime {
        id: "a".to_string(),
        name: "Show A".to_string(),
        score: 0,
        review: String::new(),
        link: link.to_string(),
        status: AnimeStatus::Unset,
    };
    assert_eq!(
        failure(step_from_entry(&db, "a", Ok(None))),
        CatalogError::NotFound { id: "a".to_string() }
    );
    assert_eq!(
        failure(step_from_entry(&db, "a", Err(CatalogError::Serialization))),
        CatalogError::Serialization
    );
    let e = CatalogError::Persistence { cause: "gone".to_string() };
    assert_eq!(failure(step_from_entry(&db, "a", Err(e.clone()))), e);
    match step_from_entry(&db, "a", Ok(Some(entry(LINK)))) {
        ImageStep::FetchPage { link } => assert_eq!(link, LINK),
        other => panic!("expected a request for the page, got {:?}", other),
    }
    assert_eq!(
        failure(step_from_entry(&db, "a", Ok(Some(entry("https://example.org/1"))))),
        CatalogError::UnsupportedSource
    );
    done(finish_image(&mut db, LINK.to_string(), loaded(&[3, 4])));
    assert_eq!(done(step_from_entry(&db, "a", Ok(Some(entry(LINK))))).image_data, vec![3, 4]);
}

#[test]
fn the_last_step_follows_the_write() {
    let image = AnimeImage { link: LINK.to_string(), image_data: vec![1], content_type: "t".to_string() };
    assert_eq!(done(step_from_saved(image.clone(), Ok(()))).image_data, vec![1]);
    let e = CatalogError::Persistence { cause: "full".to_string() };
    assert_eq!(failure(step_from_saved(image, Err(e.clone()))), e);
}

#[test]
fn an_entry_gets_its_cover_once() {
    let mut db = store("end_to_end");
    let entry = create_anime(
        &mut db,
        "Show A".to_string(),
        8.5f64.to_bits(),
        String::new(),
        LINK.to_string(),
        AnimeStatus::Waiting,
    )
    .unwrap();

    let mut page_requests = 0;
    let mut image_requests = 0;
    let mut step = get_anime_image(&db, &entry.id);
    let first = loop {
        step = match step {
            ImageStep::FetchPage { link } => {
                assert_eq!(link, LINK);
                page_requests += 1;
                page_arrived(link, PageReply::Loaded { status: 200, html: PAGE.to_string() })
            },
            ImageStep::FetchImage { link, url } => {
                assert_eq!(url, "https://cdn.example/b.jpg");
                image_requests += 1;
                finish_image(&mut db, link, loaded(&[0xff, 0xd8, 0xff]))
            },
            ImageStep::Done(image) => break image,
            ImageStep::Failed(e) => panic!("{}", e.message()),
        };
    };
    assert_eq!((page_requests, image_requests), (1, 1));
    assert_eq!(first.link, LINK);
    assert_eq!(first.image_data, vec![0xff, 0xd8, 0xff]);
    assert_eq!(first.content_type, "image/webp");
    let kept = db.get_image(LINK).unwrap().unwrap();
    assert_eq!(kept.link, LINK);
    assert_eq!(kept.image_data, first.image_data);

    let second = done(get_anime_image(&db, &entry.id));
    assert_eq!(second.link, first.link);
    assert_eq!(second.image_data, first.image_data);
    assert_eq!(second.content_type, first.content_type);
}
