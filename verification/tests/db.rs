use anime_list::db::{
    cleared_from, entries_from_pairs, entry_from_lookup, image_from_lookup, present_from,
    removed_from, store_failure, written_from, AnimeDb,
};
use anime_list::error::CatalogError;
use anime_list::models::{Anime, AnimeImage, AnimeStatus};
use anime_list::record::{encode_anime, encode_image};

fn store(name: &str) -> AnimeDb {
    AnimeDb::open(&fresh_path(name), true).unwrap()
}

/// A path that no earlier run has used.
fn fresh_path(name: &str) -> String {
    let unique = Anime::new(String::new(), 0, String::new(), String::new(), AnimeStatus::Unset).id;
    format!("/tmp/anime_list_tests/db/{}-{}", name, unique)
}

/// Opens a store that another handle has just let go of: the lock on its
/// files is released a moment after the handle is dropped.
fn reopen(path: &str) -> AnimeDb {
    let start = std::time::Instant::now();
    loop {
        match AnimeDb::open(path, true) {
            Ok(db) => return db,
            Err(e) => assert!(start.elapsed().as_secs() < 10, "{}", e.message()),
        }
    }
}

/// Opens the trees of a store that its handle has just let go of.
fn reopen_raw(path: &str) -> sled::Db {
    let start = std::time::Instant::now();
    loop {
        match sled::Config::new().path(path).temporary(true).open() {
            Ok(db) => return db,
            Err(e) => assert!(start.elapsed().as_secs() < 10, "{}", e),
        }
    }
}

fn entry(id: &str, name: &str) -> Anime {
    Anime {
        id: id.to_string(),
        name: name.to_string(),
        score: 7.25f64.to_bits(),
        review: "a review".to_string(),
        link: format!("https://shikimori.one/animes/{}", id),
        status: AnimeStatus::Completed,
    }
}

fn image(link: &str, data: &[u8]) -> AnimeImage {
    AnimeImage { link: link.to_string(), image_data: data.to_vec(), content_type: "image/png".to_string() }
}

fn same(a: &Anime, b: &Anime) -> bool {
    a.id == b.id && a.name == b.name && a.score == b.score && a.review == b.review
        && a.link == b.link && a.status == b.status
}

#[test]
fn create_then_get_gives_the_entry() {
    let mut db = store("create_then_get");
    let a = entry("a", "Show A");
    let stored = db.create(a.clone()).unwrap();
    assert!(same(&stored, &a));
    let found = db.get("a").unwrap().unwrap();
    assert!(same(&found, &a));
}

#[test]
fn get_of_an_unknown_id_is_empty() {
    let mut db = store("get_unknown");
    assert!(db.get("a").unwrap().is_none());
    db.create(entry("a", "Show A")).unwrap();
    assert!(db.get("b").unwrap().is_none());
    assert!(db.get("").unwrap().is_none());
    assert!(db.get("a ").unwrap().is_none());
}

#[test]
fn the_empty_text_is_a_key_like_any_other() {
    let mut db = store("empty_key");
    db.create(entry("", "nameless")).unwrap();
    assert_eq!(db.get("").unwrap().unwrap().name, "nameless");
    assert_eq!(db.list().unwrap().len(), 1);
    assert_eq!(db.delete(""), Ok(true));
    assert!(db.list().unwrap().is_empty());
}

#[test]
fn create_overwrites() {
    let mut db = store("create_overwrites");
    db.create(entry("a", "first")).unwrap();
    db.create(entry("a", "second")).unwrap();
    assert_eq!(db.get("a").unwrap().unwrap().name, "second");
    assert_eq!(db.list().unwrap().len(), 1);
}

#[test]
fn update_replaces_the_entry() {
    let mut db = store("update_replaces");
    db.create(entry("a", "first")).unwrap();
    db.create(entry("b", "other")).unwrap();
    let mut changed = entry("a", "second");
    changed.status = AnimeStatus::Dropped;
    changed.score = 1.5f64.to_bits();
    let stored = db.update(changed.clone()).unwrap();
    assert!(same(&stored, &changed));
    assert!(same(&db.get("a").unwrap().unwrap(), &changed));
    assert_eq!(db.get("b").unwrap().unwrap().name, "other");
}

#[test]
fn update_of_an_unknown_id_fails_and_stores_nothing() {
    let mut db = store("update_unknown");
    db.create(entry("a", "Show A")).unwrap();
    let e = db.update(entry("b", "Show B")).unwrap_err();
    assert_eq!(e, CatalogError::NotFound { id: "b".to_string() });
    assert_eq!(e.message(), "Anime with id b not found");
    assert!(db.get("b").unwrap().is_none());
    assert_eq!(db.list().unwrap().len(), 1);
}

#[test]
fn delete_tells_once_that_there_was_an_entry() {
    let mut db = store("delete_once");
    db.create(entry("a", "Show A")).unwrap();
    db.create(entry("b", "Show B")).unwrap();
    assert_eq!(db.delete("a"), Ok(true));
    assert_eq!(db.delete("a"), Ok(false));
    assert_eq!(db.delete("never"), Ok(false));
    assert!(db.get("a").unwrap().is_none());
    assert!(db.get("b").unwrap().is_some());
}

#[test]
fn list_gives_each_entry_once() {
    let mut db = store("list_each_once");
    assert!(db.list().unwrap().is_empty());
    let ids = ["e", "a", "d", "b", "c", "f", "g"];
    for id in ids {
        db.create(entry(id, id)).unwrap();
    }
    for id in ["d", "a", "g"] {
        assert_eq!(db.delete(id), Ok(true));
    }
    let mut listed: Vec<String> = db.list().unwrap().into_iter().map(|a| a.id).collect();
    assert_eq!(listed.len(), 4);
    listed.sort();
    assert_eq!(listed, vec!["b", "c", "e", "f"]);
}

#[test]
fn list_gives_the_entries_as_stored() {
    let mut db = store("list_as_stored");
    let a = entry("a", "Show A");
    let b = entry("b", "Show B");
    db.create(a.clone()).unwrap();
    db.create(b.clone()).unwrap();
    let listed = db.list().unwrap();
    assert_eq!(listed.len(), 2);
    for found in &listed {
        assert!(same(found, &a) || same(found, &b));
    }
    assert_ne!(listed[0].id, listed[1].id);
}

#[test]
fn an_image_is_kept_for_its_link() {
    let mut db = store("image_kept");
    assert!(db.get_image("l1").unwrap().is_none());
    db.save_image(image("l1", &[1, 2, 3])).unwrap();
    let found = db.get_image("l1").unwrap().unwrap();
    assert_eq!(found.link, "l1");
    assert_eq!(found.image_data, vec![1, 2, 3]);
    assert_eq!(found.content_type, "image/png");
    assert!(db.get_image("l2").unwrap().is_none());
}

#[test]
fn a_later_image_replaces_the_earlier() {
    let mut db = store("image_replaced");
    db.save_image(image("l1", &[1])).unwrap();
    db.put_image(&image("l1", &[2, 2])).unwrap();
    assert_eq!(db.get_image("l1").unwrap().unwrap().image_data, vec![2, 2]);
}

#[test]
fn clear_images_drops_every_image_and_no_entry() {
    let mut db = store("clear_images");
    db.create(entry("a", "Show A")).unwrap();
    db.save_image(image("l1", &[1])).unwrap();
    db.save_image(image("l2", &[2])).unwrap();
    db.clear_images().unwrap();
    assert!(db.get_image("l1").unwrap().is_none());
    assert!(db.get_image("l2").unwrap().is_none());
    assert!(db.get("a").unwrap().is_some());
    db.clear_images().unwrap();
}

#[test]
fn entries_and_images_share_no_key() {
    let mut db = store("no_shared_key");
    db.create(entry("k", "Show K")).unwrap();
    assert!(db.get_image("k").unwrap().is_none());
    db.save_image(image("k", &[5])).unwrap();
    assert_eq!(db.get("k").unwrap().unwrap().name, "Show K");
    assert_eq!(db.list().unwrap().len(), 1);
    assert_eq!(db.delete("k"), Ok(true));
    assert_eq!(db.get_image("k").unwrap().unwrap().image_data, vec![5]);
}

#[test]
fn deleting_an_entry_keeps_the_image_of_its_link() {
    let mut db = store("delete_keeps_image");
    let a = entry("a", "Show A");
    db.create(a.clone()).unwrap();
    db.save_image(image(&a.link, &[9])).unwrap();
    db.delete("a").unwrap();
    assert_eq!(db.get_image(&a.link).unwrap().unwrap().image_data, vec![9]);
}

#[test]
fn what_is_stored_outlasts_the_handle() {
    let path = fresh_path("outlasts");
    {
        let mut db = AnimeDb::open(&path, false).unwrap();
        db.create(entry("a", "Show A")).unwrap();
        db.save_image(image("l", &[4])).unwrap();
    }
    let db = reopen(&path);
    assert_eq!(db.get("a").unwrap().unwrap().name, "Show A");
    assert_eq!(db.get_image("l").unwrap().unwrap().image_data, vec![4]);
}

#[test]
fn entries_are_kept_in_the_default_tree_and_images_in_their_own() {
    let path = fresh_path("layout");
    {
        let mut db = AnimeDb::open(&path, false).unwrap();
        db.create(entry("a", "Show A")).unwrap();
        db.save_image(image("l", &[4])).unwrap();
    }
    let raw = reopen_raw(&path);
    assert_eq!(raw.get("a").unwrap().unwrap().to_vec(), encode_anime(&entry("a", "Show A")));
    assert_eq!(raw.len(), 1);
    let images = raw.open_tree("anime_images").unwrap();
    assert_eq!(images.get("l").unwrap().unwrap().to_vec(), encode_image(&image("l", &[4])));
    assert_eq!(images.len(), 1);
}

#[test]
fn what_is_no_record_is_reported() {
    let path = fresh_path("no_record");
    {
        let raw = sled::Config::new().path(&path).open().unwrap();
        raw.insert("bad", vec![1, 2, 3]).unwrap();
        raw.open_tree("anime_images").unwrap().insert("bad", vec![1, 2, 3]).unwrap();
        raw.flush().unwrap();
    }
    let mut db = reopen(&path);
    assert_eq!(db.get("bad").unwrap_err(), CatalogError::Serialization);
    assert_eq!(db.get_image("bad").unwrap_err(), CatalogError::Serialization);
    assert_eq!(db.list().unwrap_err(), CatalogError::Serialization);
    assert_eq!(db.delete("bad"), Ok(true));
    assert!(db.list().unwrap().is_empty());
}

#[test]
fn a_lookup_answers_by_what_the_tree_gave() {
    let a = entry("a", "Show A");
    assert!(entry_from_lookup(Ok(None)).unwrap().is_none());
    assert!(same(&entry_from_lookup(Ok(Some(encode_anime(&a)))).unwrap().unwrap(), &a));
    assert_eq!(entry_from_lookup(Ok(Some(vec![0]))).unwrap_err(), CatalogError::Serialization);
    assert_eq!(
        entry_from_lookup(Err(sled::Error::Unsupported("x".to_string()))).unwrap_err(),
        CatalogError::Persistence { cause: "Unsupported: x".to_string() }
    );
    let i = image("l", &[1, 2]);
    assert!(image_from_lookup(Ok(None)).unwrap().is_none());
    assert_eq!(image_from_lookup(Ok(Some(encode_image(&i)))).unwrap().unwrap().image_data, vec![1, 2]);
    assert_eq!(image_from_lookup(Ok(Some(Vec::new()))).unwrap_err(), CatalogError::Serialization);
    assert_eq!(
        image_from_lookup(Err(sled::Error::ReportableBug("y".to_string()))).unwrap_err(),
        CatalogError::Persistence {
            cause: "Unexpected bug has happened: y. PLEASE REPORT THIS BUG!".to_string()
        }
    );
}

#[test]
fn a_store_that_cannot_be_opened_is_a_failure_of_the_store() {
    match AnimeDb::open("/proc/anime_list_tests/nowhere", true) {
        Ok(_) => panic!("expected a failure"),
        Err(e) => assert!(matches!(e, CatalogError::Persistence { .. })),
    }
}

#[test]
fn a_write_answers_by_what_the_tree_gave() {
    assert_eq!(written_from(Ok(None)), Ok(()));
    assert_eq!(written_from(Ok(Some(vec![1]))), Ok(()));
    assert_eq!(
        written_from(Err(sled::Error::Unsupported("w".to_string()))),
        Err(CatalogError::Persistence { cause: "Unsupported: w".to_string() })
    );
    assert_eq!(cleared_from(Ok(())), Ok(()));
    assert_eq!(
        cleared_from(Err(sled::Error::Unsupported("c".to_string()))),
        Err(CatalogError::Persistence { cause: "Unsupported: c".to_string() })
    );
}

#[test]
fn a_removal_answers_by_what_the_tree_gave() {
    assert_eq!(removed_from(Ok(Some(Vec::new()))), Ok(true));
    assert_eq!(removed_from(Ok(None)), Ok(false));
    assert_eq!(
        removed_from(Err(sled::Error::Unsupported("r".to_string()))),
        Err(CatalogError::Persistence { cause: "Unsupported: r".to_string() })
    );
}

#[test]
fn a_replacement_needs_the_entry_to_be_there() {
    assert_eq!(present_from("a", Ok(true)), Ok(()));
    assert_eq!(present_from("a", Ok(false)), Err(CatalogError::NotFound { id: "a".to_string() }));
    assert_eq!(
        present_from("a", Err(sled::Error::Unsupported("p".to_string()))),
        Err(CatalogError::Persistence { cause: "Unsupported: p".to_string() })
    );
}

#[test]
fn a_failure_of_the_store_is_told_in_its_words() {
    let e = store_failure(&sled::Error::Unsupported("read-only".to_string()));
    assert_eq!(e, CatalogError::Persistence { cause: "Unsupported: read-only".to_string() });
    assert_eq!(e.message(), "Unsupported: read-only");
}

#[test]
fn pairs_are_read_in_their_order() {
    let a = entry("a", "Show A");
    let b = entry("b", "Show B");
    let pairs = vec![
        (b"b".to_vec(), encode_anime(&b)),
        (b"a".to_vec(), encode_anime(&a)),
    ];
    let list = entries_from_pairs(&pairs).unwrap();
    assert_eq!(list.len(), 2);
    assert!(same(&list[0], &b));
    assert!(same(&list[1], &a));
    assert!(entries_from_pairs(&Vec::new()).unwrap().is_empty());
    let pairs = vec![(b"a".to_vec(), encode_anime(&a)), (b"x".to_vec(), vec![7])];
    assert_eq!(entries_from_pairs(&pairs).unwrap_err(), CatalogError::Serialization);
}

#[test]
fn keys_outside_ascii_are_kept_apart() {
    let mut db = store("keys_outside_ascii");
    db.create(entry("é", "one")).unwrap();
    db.create(entry("e\u{301}", "two")).unwrap();
    assert_eq!(db.get("é").unwrap().unwrap().name, "one");
    assert_eq!(db.get("e\u{301}").unwrap().unwrap().name, "two");
    assert_eq!(db.list().unwrap().len(), 2);
}
