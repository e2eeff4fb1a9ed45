//! The store: the entries of the catalogue, and the cache of cover images.
//!
//! Entries are kept under their identifier, images under the link of the
//! page they were found on, in two trees that share no key.

use vstd::prelude::*;
use vstd::seq_lib::seq_to_set_is_finite;
use vstd::utf8::encode_utf8;
use crate::error::{CatalogError, ErrorView};
use crate::kv::{
    tree_contents, open_db, default_tree, open_tree, store_error_text, tree_get,
    tree_contains_key, tree_insert, tree_remove, tree_clear, tree_pairs,
};
use crate::models::{Anime, AnimeView, AnimeImage, ImageView};
use crate::record::{
    anime_bytes, image_bytes, anime_of_bytes, image_of_bytes, anime_fits, image_fits,
    encode_anime, encode_image, decode_anime, decode_image,
};

verus! {

/// What a tree holds, as a value of mathematics.
pub type Contents = Map<Seq<u8>, Seq<u8>>;

/// What a lookup finds.
pub enum Stored<V> {
    /// Nothing is kept under the key.
    Absent,
    /// What is kept under the key is not a record.
    Unreadable,
    /// The record kept under the key.
    Record(V),
}

/// The key that a text (an identifier or a link) is kept under.
pub open spec fn key_of(text: Seq<char>) -> Seq<u8> {
    encode_utf8(text)
}

/// Whether an entry is kept under `id`.
pub open spec fn has_entry(m: Contents, id: Seq<char>) -> bool {
    m.contains_key(key_of(id))
}

/// What looking up the entry `id` finds.
pub open spec fn stored_anime(m: Contents, id: Seq<char>) -> Stored<AnimeView> {
    if !m.contains_key(key_of(id)) {
        Stored::Absent
    } else {
        match anime_of_bytes(m[key_of(id)]) {
            Some(a) => Stored::Record(a),
            None => Stored::Unreadable,
        }
    }
}

/// What looking up the image of `link` finds.
pub open spec fn stored_image(m: Contents, link: Seq<char>) -> Stored<ImageView> {
    if !m.contains_key(key_of(link)) {
        Stored::Absent
    } else {
        match image_of_bytes(m[key_of(link)]) {
            Some(i) => Stored::Record(i),
            None => Stored::Unreadable,
        }
    }
}

/// The entries after `a` was put among them.
pub open spec fn with_anime(m: Contents, a: AnimeView) -> Contents {
    m.insert(key_of(a.id), anime_bytes(a))
}

/// The entries after `id` was taken out.
pub open spec fn without_anime(m: Contents, id: Seq<char>) -> Contents {
    m.remove(key_of(id))
}

/// The images after `i` was put among them.
pub open spec fn with_image(m: Contents, i: ImageView) -> Contents {
    m.insert(key_of(i.link), image_bytes(i))
}

/// Whether `list` holds the entries of `m`, each once: `keys` names the key
/// of each.
pub open spec fn is_listing(m: Contents, keys: Seq<Seq<u8>>, list: Seq<Anime>) -> bool {
    &&& keys.len() == list.len()
    &&& keys.no_duplicates()
    &&& keys.to_set() == m.dom()
    &&& forall|i: int| 0 <= i < keys.len() ==> anime_of_bytes(m[#[trigger] keys[i]]) == Some(list[i]@)
}

/// Whether every key of `m` holds an entry with the identifier that the key
/// stands for, as is the case when entries came in by `create` and `update`
/// alone.
pub open spec fn keyed_by_id(m: Contents) -> bool {
    forall|k: Seq<u8>| #[trigger]
        m.contains_key(k) ==> (anime_of_bytes(m[k]) matches Some(a) && key_of(a.id) == k)
}

/// The store.
pub struct AnimeDb {
    /// The database that both trees belong to.
    db: sled::Db,
    /// The entries, each under its identifier: the default tree.
    entries_tree: sled::Tree,
    /// The images, each under its link: the tree `anime_images`.
    images_tree: sled::Tree,
}

/// Reports a failure of the store.
pub fn store_failure(e: &sled::Error) -> (r: CatalogError)
    ensures
        r@ is Persistence,
{
    CatalogError::Persistence { cause: store_error_text(e) }
}

/// What a write answers, given what the tree answered: success where the
/// tree took the value, whatever it held before.
pub fn written_from(answer: Result<Option<Vec<u8>>, sled::Error>) -> (r: Result<(), CatalogError>)
    ensures
        match answer {
            Ok(_) => r is Ok,
            Err(_) => r matches Err(e) && e@ is Persistence,
        },
{
    match answer {
        Ok(_) => Ok(()),
        Err(e) => Err(store_failure(&e)),
    }
}

/// What taking a key out answers, given what the tree answered: whether the
/// tree held something under the key.
pub fn removed_from(answer: Result<Option<Vec<u8>>, sled::Error>) -> (r: Result<bool, CatalogError>)
    ensures
        match answer {
            Ok(before) => r == Ok::<bool, CatalogError>(before is Some),
            Err(_) => r matches Err(e) && e@ is Persistence,
        },
{
    match answer {
        Ok(Some(_)) => Ok(true),
        Ok(None) => Ok(false),
        Err(e) => Err(store_failure(&e)),
    }
}

/// What clearing a tree answers, given what the tree answered.
pub fn cleared_from(answer: Result<(), sled::Error>) -> (r: Result<(), CatalogError>)
    ensures
        match answer {
            Ok(_) => r is Ok,
            Err(_) => r matches Err(e) && e@ is Persistence,
        },
{
    match answer {
        Ok(_) => Ok(()),
        Err(e) => Err(store_failure(&e)),
    }
}

/// Whether the entry `id` may be replaced, given what the tree answered when
/// asked for it: an entry that is not there is not replaced.
pub fn present_from(id: &str, answer: Result<bool, sled::Error>) -> (r: Result<(), CatalogError>)
    ensures
        match answer {
            Ok(true) => r is Ok,
            Ok(false) => r matches Err(e) && e@ == (ErrorView::NotFound { id: id@ }),
            Err(_) => r matches Err(e) && e@ is Persistence,
        },
{
    match answer {
        Ok(true) => Ok(()),
        Ok(false) => Err(CatalogError::NotFound { id: String::from_str(id) }),
        Err(e) => Err(store_failure(&e)),
    }
}

/// What a lookup of an entry answers, given what the tree answered.
pub fn entry_from_lookup(found: Result<Option<Vec<u8>>, sled::Error>) -> (r: Result<
    Option<Anime>,
    CatalogError,
>)
    ensures
        match found {
            Ok(None) => r matches Ok(None),
            Ok(Some(bytes)) => match anime_of_bytes(bytes@) {
                Some(a) => r matches Ok(Some(x)) && x@ == a,
                None => r matches Err(e) && e@ is Serialization,
            },
            Err(_) => r matches Err(e) && e@ is Persistence,
        },
{
    match found {
        Ok(None) => Ok(None),
        Ok(Some(bytes)) => match decode_anime(bytes.as_slice()) {
            Some(a) => Ok(Some(a)),
            None => Err(CatalogError::Serialization),
        },
        Err(e) => Err(store_failure(&e)),
    }
}

/// What a lookup of an image answers, given what the tree answered.
pub fn image_from_lookup(found: Result<Option<Vec<u8>>, sled::Error>) -> (r: Result<
    Option<AnimeImage>,
    CatalogError,
>)
    ensures
        match found {
            Ok(None) => r matches Ok(None),
            Ok(Some(bytes)) => match image_of_bytes(bytes@) {
                Some(i) => r matches Ok(Some(x)) && x@ == i,
                None => r matches Err(e) && e@ is Serialization,
            },
            Err(_) => r matches Err(e) && e@ is Persistence,
        },
{
    match found {
        Ok(None) => Ok(None),
        Ok(Some(bytes)) => match decode_image(bytes.as_slice()) {
            Some(i) => Ok(Some(i)),
            None => Err(CatalogError::Serialization),
        },
        Err(e) => Err(store_failure(&e)),
    }
}

/// Reads the entries out of the pairs of a tree, in their order: all of
/// them, or a failure where one of the values is not an entry.
pub fn entries_from_pairs(pairs: &Vec<(Vec<u8>, Vec<u8>)>) -> (r: Result<Vec<Anime>, CatalogError>)
    ensures
        match r {
            Ok(list) => list@.len() == pairs@.len() && forall|i: int|
                0 <= i < pairs@.len() ==> anime_of_bytes(pairs@[i].1@) == Some(
                    (#[trigger] list@[i])@,
                ),
            Err(e) => e@ is Serialization && exists|i: int|
                0 <= i < pairs@.len() && anime_of_bytes((#[trigger] pairs@[i]).1@) is None,
        },
{
    let mut list: Vec<Anime> = Vec::new();
    let mut i: usize = 0;
    while i < pairs.len()
        invariant
            i <= pairs@.len(),
            list@.len() == i,
            forall|j: int|
                0 <= j < i ==> anime_of_bytes(pairs@[j].1@) == Some((#[trigger] list@[j])@),
        decreases pairs@.len() - i,
    {
        match decode_anime(pairs[i].1.as_slice()) {
            Some(a) => list.push(a),
            None => {
                assert(anime_of_bytes(pairs@[i as int].1@) is None);
                return Err(CatalogError::Serialization);
            },
        }
        i += 1;
    }
    Ok(list)
}

impl AnimeDb {
    /// What the tree of entries holds.
    pub closed spec fn entries(&self) -> Contents {
        tree_contents(self.entries_tree)
    }

    /// What the tree of images holds.
    pub closed spec fn images(&self) -> Contents {
        tree_contents(self.images_tree)
    }

    /// Opens the store at `path`, creating it where there is none. A
    /// temporary store is removed from disk when it is dropped.
    pub fn open(path: &str, temporary: bool) -> (r: Result<AnimeDb, CatalogError>)
        ensures
            r matches Err(e) ==> e@ is Persistence,
    {
        match open_db(path, temporary) {
            Err(e) => Err(store_failure(&e)),
            Ok(db) => {
                let entries_tree = default_tree(&db);
                let images_tree = open_tree(&db, "anime_images");
                AnimeDb::from_trees(db, entries_tree, images_tree)
            },
        }
    }

    /// Opens the store of the application, in the directory `anime_db`.
    pub fn new() -> (r: Result<AnimeDb, CatalogError>)
        ensures
            r matches Err(e) ==> e@ is Persistence,
    {
        AnimeDb::open("anime_db", false)
    }

    /// Makes the store of a database that was opened, given its default tree
    /// and what opening its tree of images came to: the store keeps its
    /// entries in the first and its images in the second, and there is no
    /// store where the second could not be opened.
    ///
    /// The two trees are to be two, and the handles given here the only
    /// ones in use: what the store says of its contents holds as long as
    /// nothing else writes to them. So only `open` makes a store.
    pub(crate) fn from_trees(
        db: sled::Db,
        entries_tree: sled::Tree,
        images_tree: Result<sled::Tree, sled::Error>,
    ) -> (r: Result<AnimeDb, CatalogError>)
        ensures
            match images_tree {
                Ok(tree) => r matches Ok(store) && store.entries() == tree_contents(entries_tree)
                    && store.images() == tree_contents(tree),
                Err(_) => r matches Err(e) && e@ is Persistence,
            },
    {
        match images_tree {
            Ok(images_tree) => Ok(AnimeDb { db, entries_tree, images_tree }),
            Err(e) => Err(store_failure(&e)),
        }
    }

    /// Stores `anime` under its identifier, whatever was there, and gives it
    /// back.
    pub fn create(&mut self, anime: Anime) -> (r: Result<Anime, CatalogError>)
        ensures
            final(self).images() == old(self).images(),
            match r {
                Ok(a) => a == anime && anime_fits(anime@) && final(self).entries() == with_anime(
                    old(self).entries(),
                    anime@,
                ),
                Err(e) => e@ is Persistence,
            },
    {
        let value = encode_anime(&anime);
        let answer = tree_insert(&mut self.entries_tree, anime.id.as_str().as_bytes(), value);
        match written_from(answer) {
            Ok(_) => Ok(anime),
            Err(e) => Err(e),
        }
    }

    /// Gives the entry `id`, or `None` where there is none.
    pub fn get(&self, id: &str) -> (r: Result<Option<Anime>, CatalogError>)
        ensures
            match r {
                Ok(Some(a)) => stored_anime(self.entries(), id@) == Stored::Record(a@),
                Ok(None) => stored_anime(self.entries(), id@) is Absent,
                Err(e) => e@ is Persistence || (e@ is Serialization && stored_anime(
                    self.entries(),
                    id@,
                ) is Unreadable),
            },
    {
        entry_from_lookup(tree_get(&self.entries_tree, id.as_bytes()))
    }

    /// Replaces the entry that has the identifier of `anime`, and gives
    /// `anime` back. Where there is no such entry, nothing is stored.
    pub fn update(&mut self, anime: Anime) -> (r: Result<Anime, CatalogError>)
        ensures
            final(self).images() == old(self).images(),
            !has_entry(old(self).entries(), anime.id@) ==> r is Err && final(self).entries() == old(self).entries(),
            match r {
                Ok(a) => a == anime && anime_fits(anime@) && has_entry(
                    old(self).entries(),
                    anime.id@,
                ) && final(self).entries() == with_anime(old(self).entries(), anime@),
                Err(e) => match e@ {
                    ErrorView::NotFound { id } => id == anime.id@ && !has_entry(
                        old(self).entries(),
                        anime.id@,
                    ) && final(self).entries() == old(self).entries(),
                    ErrorView::Persistence { .. } => true,
                    _ => false,
                },
            },
    {
        let present = tree_contains_key(&self.entries_tree, anime.id.as_str().as_bytes());
        match present_from(anime.id.as_str(), present) {
            Ok(_) => {},
            Err(e) => { return Err(e); },
        }
        let value = encode_anime(&anime);
        let answer = tree_insert(&mut self.entries_tree, anime.id.as_str().as_bytes(), value);
        match written_from(answer) {
            Ok(_) => Ok(anime),
            Err(e) => Err(e),
        }
    }

    /// Takes the entry `id` out, and tells whether there was one.
    pub fn delete(&mut self, id: &str) -> (r: Result<bool, CatalogError>)
        ensures
            final(self).images() == old(self).images(),
            match r {
                Ok(existed) => existed == has_entry(old(self).entries(), id@) && final(self).entries() == without_anime(old(self).entries(), id@),
                Err(e) => e@ is Persistence,
            },
    {
        removed_from(tree_remove(&mut self.entries_tree, id.as_bytes()))
    }

    /// Gives every entry, each once.
    pub fn list(&self) -> (r: Result<Vec<Anime>, CatalogError>)
        ensures
            match r {
                Ok(list) => {
                    &&& self.entries().dom().finite()
                    &&& list@.len() == self.entries().dom().len()
                    &&& exists|keys: Seq<Seq<u8>>| is_listing(self.entries(), keys, list@)
                    &&& keyed_by_id(self.entries()) ==> forall|i: int, j: int|
                        0 <= i < j < list@.len() ==> (#[trigger] list@[i])@.id != (
                        #[trigger] list@[j])@.id
                },
                Err(e) => e@ is Persistence || (e@ is Serialization && exists|k: Seq<u8>|
                    #[trigger] self.entries().contains_key(k) && anime_of_bytes(
                        self.entries()[k],
                    ) is None),
            },
    {
        let pairs = match tree_pairs(&self.entries_tree) {
            Ok(pairs) => pairs,
            Err(e) => { return Err(store_failure(&e)); },
        };
        let r = entries_from_pairs(&pairs);
        proof {
            let m = self.entries();
            let keys = Seq::new(pairs@.len(), |i: int| pairs@[i].0@);
            match &r {
                Ok(list) => {
                    assert(keys.no_duplicates());
                    assert(keys.to_set() =~= m.dom()) by {
                        assert forall|k: Seq<u8>| m.dom().contains(k) implies keys.to_set().contains(
                            k,
                        ) by {
                            let i = choose|i: int| 0 <= i < pairs@.len() && #[trigger] pairs@[i].0@ == k;
                            assert(keys[i] == k);
                        }
                        assert forall|k: Seq<u8>| keys.to_set().contains(k) implies m.dom().contains(
                            k,
                        ) by {
                            let i = choose|i: int| 0 <= i < keys.len() && keys[i] == k;
                            assert(m.contains_key(pairs@[i].0@));
                        }
                    }
                    seq_to_set_is_finite(keys);
                    keys.unique_seq_to_set();
                    assert(is_listing(m, keys, list@));
                    if keyed_by_id(m) {
                        assert forall|i: int, j: int| 0 <= i < j < list@.len() implies (
                        #[trigger] list@[i])@.id != (#[trigger] list@[j])@.id by {
                            assert(m.contains_key(keys[i]));
                            assert(m.contains_key(keys[j]));
                        }
                    }
                },
                Err(_) => {
                    let i = choose|i: int|
                        0 <= i < pairs@.len() && anime_of_bytes((#[trigger] pairs@[i]).1@) is None;
                    assert(m.contains_key(pairs@[i].0@));
                },
            }
        }
        r
    }

    /// Gives the image kept for `link`, or `None` where there is none.
    pub fn get_image(&self, link: &str) -> (r: Result<Option<AnimeImage>, CatalogError>)
        ensures
            match r {
                Ok(Some(i)) => stored_image(self.images(), link@) == Stored::Record(i@),
                Ok(None) => stored_image(self.images(), link@) is Absent,
                Err(e) => e@ is Persistence || (e@ is Serialization && stored_image(
                    self.images(),
                    link@,
                ) is Unreadable),
            },
    {
        image_from_lookup(tree_get(&self.images_tree, link.as_bytes()))
    }

    /// Keeps `image` for its link, whatever was kept for it.
    pub fn put_image(&mut self, image: &AnimeImage) -> (r: Result<(), CatalogError>)
        ensures
            final(self).entries() == old(self).entries(),
            match r {
                Ok(_) => image_fits(image@) && final(self).images() == with_image(
                    old(self).images(),
                    image@,
                ),
                Err(e) => e@ is Persistence,
            },
    {
        let value = encode_image(image);
        written_from(tree_insert(&mut self.images_tree, image.link.as_str().as_bytes(), value))
    }

    /// Keeps `image` for its link, whatever was kept for it.
    pub fn save_image(&mut self, image: AnimeImage) -> (r: Result<(), CatalogError>)
        ensures
            final(self).entries() == old(self).entries(),
            match r {
                Ok(_) => image_fits(image@) && final(self).images() == with_image(
                    old(self).images(),
                    image@,
                ),
                Err(e) => e@ is Persistence,
            },
    {
        self.put_image(&image)
    }

    /// Drops every image.
    pub fn clear_images(&mut self) -> (r: Result<(), CatalogError>)
        ensures
            final(self).entries() == old(self).entries(),
            match r {
                Ok(_) => final(self).images() == Map::<Seq<u8>, Seq<u8>>::empty(),
                Err(e) => e@ is Persistence,
            },
    {
        cleared_from(tree_clear(&mut self.images_tree))
    }
}

} // verus!
