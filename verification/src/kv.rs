//! The key-value trees that records are kept in.
//!
//! The trees are those of `sled`. Nothing of this file is proved: each
//! function states what the tree does, as its documentation and source give
//! it, for a tree that is reached through one handle only.

use vstd::prelude::*;

verus! {

#[verifier::external_type_specification]
#[verifier::external_body]
pub struct ExDb(sled::Db);

#[verifier::external_type_specification]
#[verifier::external_body]
pub struct ExTree(sled::Tree);

#[verifier::external_type_specification]
#[verifier::external_body]
pub struct ExStoreError(sled::Error);

/// What a tree holds: its keys, each with its value.
pub uninterp spec fn tree_contents(tree: sled::Tree) -> Map<Seq<u8>, Seq<u8>>;

/// Opens the database at `path`, creating it where there is none. A temporary
/// one is removed from disk when its last handle is dropped.
///
/// Trusted: calls `sled::Config::open` on a default configuration with the
/// path and the flag set. Nothing is claimed of what comes back.
#[verifier::external_body]
pub(crate) fn open_db(path: &str, temporary: bool) -> (r: Result<sled::Db, sled::Error>) {
    sled::Config::new().path(path).temporary(temporary).open()
}

/// The default tree of a database.
///
/// Trusted: clones the handle that `sled::Db` dereferences to. Nothing is
/// claimed of what the tree holds.
#[verifier::external_body]
pub(crate) fn default_tree(db: &sled::Db) -> (tree: sled::Tree) {
    sled::Tree::clone(db)
}

/// Opens the tree called `name`, creating it where there is none.
///
/// Trusted: calls `sled::Db::open_tree`. Nothing is claimed of what the tree
/// holds.
#[verifier::external_body]
pub(crate) fn open_tree(db: &sled::Db, name: &str) -> (r: Result<sled::Tree, sled::Error>) {
    db.open_tree(name)
}

/// Words a failure of the store.
///
/// Trusted: writes a `sled::Error` with its `Display`.
#[verifier::external_body]
pub(crate) fn store_error_text(e: &sled::Error) -> (text: String) {
    format!("{}", e)
}

/// Looks `key` up.
///
/// Trusted: calls `sled::Tree::get`, which gives the value under the key if
/// there is one.
#[verifier::external_body]
pub(crate) fn tree_get(tree: &sled::Tree, key: &[u8]) -> (r: Result<Option<Vec<u8>>, sled::Error>)
    ensures
        r matches Ok(found) ==> match found {
            Some(value) => tree_contents(*tree).contains_key(key@) && tree_contents(*tree)[key@]
                == value@,
            None => !tree_contents(*tree).contains_key(key@),
        },
{
    match tree.get(key) {
        Ok(found) => Ok(found.map(|value| value.to_vec())),
        Err(e) => Err(e),
    }
}

/// Tells whether `key` is present.
///
/// Trusted: calls `sled::Tree::contains_key`.
#[verifier::external_body]
pub(crate) fn tree_contains_key(tree: &sled::Tree, key: &[u8]) -> (r: Result<bool, sled::Error>)
    ensures
        r matches Ok(present) ==> present == tree_contents(*tree).contains_key(key@),
{
    tree.contains_key(key)
}

/// Puts `value` under `key`, whatever was there, and gives what was there.
///
/// Trusted: calls `sled::Tree::insert`. Of a call that fails nothing is
/// claimed, not even that the tree is as it was.
#[verifier::external_body]
pub(crate) fn tree_insert(tree: &mut sled::Tree, key: &[u8], value: Vec<u8>) -> (r: Result<
    Option<Vec<u8>>,
    sled::Error,
>)
    ensures
        r matches Ok(before) ==> {
            &&& tree_contents(*final(tree)) == tree_contents(*old(tree)).insert(key@, value@)
            &&& match before {
                Some(v) => tree_contents(*old(tree)).contains_key(key@) && tree_contents(
                    *old(tree),
                )[key@] == v@,
                None => !tree_contents(*old(tree)).contains_key(key@),
            }
        },
{
    match tree.insert(key, value) {
        Ok(before) => Ok(before.map(|v| v.to_vec())),
        Err(e) => Err(e),
    }
}

/// Takes `key` out, and gives what was under it.
///
/// Trusted: calls `sled::Tree::remove`. Of a call that fails nothing is
/// claimed.
#[verifier::external_body]
pub(crate) fn tree_remove(tree: &mut sled::Tree, key: &[u8]) -> (r: Result<
    Option<Vec<u8>>,
    sled::Error,
>)
    ensures
        r matches Ok(before) ==> {
            &&& tree_contents(*final(tree)) == tree_contents(*old(tree)).remove(key@)
            &&& match before {
                Some(v) => tree_contents(*old(tree)).contains_key(key@) && tree_contents(
                    *old(tree),
                )[key@] == v@,
                None => !tree_contents(*old(tree)).contains_key(key@),
            }
        },
{
    match tree.remove(key) {
        Ok(before) => Ok(before.map(|v| v.to_vec())),
        Err(e) => Err(e),
    }
}

/// Takes every key out.
///
/// Trusted: calls `sled::Tree::clear`. Of a call that fails nothing is
/// claimed: some keys may be gone and others not.
#[verifier::external_body]
pub(crate) fn tree_clear(tree: &mut sled::Tree) -> (r: Result<(), sled::Error>)
    ensures
        r is Ok ==> tree_contents(*final(tree)) == (Map::<Seq<u8>, Seq<u8>>::empty()),
{
    tree.clear()
}

/// Every key of the tree with its value, each key once.
///
/// Trusted: walks `sled::Tree::iter` to its end, or to the first failure.
#[verifier::external_body]
pub(crate) fn tree_pairs(tree: &sled::Tree) -> (r: Result<Vec<(Vec<u8>, Vec<u8>)>, sled::Error>)
    ensures
        r matches Ok(pairs) ==> {
            &&& forall|i: int|
                0 <= i < pairs@.len() ==> tree_contents(*tree).contains_key(
                    #[trigger] pairs@[i].0@,
                ) && tree_contents(*tree)[pairs@[i].0@] == pairs@[i].1@
            &&& forall|i: int, j: int|
                0 <= i < j < pairs@.len() ==> #[trigger] pairs@[i].0@ != #[trigger] pairs@[j].0@
            &&& forall|k: Seq<u8>| #[trigger]
                tree_contents(*tree).contains_key(k) ==> exists|i: int|
                    0 <= i < pairs@.len() && #[trigger] pairs@[i].0@ == k
        },
{
    let mut pairs = Vec::new();
    for item in tree.iter() {
        match item {
            Ok((key, value)) => pairs.push((key.to_vec(), value.to_vec())),
            Err(e) => return Err(e),
        }
    }
    Ok(pairs)
}

} // verus!
