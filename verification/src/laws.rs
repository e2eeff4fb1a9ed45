//! What holds of the store over several calls.
//!
//! The functions of the store say what each call does to what the trees
//! hold. The proofs here follow a store through more than one call.

use vstd::prelude::*;
use vstd::utf8::encode_utf8_decode_utf8;
use crate::db::{
    Contents, Stored, key_of, has_entry, stored_anime, stored_image, with_anime, without_anime,
    with_image, keyed_by_id,
};
use crate::models::{AnimeView, ImageView};
use crate::record::{anime_fits, image_fits, lemma_anime_round_trip, lemma_image_round_trip};

verus! {

/// Two texts with one key are one text.
pub proof fn lemma_key_of_injective(a: Seq<char>, b: Seq<char>)
    requires
        key_of(a) == key_of(b),
    ensures
        a == b,
{
    encode_utf8_decode_utf8(a);
    encode_utf8_decode_utf8(b);
}

/// An entry that was stored is found under its identifier, as it was stored.
pub proof fn law_create_then_get(m: Contents, a: AnimeView)
    requires
        anime_fits(a),
    ensures
        stored_anime(with_anime(m, a), a.id) == Stored::Record(a),
{
    lemma_anime_round_trip(a);
}

/// Storing an entry leaves every entry with another identifier as it was.
pub proof fn law_create_keeps_others(m: Contents, a: AnimeView, id: Seq<char>)
    requires
        id != a.id,
    ensures
        stored_anime(with_anime(m, a), id) == stored_anime(m, id),
{
    if key_of(id) == key_of(a.id) {
        lemma_key_of_injective(id, a.id);
    }
}

/// Once an entry was taken out, there is none under its identifier: taking
/// it out again finds nothing and changes nothing.
pub proof fn law_delete_once(m: Contents, id: Seq<char>)
    ensures
        !has_entry(without_anime(m, id), id),
        stored_anime(without_anime(m, id), id) is Absent,
        without_anime(without_anime(m, id), id) == without_anime(m, id),
{
    assert(without_anime(without_anime(m, id), id) =~= without_anime(m, id));
}

/// An image that was kept is found under its link, as it was kept.
pub proof fn law_save_then_get_image(m: Contents, i: ImageView)
    requires
        image_fits(i),
    ensures
        stored_image(with_image(m, i), i.link) == Stored::Record(i),
{
    lemma_image_round_trip(i);
}

/// A change to the entries.
pub enum Change {
    /// An entry is stored.
    Create(AnimeView),
    /// The entry with this identifier is taken out.
    Delete(Seq<char>),
}

/// The entries after one change.
pub open spec fn apply(m: Contents, change: Change) -> Contents {
    match change {
        Change::Create(a) => with_anime(m, a),
        Change::Delete(id) => without_anime(m, id),
    }
}

/// The entries after the changes, first to last.
pub open spec fn apply_all(m: Contents, changes: Seq<Change>) -> Contents
    decreases changes.len(),
{
    if changes.len() == 0 {
        m
    } else {
        apply(apply_all(m, changes.drop_last()), changes.last())
    }
}

/// Whether each change does what its name says: each entry stored has an
/// identifier that is not in use, each identifier taken out is in use.
pub open spec fn each_takes_effect(m: Contents, changes: Seq<Change>) -> bool
    decreases changes.len(),
{
    changes.len() == 0 || {
        &&& each_takes_effect(m, changes.drop_last())
        &&& match changes.last() {
            Change::Create(a) => anime_fits(a) && !has_entry(
                apply_all(m, changes.drop_last()),
                a.id,
            ),
            Change::Delete(id) => has_entry(apply_all(m, changes.drop_last()), id),
        }
    }
}

/// How many of the changes store an entry.
pub open spec fn creates(changes: Seq<Change>) -> nat
    decreases changes.len(),
{
    if changes.len() == 0 {
        0
    } else if changes.last() is Create {
        creates(changes.drop_last()) + 1
    } else {
        creates(changes.drop_last())
    }
}

/// How many of the changes take an entry out.
pub open spec fn deletes(changes: Seq<Change>) -> nat
    decreases changes.len(),
{
    if changes.len() == 0 {
        0
    } else if changes.last() is Delete {
        deletes(changes.drop_last()) + 1
    } else {
        deletes(changes.drop_last())
    }
}

/// After changes that each take effect, the store holds as many entries
/// more as were stored, and as many fewer as were taken out. A listing has
/// one record for each key, so a store that was empty lists as many records
/// as entries were stored less those taken out.
pub proof fn law_count_after_changes(m: Contents, changes: Seq<Change>)
    requires
        m.dom().finite(),
        each_takes_effect(m, changes),
    ensures
        apply_all(m, changes).dom().finite(),
        deletes(changes) <= m.dom().len() + creates(changes),
        apply_all(m, changes).dom().len() == m.dom().len() + creates(changes) - deletes(changes),
    decreases changes.len(),
{
    if changes.len() > 0 {
        law_count_after_changes(m, changes.drop_last());
    }
}

/// Entries that are each kept under their own identifier stay so when
/// entries are stored and taken out.
pub proof fn law_changes_keep_keys(m: Contents, changes: Seq<Change>)
    requires
        keyed_by_id(m),
        each_takes_effect(m, changes),
    ensures
        keyed_by_id(apply_all(m, changes)),
    decreases changes.len(),
{
    if changes.len() > 0 {
        let before = apply_all(m, changes.drop_last());
        law_changes_keep_keys(m, changes.drop_last());
        match changes.last() {
            Change::Create(a) => {
                lemma_anime_round_trip(a);
            },
            Change::Delete(id) => {},
        }
    }
}

} // verus!
