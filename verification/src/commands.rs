//! What the application asks of the catalogue.
//!
//! A cover is looked for in the cache first, and fetched only where the
//! cache has none for the link; what was fetched is kept in the cache before
//! it is handed out. The store is borrowed for the moments in which it is
//! read or written, never across a request.

use vstd::prelude::*;
use crate::db::{
    AnimeDb, Contents, Stored, has_entry, stored_anime, stored_image, with_anime, with_image,
};
use crate::error::{CatalogError, ErrorView};
use crate::fetch::{
    ImageStep, ImageReply, ImageReplyView, PageReplyView, StepView, first_step, step_after_page,
    step_after_image, fetched_image, is_supported_link, is_success, fetch_anime_image,
    image_arrived,
};
use crate::ident::is_entry_id;
use crate::laws::{law_create_then_get, law_save_then_get_image};
use crate::models::{Anime, AnimeView, AnimeImage, AnimeStatus};
use crate::page::{first_match_attr, is_readable_page, poster_selector, srcset_attr};
use crate::record::{anime_fits, image_fits};
use crate::srcset::image_url;

verus! {

/// The first step for the cover of `link`, given what the cache holds: a
/// cover that is cached is the answer, and nothing is fetched.
pub open spec fn step_by_link(images: Contents, link: Seq<char>) -> StepView {
    match stored_image(images, link) {
        Stored::Record(image) => StepView::Done(image),
        Stored::Unreadable => StepView::Failed(ErrorView::Serialization),
        Stored::Absent => first_step(link),
    }
}

/// The first step for the cover of the entry `id`, given what the store
/// holds: without such an entry it fails, and nothing is fetched.
pub open spec fn step_for_entry(entries: Contents, images: Contents, id: Seq<char>) -> StepView {
    match stored_anime(entries, id) {
        Stored::Record(anime) => step_by_link(images, anime.link),
        Stored::Unreadable => StepView::Failed(ErrorView::Serialization),
        Stored::Absent => StepView::Failed(ErrorView::NotFound { id }),
    }
}

/// Whether a step is a failure of the store to read or write.
pub open spec fn is_store_failure(step: StepView) -> bool {
    step matches StepView::Failed(e) && e is Persistence
}

/// Makes an entry of the given fields, with a fresh identifier, and stores
/// it.
pub fn create_anime(
    db: &mut AnimeDb,
    name: String,
    score: u64,
    review: String,
    link: String,
    status: AnimeStatus,
) -> (r: Result<Anime, CatalogError>)
    ensures
        final(db).images() == old(db).images(),
        match r {
            Ok(a) => {
                &&& is_entry_id(a.id@)
                &&& a@ == (AnimeView {
                    id: a.id@,
                    name: name@,
                    score,
                    review: review@,
                    link: link@,
                    status,
                })
                &&& anime_fits(a@)
                &&& final(db).entries() == with_anime(old(db).entries(), a@)
            },
            Err(e) => e@ is Persistence,
        },
{
    let anime = Anime::new(name, score, review, link, status);
    db.create(anime)
}

/// Gives the first step for the cover of `link`, given what the lookup in
/// the cache came to.
pub fn step_from_cache(link: String, cached: Result<Option<AnimeImage>, CatalogError>) -> (r:
    ImageStep)
    ensures
        match cached {
            Ok(Some(image)) => r@ == StepView::Done(image@),
            Ok(None) => r@ == first_step(link@),
            Err(e) => r@ == StepView::Failed(e@),
        },
{
    match cached {
        Ok(Some(image)) => ImageStep::Done(image),
        Ok(None) => fetch_anime_image(link),
        Err(e) => ImageStep::Failed(e),
    }
}

/// Begins getting the cover of `link`: the cached one where there is one,
/// else the first step of fetching it.
pub fn get_image_by_link(db: &AnimeDb, link: String) -> (r: ImageStep)
    ensures
        r@ == step_by_link(db.images(), link@) || is_store_failure(r@),
{
    let cached = db.get_image(link.as_str());
    step_from_cache(link, cached)
}

/// Gives the first step for the cover of the entry `id`, given what the
/// lookup of the entry came to: without such an entry it fails, and nothing
/// is fetched; with one it goes on as for the entry's link.
pub fn step_from_entry(db: &AnimeDb, id: &str, found: Result<Option<Anime>, CatalogError>) -> (r:
    ImageStep)
    ensures
        match found {
            Ok(Some(anime)) => r@ == step_by_link(db.images(), anime@.link) || is_store_failure(
                r@,
            ),
            Ok(None) => r@ == (StepView::Failed(ErrorView::NotFound { id: id@ })),
            Err(e) => r@ == StepView::Failed(e@),
        },
{
    match found {
        Err(e) => ImageStep::Failed(e),
        Ok(None) => ImageStep::Failed(CatalogError::NotFound { id: String::from_str(id) }),
        Ok(Some(anime)) => get_image_by_link(db, anime.link),
    }
}

/// Begins getting the cover of the entry `id`: fails where there is no such
/// entry, and else goes on as for the entry's link.
pub fn get_anime_image(db: &AnimeDb, id: &str) -> (r: ImageStep)
    ensures
        r@ == step_for_entry(db.entries(), db.images(), id@) || is_store_failure(r@),
        !has_entry(db.entries(), id@) ==> r@ == (StepView::Failed(
            ErrorView::NotFound { id: id@ },
        )) || is_store_failure(r@),
{
    step_from_entry(db, id, db.get(id))
}

/// Gives the last step, given the image that was fetched and what keeping
/// it in the cache came to.
pub fn step_from_saved(image: AnimeImage, saved: Result<(), CatalogError>) -> (r: ImageStep)
    ensures
        match saved {
            Ok(_) => r@ == StepView::Done(image@),
            Err(e) => r@ == StepView::Failed(e@),
        },
{
    match saved {
        Ok(_) => ImageStep::Done(image),
        Err(e) => ImageStep::Failed(e),
    }
}

/// Ends getting the cover of `link` with the reply to the request for the
/// image: an image that arrived is kept in the cache under `link` and then
/// handed out; after a failure the cache is as it was.
pub fn finish_image(db: &mut AnimeDb, link: String, reply: ImageReply) -> (r: ImageStep)
    ensures
        final(db).entries() == old(db).entries(),
        r@ is Done || r@ is Failed,
        match step_after_image(link@, reply@) {
            StepView::Done(image) => is_store_failure(r@) || {
                &&& r@ == StepView::Done(image)
                &&& image_fits(image)
                &&& final(db).images() == with_image(old(db).images(), image)
            },
            failure => r@ == failure && final(db).images() == old(db).images(),
        },
{
    match image_arrived(link, reply) {
        ImageStep::Done(image) => {
            let saved = db.put_image(&image);
            step_from_saved(image, saved)
        },
        other => other,
    }
}

/// Once a cover was kept for a link, the first step for that link is the
/// cover itself: nothing is fetched again.
pub proof fn law_cached_image_is_served(
    images: Contents,
    link: Seq<char>,
    reply: ImageReplyView,
)
    requires
        step_after_image(link, reply) matches StepView::Done(image) && image_fits(image),
    ensures
        step_after_image(link, reply) matches StepView::Done(image) && step_by_link(
            with_image(images, image),
            link,
        ) == StepView::Done(image),
{
    let image = step_after_image(link, reply)->Done_0;
    law_save_then_get_image(images, image);
}

/// For an entry whose cover was kept under the entry's link, the first step
/// is the cover itself.
pub proof fn law_cached_image_is_served_for_entry(
    entries: Contents,
    images: Contents,
    anime: AnimeView,
    reply: ImageReplyView,
)
    requires
        stored_anime(entries, anime.id) == Stored::Record(anime),
        step_after_image(anime.link, reply) matches StepView::Done(image) && image_fits(image),
    ensures
        step_after_image(anime.link, reply) matches StepView::Done(image) && step_for_entry(
            entries,
            with_image(images, image),
            anime.id,
        ) == StepView::Done(image),
{
    law_cached_image_is_served(images, anime.link, reply);
}

/// The cover of an entry that is not in the store is not fetched: the first
/// step is the failure to find the entry.
pub proof fn law_missing_entry_is_not_fetched(entries: Contents, images: Contents, id: Seq<char>)
    requires
        !has_entry(entries, id),
    ensures
        step_for_entry(entries, images, id) == StepView::Failed(ErrorView::NotFound { id }),
{
}

/// An entry that was stored gets its cover in two requests, and then no
/// more. With no cover kept for its link, the first step asks for the page at
/// the link. A page that holds a `srcset` leads to the request for the image
/// at the address that the `srcset` stands for. The image that arrives is
/// filed under the entry's link: once it is kept, it is found under that
/// link, and the first step for the entry is the image itself.
pub proof fn law_entry_gets_its_cover_once(
    entries: Contents,
    images: Contents,
    anime: AnimeView,
    page_status: u16,
    html: Seq<char>,
    srcset: Seq<char>,
    image_status: u16,
    content_type: Option<Seq<char>>,
    body: Seq<u8>,
)
    requires
        anime_fits(anime),
        is_supported_link(anime.link),
        stored_image(images, anime.link) is Absent,
        is_success(page_status),
        is_success(image_status),
        image_fits(fetched_image(anime.link, content_type, body)),
    ensures
        step_for_entry(with_anime(entries, anime), images, anime.id) == (StepView::FetchPage {
            link: anime.link,
        }),
        is_readable_page(html) && first_match_attr(html, poster_selector(), srcset_attr()) == Ok::<
            Option<Option<Seq<char>>>,
            Seq<char>,
        >(Some(Some(srcset))) ==> step_after_page(
            anime.link,
            PageReplyView::Loaded { status: page_status, html },
        ) == (StepView::FetchImage { link: anime.link, url: image_url(srcset) }),
        step_after_image(
            anime.link,
            ImageReplyView::Loaded { status: image_status, content_type, body },
        ) == StepView::Done(fetched_image(anime.link, content_type, body)),
        stored_image(
            with_image(images, fetched_image(anime.link, content_type, body)),
            anime.link,
        ) == Stored::Record(fetched_image(anime.link, content_type, body)),
        step_for_entry(
            with_anime(entries, anime),
            with_image(images, fetched_image(anime.link, content_type, body)),
            anime.id,
        ) == StepView::Done(fetched_image(anime.link, content_type, body)),
{
    law_create_then_get(entries, anime);
    law_save_then_get_image(images, fetched_image(anime.link, content_type, body));
}

/// With no cover in the cache, a link that covers are not fetched from
/// fails, and nothing is asked for.
pub proof fn law_unsupported_link_is_not_fetched(images: Contents, link: Seq<char>)
    requires
        !is_supported_link(link),
    ensures
        first_step(link) == StepView::Failed(ErrorView::UnsupportedSource),
        stored_image(images, link) is Absent ==> step_by_link(images, link) == StepView::Failed(
            ErrorView::UnsupportedSource,
        ),
{
}

} // verus!
