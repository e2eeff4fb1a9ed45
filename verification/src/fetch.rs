//! Fetching a cover image, step by step.
//!
//! Nothing here touches the network. Each function takes what is known so
//! far and says what to do next: ask for a page, ask for an image, or stop
//! with the image or a failure. Whoever drives the steps makes the requests
//! and hands each reply back.

use vstd::prelude::*;
use crate::error::{CatalogError, ErrorView, FetchStage, status_cause, status_text};
use crate::models::{AnimeImage, ImageView};
use crate::page::{image_url_from_page, page_image_url};
use crate::text::{chars_of, starts_with};

verus! {

/// What to do next for an image.
#[derive(Debug, Clone)]
pub enum ImageStep {
    /// Ask for the page at `link`, and hand the reply to `page_arrived`.
    FetchPage { link: String },
    /// Ask for the image at `url`, and hand the reply to `image_arrived`
    /// together with `link`.
    FetchImage { link: String, url: String },
    /// The image is there.
    Done(AnimeImage),
    /// No image can be had.
    Failed(CatalogError),
}

/// What came of asking for a page.
#[derive(Debug, Clone)]
pub enum PageReply {
    /// The server answered.
    Loaded { status: u16, html: String },
    /// The request did not get through.
    RequestFailed { cause: String },
    /// The answer could not be read to its end.
    BodyFailed { cause: String },
}

/// What came of asking for an image.
#[derive(Debug, Clone)]
pub enum ImageReply {
    /// The server answered.
    Loaded { status: u16, content_type: Option<String>, body: Vec<u8> },
    /// The request did not get through.
    RequestFailed { cause: String },
    /// The answer could not be read to its end.
    BodyFailed { cause: String },
}

/// The mathematical value of an [`ImageStep`].
pub enum StepView {
    FetchPage { link: Seq<char> },
    FetchImage { link: Seq<char>, url: Seq<char> },
    Done(ImageView),
    Failed(ErrorView),
}

/// The mathematical value of a [`PageReply`].
pub enum PageReplyView {
    Loaded { status: u16, html: Seq<char> },
    RequestFailed { cause: Seq<char> },
    BodyFailed { cause: Seq<char> },
}

/// The mathematical value of an [`ImageReply`].
pub enum ImageReplyView {
    Loaded { status: u16, content_type: Option<Seq<char>>, body: Seq<u8> },
    RequestFailed { cause: Seq<char> },
    BodyFailed { cause: Seq<char> },
}

impl View for ImageStep {
    type V = StepView;

    open spec fn view(&self) -> StepView {
        match *self {
            ImageStep::FetchPage { link } => StepView::FetchPage { link: link@ },
            ImageStep::FetchImage { link, url } => StepView::FetchImage { link: link@, url: url@ },
            ImageStep::Done(image) => StepView::Done(image@),
            ImageStep::Failed(e) => StepView::Failed(e@),
        }
    }
}

impl View for PageReply {
    type V = PageReplyView;

    open spec fn view(&self) -> PageReplyView {
        match *self {
            PageReply::Loaded { status, html } => PageReplyView::Loaded { status, html: html@ },
            PageReply::RequestFailed { cause } => PageReplyView::RequestFailed { cause: cause@ },
            PageReply::BodyFailed { cause } => PageReplyView::BodyFailed { cause: cause@ },
        }
    }
}

impl View for ImageReply {
    type V = ImageReplyView;

    open spec fn view(&self) -> ImageReplyView {
        match *self {
            ImageReply::Loaded { status, content_type, body } => ImageReplyView::Loaded {
                status,
                content_type: match content_type {
                    Some(t) => Some(t@),
                    None => None,
                },
                body: body@,
            },
            ImageReply::RequestFailed { cause } => ImageReplyView::RequestFailed { cause: cause@ },
            ImageReply::BodyFailed { cause } => ImageReplyView::BodyFailed { cause: cause@ },
        }
    }
}

/// What the links of pages that covers are fetched from begin with.
pub open spec fn link_prefix() -> Seq<char> {
    "https://shikimori.one/animes/"@
}

/// The content type of an image whose server names none.
pub open spec fn default_content_type() -> Seq<char> {
    "image/jpeg"@
}

/// Whether covers are fetched from the page at `link`.
pub open spec fn is_supported_link(link: Seq<char>) -> bool {
    link_prefix().is_prefix_of(link)
}

/// Whether a status tells of success.
pub open spec fn is_success(status: u16) -> bool {
    200 <= status < 300
}

/// The first step for the page at `link`.
pub open spec fn first_step(link: Seq<char>) -> StepView {
    if is_supported_link(link) {
        StepView::FetchPage { link }
    } else {
        StepView::Failed(ErrorView::UnsupportedSource)
    }
}

/// The step after the reply to the request for the page at `link`.
pub open spec fn step_after_page(link: Seq<char>, reply: PageReplyView) -> StepView {
    match reply {
        PageReplyView::RequestFailed { cause } => StepView::Failed(
            ErrorView::Transport { stage: FetchStage::PageRequest, cause },
        ),
        PageReplyView::BodyFailed { cause } => StepView::Failed(
            ErrorView::Transport { stage: FetchStage::PageBody, cause },
        ),
        PageReplyView::Loaded { status, html } => if !is_success(status) {
            StepView::Failed(
                ErrorView::Transport { stage: FetchStage::PageRequest, cause: status_text(status) },
            )
        } else {
            match page_image_url(html) {
                Ok(url) => StepView::FetchImage { link, url },
                Err(e) => StepView::Failed(e),
            }
        },
    }
}

/// The image that was loaded for the page at `link`: it is filed under
/// `link`, and is a JPEG where the server did not say what it is.
pub open spec fn fetched_image(
    link: Seq<char>,
    content_type: Option<Seq<char>>,
    body: Seq<u8>,
) -> ImageView {
    ImageView {
        link,
        image_data: body,
        content_type: match content_type {
            Some(t) => t,
            None => default_content_type(),
        },
    }
}

/// The step after the reply to the request for the image of the page at
/// `link`.
pub open spec fn step_after_image(link: Seq<char>, reply: ImageReplyView) -> StepView {
    match reply {
        ImageReplyView::RequestFailed { cause } => StepView::Failed(
            ErrorView::Transport { stage: FetchStage::ImageRequest, cause },
        ),
        ImageReplyView::BodyFailed { cause } => StepView::Failed(
            ErrorView::Transport { stage: FetchStage::ImageBody, cause },
        ),
        ImageReplyView::Loaded { status, content_type, body } => if !is_success(status) {
            StepView::Failed(
                ErrorView::Transport {
                    stage: FetchStage::ImageRequest,
                    cause: status_text(status),
                },
            )
        } else {
            StepView::Done(fetched_image(link, content_type, body))
        },
    }
}

/// Tells whether covers are fetched from the page at `link`.
pub fn supports_link(link: &str) -> (b: bool)
    ensures
        b == is_supported_link(link@),
{
    let prefix = chars_of("https://shikimori.one/animes/");
    let chars = chars_of(link);
    starts_with(&chars, &prefix)
}

/// Tells whether a status tells of success.
pub fn status_is_success(status: u16) -> (b: bool)
    ensures
        b == is_success(status),
{
    200 <= status && status < 300
}

/// Begins fetching the cover of the page at `link`: a link that covers are
/// not fetched from fails at once, before anything is asked for.
pub fn fetch_anime_image(link: String) -> (r: ImageStep)
    ensures
        r@ == first_step(link@),
{
    if supports_link(link.as_str()) {
        ImageStep::FetchPage { link }
    } else {
        ImageStep::Failed(CatalogError::UnsupportedSource)
    }
}

/// Goes on after the reply to the request for the page at `link`.
pub fn page_arrived(link: String, reply: PageReply) -> (r: ImageStep)
    ensures
        r@ == step_after_page(link@, reply@),
{
    match reply {
        PageReply::RequestFailed { cause } => ImageStep::Failed(
            CatalogError::Transport { stage: FetchStage::PageRequest, cause },
        ),
        PageReply::BodyFailed { cause } => ImageStep::Failed(
            CatalogError::Transport { stage: FetchStage::PageBody, cause },
        ),
        PageReply::Loaded { status, html } => {
            if !status_is_success(status) {
                return ImageStep::Failed(
                    CatalogError::Transport {
                        stage: FetchStage::PageRequest,
                        cause: status_cause(status),
                    },
                );
            }
            match image_url_from_page(html.as_str()) {
                Ok(url) => ImageStep::FetchImage { link, url },
                Err(e) => ImageStep::Failed(e),
            }
        },
    }
}

/// Ends the fetch with the reply to the request for the image of the page
/// at `link`. The image is filed under `link`, not under the address it was
/// loaded from.
pub fn image_arrived(link: String, reply: ImageReply) -> (r: ImageStep)
    ensures
        r@ == step_after_image(link@, reply@),
        r@ is Done || r@ is Failed,
{
    match reply {
        ImageReply::RequestFailed { cause } => ImageStep::Failed(
            CatalogError::Transport { stage: FetchStage::ImageRequest, cause },
        ),
        ImageReply::BodyFailed { cause } => ImageStep::Failed(
            CatalogError::Transport { stage: FetchStage::ImageBody, cause },
        ),
        ImageReply::Loaded { status, content_type, body } => {
            if !status_is_success(status) {
                return ImageStep::Failed(
                    CatalogError::Transport {
                        stage: FetchStage::ImageRequest,
                        cause: status_cause(status),
                    },
                );
            }
            let content_type = match content_type {
                Some(t) => t,
                None => String::from_str("image/jpeg"),
            };
            ImageStep::Done(AnimeImage { link, image_data: body, content_type })
        },
    }
}

} // verus!
