//! Reading the address of the cover image out of a page.

use vstd::prelude::*;
use vstd::utf8::encode_utf8;
use crate::error::{CatalogError, ErrorView, ParseFailure, ParseFailureView};
use crate::srcset::{image_url, resolve_srcset};

verus! {

/// The most bytes of a page that is read: half a gibibyte. The parser keeps
/// each text of a page in a buffer that holds up to 2^31 bytes, and a text
/// can take three times the bytes in the parsed page that it takes in the
/// page as it came, so that a longer page could be more than the parser can
/// hold.
pub const MAX_PAGE_BYTES: usize = 0x2000_0000;

/// Whether a page is short enough to be read.
pub open spec fn is_readable_page(html: Seq<char>) -> bool {
    encode_utf8(html).len() <= MAX_PAGE_BYTES
}

/// What was found of an attribute: a failure with its cause where the
/// selector was not understood; else `None` where no element matches,
/// `Some(None)` where the first that matches lacks the attribute, and the
/// attribute's value where it has it.
pub type AttrLookup = Result<Option<Option<Seq<char>>>, Seq<char>>;

/// The value of the attribute `attr` of the first element of the document
/// `html` that matches the CSS selector `selector`.
pub uninterp spec fn first_match_attr(
    html: Seq<char>,
    selector: Seq<char>,
    attr: Seq<char>,
) -> Result<Option<Option<Seq<char>>>, Seq<char>>;

/// The selector of the element that names the cover image.
pub open spec fn poster_selector() -> Seq<char> {
    "#animes_show > section > div > div.menu-slide-outer.x199 > div > div > div:nth-child(1) > div.b-db_entry > div.c-image > div.cc.block > div.c-poster > div > picture > source"@
}

/// The attribute that holds the addresses of the cover image.
pub open spec fn srcset_attr() -> Seq<char> {
    "srcset"@
}

/// What was found, as a value of mathematics.
pub open spec fn lookup_view(found: Result<Option<Option<String>>, String>) -> AttrLookup {
    match found {
        Ok(None) => Ok(None),
        Ok(Some(None)) => Ok(Some(None)),
        Ok(Some(Some(value))) => Ok(Some(Some(value@))),
        Err(cause) => Err(cause@),
    }
}

/// The address of the image, given what was found of the `srcset`.
pub open spec fn image_url_of(found: AttrLookup) -> Result<Seq<char>, ErrorView> {
    match found {
        Err(cause) => Err(
            ErrorView::Parse { failure: ParseFailureView::Selector { cause } },
        ),
        Ok(None) => Err(ErrorView::Parse { failure: ParseFailureView::ElementMissing }),
        Ok(Some(None)) => Err(ErrorView::Parse { failure: ParseFailureView::AttributeMissing }),
        Ok(Some(Some(srcset))) => Ok(image_url(srcset)),
    }
}

/// The address of the cover image that the page `html` names. A page that
/// is too long to be read names none.
pub open spec fn page_image_url(html: Seq<char>) -> Result<Seq<char>, ErrorView> {
    if is_readable_page(html) {
        image_url_of(first_match_attr(html, poster_selector(), srcset_attr()))
    } else {
        Err(ErrorView::Parse { failure: ParseFailureView::PageTooLong })
    }
}

/// Whether `r` is `expected`, seen as values of mathematics.
pub open spec fn url_result_is(
    r: Result<String, CatalogError>,
    expected: Result<Seq<char>, ErrorView>,
) -> bool {
    match r {
        Ok(url) => expected == Ok::<Seq<char>, ErrorView>(url@),
        Err(e) => expected == Err::<Seq<char>, ErrorView>(e@),
    }
}

/// Parses `html` as a document and reads the attribute `attr` of the first
/// element that matches `selector`.
///
/// Trusted: calls `scraper::Selector::parse`, `scraper::Html::parse_document`
/// and `scraper::Html::select`, takes the first element that the selection
/// gives, and reads it with `scraper::node::Element::attr`. The contract
/// names the outcome, which the three texts determine, and claims nothing
/// else of it. A selector that is refused is reported with the `Debug` text
/// of the refusal. The parser panics where a text outgrows its buffer, so
/// a page that is too long to be read is left out.
#[verifier::external_body]
pub(crate) fn select_first_attr(html: &str, selector: &str, attr: &str) -> (r: Result<
    Option<Option<String>>,
    String,
>)
    requires
        is_readable_page(html@),
    ensures
        lookup_view(r) == first_match_attr(html@, selector@, attr@),
{
    match scraper::Selector::parse(selector) {
        Err(e) => Err(format!("{:?}", e)),
        Ok(parsed) => match scraper::Html::parse_document(html).select(&parsed).next() {
            None => Ok(None),
            Some(element) => Ok(Some(element.value().attr(attr).map(|value| value.to_string()))),
        },
    }
}

/// Gives the address of the image, given what was found of the `srcset`.
pub fn image_url_from_lookup(found: Result<Option<Option<String>>, String>) -> (r: Result<
    String,
    CatalogError,
>)
    ensures
        url_result_is(r, image_url_of(lookup_view(found))),
{
    match found {
        Err(cause) => Err(CatalogError::Parse { failure: ParseFailure::Selector { cause } }),
        Ok(None) => Err(CatalogError::Parse { failure: ParseFailure::ElementMissing }),
        Ok(Some(None)) => Err(CatalogError::Parse { failure: ParseFailure::AttributeMissing }),
        Ok(Some(Some(srcset))) => Ok(resolve_srcset(srcset.as_str())),
    }
}

/// Reads the address of the cover image out of the page `html`.
pub fn image_url_from_page(html: &str) -> (r: Result<String, CatalogError>)
    ensures
        url_result_is(r, page_image_url(html@)),
{
    if html.as_bytes().len() > MAX_PAGE_BYTES {
        return Err(CatalogError::Parse { failure: ParseFailure::PageTooLong });
    }
    image_url_from_lookup(
        select_first_attr(
            html,
            "#animes_show > section > div > div.menu-slide-outer.x199 > div > div > div:nth-child(1) > div.b-db_entry > div.c-image > div.cc.block > div.c-poster > div > picture > source",
            "srcset",
        ),
    )
}

} // verus!
