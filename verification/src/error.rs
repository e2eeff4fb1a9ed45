//! What can go wrong, and how it is told to the user.

use vstd::prelude::*;

verus! {

/// The step of fetching a cover at which the transport failed.
#[derive(Debug, Clone, Copy, PartialEq, Eq, Structural)]
pub enum FetchStage {
    /// Asking for the page.
    PageRequest,
    /// Reading the page's text.
    PageBody,
    /// Asking for the image.
    ImageRequest,
    /// Reading the image's bytes.
    ImageBody,
}

/// Why no image address could be read from a page.
#[derive(Debug, Clone, PartialEq, Eq)]
pub enum ParseFailure {
    /// The selector itself was not understood.
    Selector { cause: String },
    /// No element of the page matches the selector.
    ElementMissing,
    /// The element has no `srcset` attribute.
    AttributeMissing,
    /// The page is longer than a page that is read: it is not looked into.
    PageTooLong,
}

/// An error of the catalogue.
#[derive(Debug, Clone, PartialEq, Eq)]
pub enum CatalogError {
    /// No entry has this id.
    NotFound { id: String },
    /// The link does not point to a page that covers are fetched from.
    UnsupportedSource,
    /// The transport failed, or the server answered with a failure.
    Transport { stage: FetchStage, cause: String },
    /// The page does not hold what was looked for.
    Parse { failure: ParseFailure },
    /// The store could not read or write.
    Persistence { cause: String },
    /// What the store holds under a key is not a record.
    Serialization,
    /// The lock around the store could not be taken.
    Concurrency { cause: String },
}

/// The mathematical value of a [`ParseFailure`].
pub enum ParseFailureView {
    Selector { cause: Seq<char> },
    ElementMissing,
    AttributeMissing,
    PageTooLong,
}

/// The mathematical value of an [`CatalogError`].
pub enum ErrorView {
    NotFound { id: Seq<char> },
    UnsupportedSource,
    Transport { stage: FetchStage, cause: Seq<char> },
    Parse { failure: ParseFailureView },
    Persistence { cause: Seq<char> },
    Serialization,
    Concurrency { cause: Seq<char> },
}

impl View for ParseFailure {
    type V = ParseFailureView;

    open spec fn view(&self) -> ParseFailureView {
        match *self {
            ParseFailure::Selector { cause } => ParseFailureView::Selector { cause: cause@ },
            ParseFailure::ElementMissing => ParseFailureView::ElementMissing,
            ParseFailure::AttributeMissing => ParseFailureView::AttributeMissing,
            ParseFailure::PageTooLong => ParseFailureView::PageTooLong,
        }
    }
}

impl View for CatalogError {
    type V = ErrorView;

    open spec fn view(&self) -> ErrorView {
        match *self {
            CatalogError::NotFound { id } => ErrorView::NotFound { id: id@ },
            CatalogError::UnsupportedSource => ErrorView::UnsupportedSource,
            CatalogError::Transport { stage, cause } => ErrorView::Transport { stage, cause: cause@ },
            CatalogError::Parse { failure } => ErrorView::Parse { failure: failure@ },
            CatalogError::Persistence { cause } => ErrorView::Persistence { cause: cause@ },
            CatalogError::Serialization => ErrorView::Serialization,
            CatalogError::Concurrency { cause } => ErrorView::Concurrency { cause: cause@ },
        }
    }
}

/// The words that open the message of a transport failure at `stage`.
pub open spec fn stage_text(stage: FetchStage) -> Seq<char> {
    match stage {
        FetchStage::PageRequest => "Ошибка при запросе страницы: "@,
        FetchStage::PageBody => "Ошибка при чтении HTML: "@,
        FetchStage::ImageRequest => "Ошибка при загрузке изображения: "@,
        FetchStage::ImageBody => "Ошибка при чтении данных изображения: "@,
    }
}

/// The message of a parse failure.
pub open spec fn parse_failure_text(failure: ParseFailureView) -> Seq<char> {
    match failure {
        ParseFailureView::Selector { cause } => "Ошибка парсинга селектора: "@ + cause,
        ParseFailureView::ElementMissing => "Элемент source не найден на странице"@,
        ParseFailureView::AttributeMissing => "Атрибут srcset не найден"@,
        ParseFailureView::PageTooLong => "Страница слишком велика для разбора"@,
    }
}

/// The message of an error.
pub open spec fn message_text(e: ErrorView) -> Seq<char> {
    match e {
        ErrorView::NotFound { id } => "Anime with id "@ + id + " not found"@,
        ErrorView::UnsupportedSource =>
            "Неподдерживаемая ссылка. Обрабатываются только ссылки с https://shikimori.one/animes/"@,
        ErrorView::Transport { stage, cause } => stage_text(stage) + cause,
        ErrorView::Parse { failure } => parse_failure_text(failure),
        ErrorView::Persistence { cause } => cause,
        ErrorView::Serialization => "Stored record is not readable"@,
        ErrorView::Concurrency { cause } => cause,
    }
}

/// The decimal digit `d` as text.
pub open spec fn digit_text(d: int) -> Seq<char> {
    if d == 0 {
        "0"@
    } else if d == 1 {
        "1"@
    } else if d == 2 {
        "2"@
    } else if d == 3 {
        "3"@
    } else if d == 4 {
        "4"@
    } else if d == 5 {
        "5"@
    } else if d == 6 {
        "6"@
    } else if d == 7 {
        "7"@
    } else if d == 8 {
        "8"@
    } else {
        "9"@
    }
}

/// The number `n` in decimal, without leading zeros.
pub open spec fn decimal_text(n: nat) -> Seq<char>
    decreases n,
{
    if n < 10 {
        digit_text(n as int)
    } else {
        decimal_text(n / 10) + digit_text((n % 10) as int)
    }
}

/// What a failure status of a server is reported as.
pub open spec fn status_text(status: u16) -> Seq<char> {
    "HTTP "@ + decimal_text(status as nat)
}

fn digit_str(d: u16) -> (r: &'static str)
    requires
        d < 10,
    ensures
        r@ == digit_text(d as int),
{
    if d == 0 {
        "0"
    } else if d == 1 {
        "1"
    } else if d == 2 {
        "2"
    } else if d == 3 {
        "3"
    } else if d == 4 {
        "4"
    } else if d == 5 {
        "5"
    } else if d == 6 {
        "6"
    } else if d == 7 {
        "7"
    } else if d == 8 {
        "8"
    } else {
        "9"
    }
}

/// Writes `n` in decimal.
pub fn decimal(n: u16) -> (r: String)
    ensures
        r@ == decimal_text(n as nat),
    decreases n,
{
    if n < 10 {
        String::from_str(digit_str(n))
    } else {
        decimal(n / 10).concat(digit_str(n % 10))
    }
}

/// Words a failure status of a server.
pub fn status_cause(status: u16) -> (r: String)
    ensures
        r@ == status_text(status),
{
    let digits = decimal(status);
    String::from_str("HTTP ").concat(digits.as_str())
}

impl ParseFailure {
    /// The message for the user.
    pub fn message(&self) -> (r: String)
        ensures
            r@ == parse_failure_text(self@),
    {
        match self {
            ParseFailure::Selector { cause } => String::from_str(
                "Ошибка парсинга селектора: ",
            ).concat(cause.as_str()),
            ParseFailure::ElementMissing => String::from_str(
                "Элемент source не найден на странице",
            ),
            ParseFailure::AttributeMissing => String::from_str("Атрибут srcset не найден"),
            ParseFailure::PageTooLong => String::from_str("Страница слишком велика для разбора"),
        }
    }
}

impl CatalogError {
    /// The message for the user.
    pub fn message(&self) -> (r: String)
        ensures
            r@ == message_text(self@),
    {
        match self {
            CatalogError::NotFound { id } => String::from_str("Anime with id ").concat(
                id.as_str(),
            ).concat(" not found"),
            CatalogError::UnsupportedSource => String::from_str(
                "Неподдерживаемая ссылка. Обрабатываются только ссылки с https://shikimori.one/animes/",
            ),
            CatalogError::Transport { stage, cause } => {
                let opening = match stage {
                    FetchStage::PageRequest => "Ошибка при запросе страницы: ",
                    FetchStage::PageBody => "Ошибка при чтении HTML: ",
                    FetchStage::ImageRequest => "Ошибка при загрузке изображения: ",
                    FetchStage::ImageBody => "Ошибка при чтении данных изображения: ",
                };
                String::from_str(opening).concat(cause.as_str())
            },
            CatalogError::Parse { failure } => failure.message(),
            CatalogError::Persistence { cause } => cause.clone(),
            CatalogError::Serialization => String::from_str("Stored record is not readable"),
            CatalogError::Concurrency { cause } => cause.clone(),
        }
    }
}

} // verus!
