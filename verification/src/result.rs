//! The closed error taxonomy of the library, the retry-worthiness
//! predicate, and the `optional` adapter that turns "not found" into an
//! absent value.

use vstd::prelude::*;

verus! {

/// Every failure the library can surface.
///
/// `NotFound` is kept apart from the other failures so that callers can
/// treat an absent resource as a plain optional value (see
/// [`OptionalShopifyResult::optional`]). `Request` carries the original
/// path, HTTP status and raw body for diagnostics. `TransportFailure`
/// stands for network- or connection-level failures reported by the
/// HTTP client; `UrlParse` for a malformed URL; `PageInfoNotPresent`
/// for a pagination link that carries no cursor, which is treated as a
/// protocol violation rather than as the absence of a page.
#[derive(Debug)]
pub enum ShopifyError {
    NotFound,
    Request { path: String, status: u16, body: String },
    InvalidResponse,
    TransportFailure { message: String },
    UrlParse,
    PageInfoNotPresent,
}

impl ShopifyError {
    /// Whether re-issuing the identical request may succeed without any
    /// client-side change: true exactly for a `Request` failure with
    /// status 429, 500 or 503, and for any transport-level failure.
    pub open spec fn spec_should_try_again(&self) -> bool {
        ||| (self matches ShopifyError::Request { status, .. } && (status == 429 || status == 500
            || status == 503))
        ||| self is TransportFailure
    }

    /// The retry-worthiness predicate. Advisory only: the library never
    /// retries by itself.
    pub fn should_try_again(&self) -> (r: bool)
        ensures
            r == self.spec_should_try_again(),
    {
        match self {
            ShopifyError::Request { status, .. } => {
                let code: u16 = *status;
                code == 429 || code == 500 || code == 503
            },
            ShopifyError::TransportFailure { .. } => true,
            _ => false,
        }
    }

    /// A short human-readable description of the error.
    pub fn describe(&self) -> (r: &'static str)
        ensures
            r@ == self.spec_describe(),
    {
        match self {
            ShopifyError::NotFound => "not found",
            ShopifyError::Request { .. } => "request error",
            ShopifyError::InvalidResponse => "invalid response",
            ShopifyError::TransportFailure { .. } => "transport failure",
            ShopifyError::UrlParse => "url parse error",
            ShopifyError::PageInfoNotPresent => "page_info parameter was not found in the link url",
        }
    }

    /// The description returned by [`Self::describe`].
    pub open spec fn spec_describe(&self) -> Seq<char> {
        match self {
            ShopifyError::NotFound => "not found"@,
            ShopifyError::Request { .. } => "request error"@,
            ShopifyError::InvalidResponse => "invalid response"@,
            ShopifyError::TransportFailure { .. } => "transport failure"@,
            ShopifyError::UrlParse => "url parse error"@,
            ShopifyError::PageInfoNotPresent => "page_info parameter was not found in the link url"@,
        }
    }
}

/// The result type of every fallible operation in the library.
pub type ShopifyResult<T> = Result<T, ShopifyError>;

/// The adapter that treats "resource absent" as a non-exceptional case.
pub trait OptionalShopifyResult<T>: Sized {
    /// What `optional` returns.
    spec fn spec_optional(self) -> ShopifyResult<Option<T>>;

    /// Turn `Err(NotFound)` into `Ok(None)` and a success `v` into
    /// `Ok(Some(v))`; every other error is returned unchanged.
    fn optional(self) -> (r: ShopifyResult<Option<T>>)
        ensures
            r == self.spec_optional(),
    ;
}

impl<T> OptionalShopifyResult<T> for ShopifyResult<T> {
    open spec fn spec_optional(self) -> ShopifyResult<Option<T>> {
        match self {
            Ok(v) => Ok(Some(v)),
            Err(ShopifyError::NotFound) => Ok(None),
            Err(e) => Err(e),
        }
    }

    fn optional(self) -> (r: ShopifyResult<Option<T>>)
        ensures
            r == self.spec_optional(),
    {
        match self {
            Ok(v) => Ok(Some(v)),
            Err(ShopifyError::NotFound) => Ok(None),
            Err(e) => Err(e),
        }
    }
}

} // verus!
