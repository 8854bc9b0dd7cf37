//! The `dsh-app` URI protocol.
//!
//! It serves only the loading page, which the window shows until the Host is
//! ready, so a failed start shows its state rather than a blank page. The
//! application documents do not come through here: once the Host is ready the
//! window navigates straight to its loopback HTTP origin.
use vstd::prelude::*;

verus! {

/// Name of the shell's custom protocol.
pub const SCHEME: &'static str = "dsh-app";

/// Address of the loading page on Windows, where Tauri serves a custom
/// protocol as `http://<scheme>.localhost/`.
pub const LOADING_URL_WINDOWS: &'static str = "http://dsh-app.localhost/";

/// Address of the loading page on macOS and Linux, where Tauri serves a custom
/// protocol as `<scheme>://localhost/`.
pub const LOADING_URL_OTHER: &'static str = "dsh-app://localhost/";

/// Content type of the loading page.
pub const LOADING_PAGE_CONTENT_TYPE: &'static str = "text/html; charset=utf-8";

/// Paths under which the loading page is served.
pub const ROOT_PATH: &'static str = "/";
pub const INDEX_PATH: &'static str = "/index.html";
pub const LOADING_PATH: &'static str = "/loading.html";

/// HTTP status of a served page.
pub const STATUS_OK: u16 = 200;

/// HTTP status of every other request.
pub const STATUS_NOT_FOUND: u16 = 404;

/// The address the window first loads. Tauri derives the host name from the
/// protocol name and the platform; the application cannot choose it.
pub fn loading_url_text(windows: bool) -> (r: &'static str)
    ensures
        r@ == (if windows { LOADING_URL_WINDOWS@ } else { LOADING_URL_OTHER@ }),
{
    if windows {
        LOADING_URL_WINDOWS
    } else {
        LOADING_URL_OTHER
    }
}

/// The answer of the protocol: a status, the content type, and whether the
/// body is the loading page (otherwise it is empty).
#[derive(Debug, Clone, PartialEq, Eq)]
pub struct LoadingResponse {
    pub status: u16,
    pub content_type: Option<&'static str>,
    pub loading_page: bool,
}

/// Whether a request path names the loading page.
pub open spec fn serves_loading_page(path: Seq<char>) -> bool {
    path == ROOT_PATH@ || path == INDEX_PATH@ || path == LOADING_PATH@
}

/// Whether two texts are equal.
pub fn same_text(a: &str, b: &str) -> (r: bool)
    ensures
        r == (a@ == b@),
{
    a.to_owned() == b.to_owned()
}

/// Answers a request for `path`: the loading page for `/`, `/index.html` and
/// `/loading.html`, an empty 404 for everything else.
pub fn respond(path: &str) -> (r: LoadingResponse)
    ensures
        serves_loading_page(path@) ==> r == (LoadingResponse {
            status: STATUS_OK,
            content_type: Some(LOADING_PAGE_CONTENT_TYPE),
            loading_page: true,
        }),
        !serves_loading_page(path@) ==> r == (LoadingResponse {
            status: STATUS_NOT_FOUND,
            content_type: None,
            loading_page: false,
        }),
{
    if same_text(path, ROOT_PATH) || same_text(path, INDEX_PATH) || same_text(path, LOADING_PATH) {
        LoadingResponse { status: STATUS_OK, content_type: Some(LOADING_PAGE_CONTENT_TYPE), loading_page: true }
    } else {
        LoadingResponse { status: STATUS_NOT_FOUND, content_type: None, loading_page: false }
    }
}

} // verus!
