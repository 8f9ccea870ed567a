use vstd::prelude::*;

pub mod content;
pub mod host;
pub mod marshal;
pub mod smoke;

verus! {

/// The handle that the non-blocking entry points hand out. It holds no
/// webview of its own: the blocking run owns the one webview of the process.
pub struct WebViewWrapper {
    pub reserved: i32,
}

/// Makes the handle that the non-blocking entry points hand out. The content
/// is not used: a webview is only built by the blocking run.
pub fn wry_create_webview(_url: Option<&str>) -> (r: WebViewWrapper)
    ensures
        r.reserved == 0,
{
    WebViewWrapper { reserved: 0 }
}

} // verus!
