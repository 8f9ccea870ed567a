use vstd::prelude::*;
use vstd::string::*;

verus! {

/// What `str::trim_start` leaves of a string: the text from its first
/// non-whitespace character on.
pub uninterp spec fn trim_start_of(s: Seq<char>) -> Seq<char>;

/// Relies on `str::trim_start`: it drops leading whitespace, so what it
/// returns is a suffix of its argument.
#[verifier::external_body]
fn trimmed_start(s: &str) -> (r: &str)
    ensures
        r@ == trim_start_of(s@),
        r@.len() <= s@.len(),
        r@ == s@.subrange(s@.len() - r@.len(), s@.len() as int),
{
    s.trim_start()
}

/// The document type marker that opens an HTML document.
pub open spec fn doctype_marker() -> Seq<char> {
    seq!['<', '!', 'D', 'O', 'C', 'T', 'Y', 'P', 'E']
}

/// The opening of a root `html` element.
pub open spec fn html_tag_marker() -> Seq<char> {
    seq!['<', 'h', 't', 'm', 'l']
}

/// Text that starts, case-sensitively, with one of the two HTML markers.
pub open spec fn has_html_prefix(t: Seq<char>) -> bool {
    doctype_marker().is_prefix_of(t) || html_tag_marker().is_prefix_of(t)
}

/// The address loaded when the caller gives no content at all.
pub open spec fn default_url() -> Seq<char> {
    seq!['h', 't', 't', 'p', 's', ':', '/', '/', 'w', 'w', 'w', '.', 'e', 'x', 'a', 'm', 'p', 'l', 'e', '.', 'c', 'o', 'm']
}

/// What a webview is asked to show: a page to load, or markup to render.
pub enum PageSource {
    Url(String),
    Html(String),
}

/// The page source chosen for the given content, as a sequence of characters.
pub open spec fn classified_is(content: Option<Seq<char>>, r: PageSource) -> bool {
    match content {
        None => r matches PageSource::Url(u) && u@ == default_url(),
        Some(s) => if has_html_prefix(trim_start_of(s)) {
            r matches PageSource::Html(h) && h@ == s
        } else {
            r matches PageSource::Url(u) && u@ == s
        },
    }
}

fn doctype_chars() -> (r: Vec<char>)
    ensures
        r@ == doctype_marker(),
{
    let r: Vec<char> = vec!['<', '!', 'D', 'O', 'C', 'T', 'Y', 'P', 'E'];
    assert(r@ =~= doctype_marker());
    r
}

fn html_tag_chars() -> (r: Vec<char>)
    ensures
        r@ == html_tag_marker(),
{
    let r: Vec<char> = vec!['<', 'h', 't', 'm', 'l'];
    assert(r@ =~= html_tag_marker());
    r
}

/// Whether `t` starts with the characters of `marker`.
fn starts_with_chars(t: &str, marker: &Vec<char>) -> (r: bool)
    ensures
        r == marker@.is_prefix_of(t@),
{
    let n = t.unicode_len();
    if marker.len() > n {
        return false;
    }
    let mut i: usize = 0;
    while i < marker.len()
        invariant
            n == t@.len(),
            marker@.len() <= n,
            i <= marker@.len(),
            forall|j: int| 0 <= j < i ==> marker@[j] == t@[j],
        decreases marker@.len() - i,
    {
        if t.get_char(i) != marker[i] {
            assert(!marker@.is_prefix_of(t@));
            return false;
        }
        i = i + 1;
    }
    assert(marker@ =~= t@.subrange(0, marker@.len() as int));
    true
}

/// Whether text whose leading whitespace is already gone is HTML markup.
pub fn is_html_markup(trimmed: &str) -> (r: bool)
    ensures
        r == has_html_prefix(trimmed@),
{
    let doctype = doctype_chars();
    let html_tag = html_tag_chars();
    starts_with_chars(trimmed, &doctype) || starts_with_chars(trimmed, &html_tag)
}

/// Whether `content`, once its leading whitespace is dropped, is HTML markup.
pub fn is_html_content(content: &str) -> (r: bool)
    ensures
        r == has_html_prefix(trim_start_of(content@)),
{
    is_html_markup(trimmed_start(content))
}

/// The address loaded when the caller gives no content.
pub fn default_page_url() -> (r: String)
    ensures
        r@ == default_url(),
{
    let u = "https://www.example.com";
    proof {
        reveal_strlit("https://www.example.com");
    }
    let r = String::from_str(u);
    assert(r@ =~= default_url());
    r
}

/// Decides how content handed to the host is shown: HTML markup is rendered
/// as it is, anything else is loaded as an address, and no content at all
/// loads the default address.
pub fn classify_content(content: Option<&str>) -> (r: PageSource)
    ensures
        classified_is(
            match content {
                Some(s) => Some(s@),
                None => None,
            },
            r,
        ),
{
    match content {
        None => PageSource::Url(default_page_url()),
        Some(s) => {
            if is_html_content(s) {
                PageSource::Html(String::from_str(s))
            } else {
                PageSource::Url(String::from_str(s))
            }
        },
    }
}

} // verus!
