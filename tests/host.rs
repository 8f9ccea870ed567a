use webview_shim::content::PageSource;
use webview_shim::host::{Flow, Phase, WebviewHost, WindowSignal, CLOSE_REQUESTED_EVENT};

#[test]
fn second_registration_replaces_first() {
    let mut host: WebviewHost<u32, ()> = WebviewHost::new(false);
    host.set_event_callback(1);
    host.set_event_callback(2);
    let step = host.on_event(WindowSignal::CloseRequested);
    assert_eq!(step.flow, Flow::Exit);
    assert_eq!(step.notify, Some((CLOSE_REQUESTED_EVENT, 2)));
    assert_eq!(CLOSE_REQUESTED_EVENT, 1);
    assert_eq!(host.current_phase(), Phase::Closed);
}

#[test]
fn close_without_callback_notifies_nobody() {
    let mut host: WebviewHost<u32, ()> = WebviewHost::new(false);
    let step = host.on_event(WindowSignal::CloseRequested);
    assert_eq!(step.flow, Flow::Exit);
    assert_eq!(step.notify, None);
}

#[test]
fn no_webview_guard() {
    let mut host: WebviewHost<u32, &str> = WebviewHost::new(true);
    assert_eq!(host.current_phase(), Phase::Idle);
    assert!(host.script_target(Some("alert(1)")).is_none());
    assert!(host.devtools_target().is_none());
    let step = host.on_event(WindowSignal::RightMouseDown);
    assert_eq!(step.flow, Flow::Wait);
    assert!(!step.open_devtools);
    assert_eq!(step.notify, None);
}

#[test]
fn active_webview_receives_scripts() {
    let mut host: WebviewHost<u32, &str> = WebviewHost::new(true);
    let _ = host.begin_run(Some("https://example.org"));
    assert_eq!(host.current_phase(), Phase::Running);
    host.attach_webview("view");
    assert_eq!(host.script_target(Some("alert(1)")), Some(&"view"));
    assert_eq!(host.script_target(None), None);
    assert_eq!(host.devtools_target(), Some(&"view"));
    assert!(host.on_event(WindowSignal::RightMouseDown).open_devtools);
    let other = host.on_event(WindowSignal::Other);
    assert_eq!(other.flow, Flow::Wait);
    assert!(!other.open_devtools);
}

#[test]
fn devtools_stay_closed_when_disabled() {
    let mut host: WebviewHost<u32, &str> = WebviewHost::new(false);
    host.attach_webview("view");
    assert!(!host.on_event(WindowSignal::RightMouseDown).open_devtools);
}

/// Stands in for the webview library's builder and records which content
/// method was called on it.
#[derive(Default)]
struct RecordingBuilder {
    calls: Vec<(&'static str, String)>,
}

impl RecordingBuilder {
    fn with_url(&mut self, u: &str) {
        self.calls.push(("with_url", u.to_string()));
    }
    fn with_html(&mut self, h: &str) {
        self.calls.push(("with_html", h.to_string()));
    }
    fn apply(&mut self, source: &PageSource) {
        match source {
            PageSource::Url(u) => self.with_url(u),
            PageSource::Html(h) => self.with_html(h),
        }
    }
}

#[test]
fn html_content_takes_html_path() {
    let mut host: WebviewHost<u32, ()> = WebviewHost::new(false);
    let page = "<!DOCTYPE html><h1>Hi</h1>";
    let source = host.begin_run(Some(page));
    let mut builder = RecordingBuilder::default();
    builder.apply(&source);
    assert_eq!(builder.calls, vec![("with_html", page.to_string())]);
}

#[test]
fn url_content_takes_url_path() {
    let mut host: WebviewHost<u32, ()> = WebviewHost::new(false);
    let source = host.begin_run(None);
    let mut builder = RecordingBuilder::default();
    builder.apply(&source);
    assert_eq!(builder.calls, vec![("with_url", "https://www.example.com".to_string())]);
}
