use blog_engine::templates::{ReloadWatcher, TemplateStore, WatchAction, WatchEvent};
use tera::{Context, Tera};

fn set_with(body: &str) -> Tera {
    let mut t = Tera::default();
    t.add_raw_template("index.html", body).unwrap();
    t
}

#[test]
fn replace_swaps_in_new_set() {
    let mut store = TemplateStore::new(set_with("old"));
    assert!(store.replace(Ok(set_with("new"))).is_ok());
    assert_eq!(store.render("index.html", &Context::new()).unwrap(), "new");
}

#[test]
fn failed_rebuild_keeps_prior_set() {
    let mut store = TemplateStore::new(set_with("old {{ title }}"));
    assert!(store.replace(Err(tera::Error::msg("broken template"))).is_err());
    let mut ctx = Context::new();
    ctx.insert("title", "Posts");
    assert_eq!(store.render("index.html", &ctx).unwrap(), "old Posts");
}

#[test]
fn unknown_template_fails_to_render() {
    let store = TemplateStore::new(set_with("x"));
    assert!(store.render("post.html", &Context::new()).is_err());
}

#[test]
fn watcher_never_overlaps_rebuilds() {
    let mut w = ReloadWatcher::new();
    assert_eq!(w.step(WatchEvent::Changed), WatchAction::Rebuild);
    assert_eq!(w.step(WatchEvent::Changed), WatchAction::Wait);
    assert_eq!(w.step(WatchEvent::Changed), WatchAction::Wait);
    assert_eq!(w.step(WatchEvent::RebuildDone), WatchAction::Rebuild);
    assert_eq!(w.step(WatchEvent::RebuildDone), WatchAction::Wait);
    assert!(!w.rebuilding);
}

#[test]
fn watcher_reports_subscription_errors() {
    let mut w = ReloadWatcher::new();
    assert_eq!(w.step(WatchEvent::WatchFailed), WatchAction::Report);
    assert_eq!(w, ReloadWatcher::new());
}
