use app_scaffold::resources::{
    Resource, ResourceError, ResourceKind, Resources, ResourcesBuilder, Step, WeakResource,
};
use std::io::{Error, ErrorKind};

fn font(text: &str) -> Result<String, Error> {
    Ok(text.to_string())
}

fn missing() -> Result<String, Error> {
    Err(Error::new(ErrorKind::NotFound, "no such file"))
}

fn handle(r: Result<Resource, ResourceError>) -> Resource {
    match r {
        Ok(h) => h,
        Err(_) => panic!("expected a handle"),
    }
}

#[test]
fn it_works() {
    assert_eq!(2 + 2, 4);
}

#[test]
fn kind_is_read_off_the_suffix() {
    assert!(matches!(ResourceKind::of("fonts/a.ttf"), Some(ResourceKind::Font)));
    assert!(matches!(ResourceKind::of("fonts/a.otf"), Some(ResourceKind::Font)));
    assert!(matches!(ResourceKind::of(".ttf"), Some(ResourceKind::Font)));
    assert!(ResourceKind::of("a.png").is_none());
    assert!(ResourceKind::of("ttf").is_none());
    assert!(ResourceKind::of("attf").is_none());
    assert!(ResourceKind::of("a.TTF").is_none());
    assert!(ResourceKind::of("a.ttf.bak").is_none());
    assert!(ResourceKind::of("a.tt").is_none());
    assert!(ResourceKind::of("").is_none());
    assert!(matches!(ResourceKind::of("schrift\u{e4}.otf"), Some(ResourceKind::Font)));
    assert!(ResourceKind::of("\u{e4}\u{e4}\u{e4}").is_none());
}

#[test]
fn new_cache_is_empty() {
    let mut cache: Resources<String> = Resources::new();
    assert_eq!(cache.loads(), 0);
    assert!(cache.has_room());
    assert!(cache.try_get("a.ttf").is_none());
    assert!(!cache.is_preloaded("a.ttf"));
    assert!(!cache.is_kept("a.ttf"));
}

#[test]
fn builder_builds_an_empty_cache() {
    let mut cache: Resources<String> = ResourcesBuilder::new().build();
    assert_eq!(cache.loads(), 0);
    assert!(cache.try_get("a.ttf").is_none());
}

#[test]
fn get_asks_for_a_load_of_the_named_kind() {
    let mut cache: Resources<String> = Resources::new();
    assert!(matches!(cache.get("a.ttf"), Ok(Step::Load(ResourceKind::Font))));
    assert!(matches!(cache.get("a.otf"), Ok(Step::Load(ResourceKind::Font))));
    assert_eq!(cache.loads(), 0);
}

#[test]
fn get_with_takes_the_load_in() {
    let mut cache: Resources<String> = Resources::new();
    let h = handle(cache.get_with("a.ttf", font("glyphs of a")));
    assert_eq!(h.instance(), 0);
    assert!(matches!(h.kind(), ResourceKind::Font));
    assert_eq!(cache.loads(), 1);
    assert_eq!(h.try_as_glyphs(&cache).map(|p| p.as_str()), Some("glyphs of a"));
    let g = handle(cache.get_with("b.otf", font("glyphs of b")));
    assert_eq!(g.instance(), 1);
    assert_eq!(cache.loads(), 2);
    assert_eq!(g.try_as_glyphs(&cache).map(|p| p.as_str()), Some("glyphs of b"));
}

#[test]
fn repeated_get_hands_out_the_same_instance() {
    let mut cache: Resources<String> = Resources::new();
    let first = handle(cache.get_with("a.ttf", font("one")));
    let second = handle(cache.get_with("a.ttf", font("two")));
    assert_eq!(first.instance(), second.instance());
    assert_eq!(cache.loads(), 1);
    assert_eq!(second.try_as_glyphs(&cache).map(|p| p.as_str()), Some("one"));
    match cache.get("a.ttf") {
        Ok(Step::Ready(third)) => assert_eq!(third.instance(), first.instance()),
        _ => panic!("expected the instance that is at hand"),
    }
    let fourth = cache.try_get("a.ttf").expect("at hand");
    assert_eq!(fourth.instance(), first.instance());
    assert_eq!(cache.loads(), 1);
}

#[test]
fn same_instance_while_one_handle_is_held() {
    let mut cache: Resources<String> = Resources::new();
    let first = handle(cache.get_with("a.ttf", font("one")));
    let second = handle(cache.get_with("a.ttf", font("two")));
    let x = first.instance();
    assert!(cache.release(first).is_none());
    let third = handle(cache.get_with("a.ttf", font("three")));
    assert_eq!(third.instance(), x);
    assert_eq!(second.instance(), x);
    assert_eq!(cache.loads(), 1);
}

#[test]
fn dropped_instance_is_loaded_afresh() {
    let mut cache: Resources<String> = Resources::new();
    let first = handle(cache.get_with("a.ttf", font("one")));
    let second = handle(cache.get_with("a.ttf", font("unused")));
    let x = first.instance();
    assert_eq!(cache.release(first), None);
    assert_eq!(cache.release(second), Some("one".to_string()));
    assert!(cache.try_get("a.ttf").is_none());
    assert!(matches!(cache.get("a.ttf"), Ok(Step::Load(ResourceKind::Font))));
    let again = handle(cache.get_with("a.ttf", font("two")));
    assert!(again.instance() != x);
    assert_eq!(again.instance(), 1);
    assert_eq!(cache.loads(), 2);
    assert_eq!(again.try_as_glyphs(&cache).map(|p| p.as_str()), Some("two"));
}

#[test]
fn preload_then_get_takes_no_second_load() {
    let mut cache: Resources<String> = Resources::new();
    assert!(matches!(cache.preload("a.ttf"), Ok(Step::Load(ResourceKind::Font))));
    assert!(cache.preload_with("a.ttf", font("warm")).is_ok());
    assert!(cache.is_preloaded("a.ttf"));
    assert_eq!(cache.loads(), 1);
    assert!(matches!(cache.preload("a.ttf"), Ok(Step::Ready(()))));
    assert!(cache.preload_with("a.ttf", font("again")).is_ok());
    assert_eq!(cache.loads(), 1);
    match cache.get("a.ttf") {
        Ok(Step::Ready(h)) => {
            assert_eq!(h.instance(), 0);
            assert_eq!(h.try_as_glyphs(&cache).map(|p| p.as_str()), Some("warm"));
        },
        _ => panic!("expected the preloaded instance"),
    }
    assert_eq!(cache.loads(), 1);
    assert!(!cache.is_preloaded("a.ttf"));
}

#[test]
fn preloaded_entry_is_used_up_by_one_get() {
    let mut cache: Resources<String> = Resources::new();
    assert!(cache.preload_with("a.ttf", font("warm")).is_ok());
    let first = cache.try_get("a.ttf").expect("preloaded");
    assert!(!cache.is_preloaded("a.ttf"));
    let second = cache.try_get("a.ttf").expect("weakly tracked and held");
    assert_eq!(first.instance(), second.instance());
    assert_eq!(cache.release(first), None);
    assert_eq!(cache.release(second), Some("warm".to_string()));
    assert!(cache.try_get("a.ttf").is_none());
}

#[test]
fn preloaded_instance_lives_without_handles() {
    let mut cache: Resources<String> = Resources::new();
    let h = handle(cache.get_with("a.ttf", font("one")));
    assert!(cache.preload_with("a.ttf", font("two")).is_ok());
    assert_eq!(cache.loads(), 2);
    assert_eq!(cache.release(h), Some("one".to_string()));
    let p = cache.try_get("a.ttf").expect("preloaded");
    assert_eq!(p.instance(), 1);
    assert_eq!(p.try_as_glyphs(&cache).map(|s| s.as_str()), Some("two"));
}

#[test]
fn preload_does_not_look_at_what_else_is_held() {
    let mut cache: Resources<String> = Resources::new();
    assert!(cache.keep_with("a.ttf", font("kept")).is_ok());
    assert!(matches!(cache.preload("a.ttf"), Ok(Step::Load(ResourceKind::Font))));
    assert!(cache.preload_with("a.ttf", font("warm")).is_ok());
    assert_eq!(cache.loads(), 2);
    let first = cache.try_get("a.ttf").expect("preloaded");
    assert_eq!(first.instance(), 1);
    let second = cache.try_get("a.ttf").expect("kept");
    assert_eq!(second.instance(), 0);
}

#[test]
fn keep_is_idempotent() {
    let mut cache: Resources<String> = Resources::new();
    assert!(matches!(cache.keep("a.ttf"), Ok(Step::Load(ResourceKind::Font))));
    assert!(!cache.is_kept("a.ttf"));
    assert!(cache.keep_with("a.ttf", font("pinned")).is_ok());
    assert!(cache.is_kept("a.ttf"));
    assert_eq!(cache.loads(), 1);
    assert!(matches!(cache.keep("a.ttf"), Ok(Step::Ready(()))));
    assert!(cache.keep_with("a.ttf", font("again")).is_ok());
    assert!(cache.keep_with("a.ttf", missing()).is_ok());
    assert_eq!(cache.loads(), 1);
}

#[test]
fn kept_instance_outlives_every_handle() {
    let mut cache: Resources<String> = Resources::new();
    assert!(cache.keep_with("a.ttf", font("pinned")).is_ok());
    let first = cache.try_get("a.ttf").expect("kept");
    let second = handle(cache.get_with("a.ttf", font("unused")));
    assert_eq!(first.instance(), 0);
    assert_eq!(second.instance(), 0);
    assert_eq!(cache.release(first), None);
    assert_eq!(cache.release(second), None);
    let third = cache.try_get("a.ttf").expect("still kept");
    assert_eq!(third.instance(), 0);
    assert_eq!(third.try_as_glyphs(&cache).map(|p| p.as_str()), Some("pinned"));
    assert_eq!(cache.loads(), 1);
}

#[test]
fn keep_takes_the_preloaded_instance() {
    let mut cache: Resources<String> = Resources::new();
    assert!(cache.preload_with("a.ttf", font("warm")).is_ok());
    assert!(matches!(cache.keep("a.ttf"), Ok(Step::Ready(()))));
    assert!(cache.is_kept("a.ttf"));
    assert!(!cache.is_preloaded("a.ttf"));
    assert_eq!(cache.loads(), 1);
    let h = cache.try_get("a.ttf").expect("kept");
    assert_eq!(h.instance(), 0);
    assert_eq!(cache.release(h), None);
    assert!(cache.try_get("a.ttf").is_some());
}

#[test]
fn keep_takes_the_live_weakly_tracked_instance() {
    let mut cache: Resources<String> = Resources::new();
    let h = handle(cache.get_with("a.ttf", font("one")));
    assert!(matches!(cache.keep("a.ttf"), Ok(Step::Ready(()))));
    assert_eq!(cache.loads(), 1);
    assert_eq!(cache.release(h), None);
    let again = cache.try_get("a.ttf").expect("kept");
    assert_eq!(again.instance(), 0);
}

#[test]
fn keep_of_a_dropped_instance_asks_for_a_load() {
    let mut cache: Resources<String> = Resources::new();
    let h = handle(cache.get_with("a.ttf", font("one")));
    assert_eq!(cache.release(h), Some("one".to_string()));
    assert!(matches!(cache.keep("a.ttf"), Ok(Step::Load(ResourceKind::Font))));
    assert!(!cache.is_kept("a.ttf"));
    assert!(cache.keep_with("a.ttf", font("two")).is_ok());
    assert_eq!(cache.loads(), 2);
    assert_eq!(cache.try_get("a.ttf").expect("kept").instance(), 1);
}

#[test]
fn unsupported_suffix_is_refused() {
    let mut cache: Resources<String> = Resources::new();
    assert!(matches!(cache.get("a.png"), Err(ResourceError::UnsupportedKind)));
    assert!(matches!(cache.get_with("a.png", font("x")), Err(ResourceError::UnsupportedKind)));
    assert!(matches!(cache.preload("a.png"), Err(ResourceError::UnsupportedKind)));
    assert!(matches!(cache.preload_with("a.png", font("x")), Err(ResourceError::UnsupportedKind)));
    assert!(matches!(cache.keep("a.png"), Err(ResourceError::UnsupportedKind)));
    assert!(matches!(cache.keep_with("a.png", font("x")), Err(ResourceError::UnsupportedKind)));
    assert_eq!(cache.loads(), 0);
    assert!(cache.try_get("a.png").is_none());
}

#[test]
fn missing_font_is_a_load_error() {
    let mut cache: Resources<String> = Resources::new();
    match cache.get_with("missing.ttf", missing()) {
        Err(ResourceError::LoadError(cause)) => assert_eq!(cause.kind(), ErrorKind::NotFound),
        _ => panic!("expected a load error"),
    }
    match cache.preload_with("missing.ttf", missing()) {
        Err(ResourceError::LoadError(cause)) => assert_eq!(cause.kind(), ErrorKind::NotFound),
        _ => panic!("expected a load error"),
    }
    match cache.keep_with("missing.ttf", missing()) {
        Err(ResourceError::LoadError(cause)) => assert_eq!(cause.kind(), ErrorKind::NotFound),
        _ => panic!("expected a load error"),
    }
}

#[test]
fn failed_load_leaves_the_cache_as_it_was() {
    let mut cache: Resources<String> = Resources::new();
    let h = handle(cache.get_with("a.ttf", font("one")));
    assert_eq!(cache.release(h), Some("one".to_string()));
    assert!(cache.keep_with("a.ttf", missing()).is_err());
    assert!(cache.preload_with("a.ttf", missing()).is_err());
    assert!(cache.get_with("a.ttf", missing()).is_err());
    assert_eq!(cache.loads(), 1);
    assert!(!cache.is_kept("a.ttf"));
    assert!(!cache.is_preloaded("a.ttf"));
    assert!(cache.try_get("a.ttf").is_none());
    let again = handle(cache.get_with("a.ttf", font("two")));
    assert_eq!(again.instance(), 1);
}

#[test]
fn weak_handle_follows_the_instance() {
    let mut cache: Resources<String> = Resources::new();
    let h = handle(cache.get_with("a.ttf", font("one")));
    let weak: WeakResource = Resource::downgrade(&h);
    let strong = weak.upgrade(&mut cache).expect("live");
    assert_eq!(strong.instance(), h.instance());
    assert_eq!(cache.release(h), None);
    assert_eq!(cache.release(strong), Some("one".to_string()));
    assert!(weak.upgrade(&mut cache).is_none());
    let other = handle(cache.get_with("a.ttf", font("two")));
    assert!(weak.upgrade(&mut cache).is_none());
    assert_eq!(other.instance(), 1);
}

#[test]
fn payload_is_gone_with_the_instance() {
    let mut cache: Resources<String> = Resources::new();
    let h = handle(cache.get_with("a.ttf", font("one")));
    let weak = Resource::downgrade(&h);
    let copy = weak.upgrade(&mut cache).expect("live");
    assert_eq!(copy.try_as_glyphs(&cache).map(|p| p.as_str()), Some("one"));
    assert_eq!(cache.release(h), None);
    assert_eq!(cache.release(copy), Some("one".to_string()));
    let stale = handle(cache.get_with("b.ttf", font("two")));
    assert_eq!(stale.try_as_glyphs(&cache).map(|p| p.as_str()), Some("two"));
}

#[test]
fn release_of_an_unknown_handle_changes_nothing() {
    let mut a: Resources<String> = Resources::new();
    let mut b: Resources<String> = Resources::new();
    let h = handle(a.get_with("a.ttf", font("one")));
    assert_eq!(b.release(h), None);
    assert_eq!(b.loads(), 0);
    assert!(a.try_get("a.ttf").is_some());
}

#[test]
fn identifiers_are_told_apart() {
    let mut cache: Resources<String> = Resources::new();
    let a = handle(cache.get_with("a.ttf", font("a")));
    let b = handle(cache.get_with("b.ttf", font("b")));
    let aa = handle(cache.get_with("dir/a.ttf", font("dir a")));
    assert_eq!(a.instance(), 0);
    assert_eq!(b.instance(), 1);
    assert_eq!(aa.instance(), 2);
    assert_eq!(cache.try_get("b.ttf").expect("held").instance(), 1);
    assert_eq!(cache.try_get("a.ttf").expect("held").instance(), 0);
    assert_eq!(cache.try_get("dir/a.ttf").expect("held").instance(), 2);
}
