use std::collections::HashMap;

use blog_api::batch::{get_posts_loader, posts_by_author, PostBatcher};
use blog_api::errors::{AppError, AppErrorType};
use blog_api::loader::{LoadStep, Loader, DEFAULT_MAX_BATCH_SIZE};
use blog_api::models::Post;

fn post(id: u128, author_id: u128, title: &str) -> Post {
    Post {
        id,
        author_id,
        slug: format!("slug-{}", id),
        title: title.to_string(),
        description: String::new(),
        body: String::new(),
        created_at: 0,
        updated_at: 0,
    }
}

fn titles(v: &Vec<Post>) -> Vec<String> {
    v.iter().map(|p| p.title.clone()).collect()
}

#[test]
fn coalescing_dedups_keys_into_one_batch() {
    let mut l: Loader<Post> = Loader::new(10);
    assert_eq!(l.load(1), LoadStep::Enrolled { flush_now: false });
    assert_eq!(l.load(2), LoadStep::Enrolled { flush_now: false });
    assert_eq!(l.load(1), LoadStep::Enrolled { flush_now: false });
    let batch = l.take_batch();
    assert_eq!(batch, vec![1, 2]);
    assert!(l.take_batch().is_empty());
}

#[test]
fn window_asks_for_flush_at_max_size() {
    let mut l: Loader<Post> = Loader::new(2);
    assert_eq!(l.load(7), LoadStep::Enrolled { flush_now: false });
    assert_eq!(l.load(8), LoadStep::Enrolled { flush_now: true });
    assert_eq!(l.take_batch(), vec![7, 8]);
    assert_eq!(l.load(9), LoadStep::Enrolled { flush_now: false });
}

#[test]
fn posts_loader_uses_default_batch_size() {
    assert_eq!(DEFAULT_MAX_BATCH_SIZE, 100);
    let mut l = get_posts_loader();
    for k in 0..99u128 {
        assert_eq!(l.load(k), LoadStep::Enrolled { flush_now: false });
    }
    assert_eq!(l.load(99), LoadStep::Enrolled { flush_now: true });
}

#[test]
fn memoized_after_batch_resolves() {
    let mut l: Loader<Post> = Loader::new(10);
    l.load(1);
    let batch = l.take_batch();
    let mut results = HashMap::new();
    results.insert(1u128, Ok(vec![post(10, 1, "a")]));
    let out = l.complete(batch, results);
    assert_eq!(out.len(), 1);
    assert_eq!(out[0].0, 1);
    assert!(out[0].1.is_ok());
    assert_eq!(l.load(1), LoadStep::Cached);
    assert!(l.take_batch().is_empty());
    assert_eq!(titles(l.cached(1).unwrap()), vec!["a".to_string()]);
}

#[test]
fn missing_key_defaults_to_empty() {
    let rows = vec![post(10, 0xA, "a1"), post(11, 0xA, "a2")];
    let mut l = get_posts_loader();
    l.load(0xA);
    l.load(0xB);
    let batch = l.take_batch();
    // the batch function's map holds only the key that has rows
    let mut results = HashMap::new();
    results.insert(0xAu128, Ok(posts_by_author(&rows, 0xA)));
    let out = l.complete(batch, results);
    assert!(out.iter().all(|(_, r)| r.is_ok()));
    assert_eq!(titles(l.cached(0xA).unwrap()), vec!["a1".to_string(), "a2".to_string()]);
    assert!(l.cached(0xB).unwrap().is_empty());
}

#[test]
fn fan_out_groups_rows_by_author() {
    let rows = vec![post(1, 0xA, "a1"), post(2, 0xC, "c1"), post(3, 0xA, "a2")];
    let keys = vec![0xA, 0xB];
    let m = PostBatcher.load(&keys, &Ok(rows));
    assert_eq!(m.len(), 2);
    assert_eq!(titles(m[&0xA].as_ref().unwrap()), vec!["a1".to_string(), "a2".to_string()]);
    assert!(m[&0xB].as_ref().unwrap().is_empty());
    assert!(!m.contains_key(&0xC));
}

#[test]
fn failure_is_shared_and_not_cached() {
    let mut l = get_posts_loader();
    l.load(0xA);
    l.load(0xB);
    let batch = l.take_batch();
    let err = AppError::db("connection reset".to_string());
    let results = PostBatcher.load(&batch, &Err(err));
    let out = l.complete(batch, results);
    assert_eq!(out.len(), 2);
    let e0 = out[0].1.as_ref().unwrap_err();
    let e1 = out[1].1.as_ref().unwrap_err();
    assert_eq!(e0.error_type, AppErrorType::DbError);
    assert_eq!(e0.error_type, e1.error_type);
    assert_eq!(e0.message(), e1.message());
    assert!(l.cached(0xA).is_none());
    assert_eq!(l.failure(0xA).unwrap().cause.as_deref(), Some("connection reset"));
    assert_eq!(l.failure(0xB).unwrap().error_type, AppErrorType::DbError);
    assert_eq!(l.load(0xA), LoadStep::Enrolled { flush_now: false });
    assert!(l.failure(0xA).is_none());
    assert!(l.failure(0xB).is_some());
    assert_eq!(l.take_batch(), vec![0xA]);
}

#[test]
fn success_clears_recorded_failure() {
    let mut l: Loader<Post> = Loader::new(10);
    l.load(3);
    let batch = l.take_batch();
    let mut results = HashMap::new();
    results.insert(3u128, Err(AppError::db("down".to_string())));
    l.complete(batch, results);
    assert!(l.failure(3).is_some());
    l.load(3);
    let batch = l.take_batch();
    l.complete(batch, HashMap::new());
    assert!(l.failure(3).is_none());
    assert!(l.cached(3).unwrap().is_empty());
}

#[test]
fn per_key_error_only_hits_that_key() {
    let mut l: Loader<Post> = Loader::new(10);
    l.load(1);
    l.load(2);
    let batch = l.take_batch();
    let mut results = HashMap::new();
    results.insert(1u128, Err(AppError::db("bad row".to_string())));
    results.insert(2u128, Ok(vec![post(5, 2, "b")]));
    let out = l.complete(batch, results);
    assert!(out[0].1.is_err());
    assert!(out[1].1.is_ok());
    assert!(l.cached(1).is_none());
    assert_eq!(l.load(2), LoadStep::Cached);
}

#[test]
fn loaders_do_not_share_cache() {
    let mut first = get_posts_loader();
    first.load(42);
    let batch = first.take_batch();
    let mut results = HashMap::new();
    results.insert(42u128, Ok(vec![post(1, 42, "x")]));
    first.complete(batch, results);
    assert_eq!(first.load(42), LoadStep::Cached);

    let mut second = get_posts_loader();
    assert!(second.cached(42).is_none());
    assert_eq!(second.load(42), LoadStep::Enrolled { flush_now: false });
}
