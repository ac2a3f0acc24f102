use authguard::policy::Policy;
use authguard::services::RedisService;
use authguard::services::redis::RedisService as CountingRedisService;
use std::sync::Arc;

#[test]
fn store_urls_are_checked() {
    assert!(RedisService::open("redis://127.0.0.1:6379/").is_some());
    assert!(RedisService::open("redis+unix:///tmp/redis.sock").is_some());
    assert!(RedisService::open("http://127.0.0.1:6379/").is_none());
    assert!(RedisService::open("not a url").is_none());
    assert!(CountingRedisService::open("redis://localhost/").is_some());
    assert!(CountingRedisService::open("mysql://localhost/").is_none());
}

#[test]
fn policy_keeps_its_store() {
    let store = Arc::new(RedisService::new("redis://127.0.0.1/"));
    let policy = Policy::new(store.clone());
    assert!(Arc::ptr_eq(policy.redis(), &store));
    let _counting = CountingRedisService::new("redis://127.0.0.1/");
}
