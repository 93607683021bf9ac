use mqtt_broker::{
    Cluster, MetadataCache, MetadataCacheAction, MetadataCacheType, MetadataChangeData, User,
};

fn user(name: &str, password: &str) -> User {
    User { username: name.to_string(), password: password.to_string() }
}

fn change(action: MetadataCacheAction, data_type: MetadataCacheType, value: &str) -> MetadataChangeData {
    MetadataChangeData { action, data_type, value: value.to_string() }
}

#[test]
fn new_cache_is_empty() {
    let cache = MetadataCache::new();
    assert_eq!(cache.user_info.len(), 0);
    assert_eq!(cache.session_info.len(), 0);
    assert_eq!(cache.cluster_info, Cluster {});
}

#[test]
fn set_user_then_lookup() {
    let mut cache = MetadataCache::new();
    cache.set_user(user("alice", "pw1"));
    assert_eq!(cache.user_info.len(), 1);
    assert_eq!(cache.user_info.get("alice"), Some(&user("alice", "pw1")));
    assert!(cache.user_info.get("bob").is_none());
}

#[test]
fn set_user_replaces_same_name() {
    let mut cache = MetadataCache::new();
    cache.set_user(user("alice", "pw1"));
    cache.set_user(user("alice", "pw2"));
    assert_eq!(cache.user_info.len(), 1);
    assert_eq!(cache.user_info.get("alice"), Some(&user("alice", "pw2")));
}

#[test]
fn set_user_twice_same_as_once() {
    let mut once = MetadataCache::new();
    once.set_user(user("alice", "pw1"));
    let mut twice = MetadataCache::new();
    twice.set_user(user("alice", "pw1"));
    twice.set_user(user("alice", "pw1"));
    assert_eq!(once.user_info.len(), twice.user_info.len());
    assert_eq!(once.user_info.get("alice"), twice.user_info.get("alice"));
}

#[test]
fn set_user_keeps_other_names() {
    let mut cache = MetadataCache::new();
    cache.set_user(user("alice", "pw1"));
    cache.set_user(user("bob", "pw2"));
    assert_eq!(cache.user_info.len(), 2);
    assert_eq!(cache.user_info.get("alice"), Some(&user("alice", "pw1")));
    assert_eq!(cache.user_info.get("bob"), Some(&user("bob", "pw2")));
}

#[test]
fn distinct_users_in_either_order() {
    let mut ab = MetadataCache::new();
    ab.set_user(user("alice", "a"));
    ab.set_user(user("bob", "b"));
    let mut ba = MetadataCache::new();
    ba.set_user(user("bob", "b"));
    ba.set_user(user("alice", "a"));
    assert_eq!(ab.user_info.len(), ba.user_info.len());
    assert_eq!(ab.user_info.get("alice"), ba.user_info.get("alice"));
    assert_eq!(ab.user_info.get("bob"), ba.user_info.get("bob"));
}

#[test]
fn del_user_drops_by_name() {
    let mut cache = MetadataCache::new();
    cache.set_user(user("alice", "pw1"));
    cache.set_user(user("bob", "pw2"));
    // Only the name of the given user matters.
    cache.del_user(user("alice", "other"));
    assert_eq!(cache.user_info.len(), 1);
    assert!(cache.user_info.get("alice").is_none());
    assert_eq!(cache.user_info.get("bob"), Some(&user("bob", "pw2")));
}

#[test]
fn del_user_undoes_set_user() {
    let mut cache = MetadataCache::new();
    cache.set_user(user("alice", "pw1"));
    cache.del_user(user("alice", "pw1"));
    assert_eq!(cache.user_info.len(), 0);
    assert!(cache.user_info.get("alice").is_none());
}

#[test]
fn del_absent_user_is_noop() {
    let mut cache = MetadataCache::new();
    cache.set_user(user("alice", "pw1"));
    cache.del_user(user("carol", "x"));
    cache.del_user(user("carol", "x"));
    assert_eq!(cache.user_info.len(), 1);
    assert_eq!(cache.user_info.get("alice"), Some(&user("alice", "pw1")));
}

#[test]
fn carries_user_only_for_user_changes() {
    assert!(change(MetadataCacheAction::Put, MetadataCacheType::User, "").carries_user());
    assert!(change(MetadataCacheAction::Del, MetadataCacheType::User, "").carries_user());
    assert!(!change(MetadataCacheAction::Put, MetadataCacheType::Topic, "").carries_user());
    assert!(!change(MetadataCacheAction::Del, MetadataCacheType::Cluster, "").carries_user());
}

#[test]
fn apply_user_put_stores_user() {
    let mut cache = MetadataCache::new();
    let data = change(MetadataCacheAction::Put, MetadataCacheType::User, "{}");
    cache.apply(data, Some(user("alice", "pw1")));
    assert_eq!(cache.user_info.len(), 1);
    assert_eq!(cache.user_info.get("alice"), Some(&user("alice", "pw1")));
}

#[test]
fn apply_user_del_drops_user() {
    let mut cache = MetadataCache::new();
    cache.set_user(user("alice", "pw1"));
    cache.set_user(user("bob", "pw2"));
    let data = change(MetadataCacheAction::Del, MetadataCacheType::User, "{}");
    cache.apply(data, Some(user("alice", "pw1")));
    assert_eq!(cache.user_info.len(), 1);
    assert!(cache.user_info.get("alice").is_none());
    assert!(cache.user_info.get("bob").is_some());
}

#[test]
fn apply_topic_and_cluster_changes_are_noops() {
    let mut cache = MetadataCache::new();
    cache.set_user(user("alice", "pw1"));
    for data_type in [MetadataCacheType::Topic, MetadataCacheType::Cluster] {
        for action in [MetadataCacheAction::Put, MetadataCacheAction::Del] {
            cache.apply(change(action, data_type, "{}"), None);
            cache.apply(change(action, data_type, "{}"), Some(user("alice", "zzz")));
        }
    }
    assert_eq!(cache.user_info.len(), 1);
    assert_eq!(cache.user_info.get("alice"), Some(&user("alice", "pw1")));
    assert_eq!(cache.session_info.len(), 0);
    assert_eq!(cache.cluster_info, Cluster {});
}
