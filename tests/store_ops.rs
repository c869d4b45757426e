use lemmy_db_schema::error::PersonError;
use lemmy_db_schema::source::{
    Comment, Community, FollowState, PersonFollowerForm, PersonInsertForm, PersonUpdateForm, Post,
};
use lemmy_db_schema::store::PersonStore;

fn store_with(names: &[&str]) -> (PersonStore, Vec<i32>) {
    let mut store = PersonStore::new();
    let instance = store.read_or_create_instance("my_domain.tld");
    let mut ids = Vec::new();
    for name in names {
        let p = store
            .create(&PersonInsertForm::test_form(instance.id, name))
            .unwrap();
        ids.push(p.id);
    }
    (store, ids)
}

#[test]
fn create_then_read_gives_the_inserted_row() {
    let (mut store, _) = store_with(&["anna"]);
    let form = PersonInsertForm::test_form(1, "bert");
    let created = store.create_at(&form, 1_000).unwrap();
    assert_eq!(created.published, 1_000);
    assert_eq!(created.last_refreshed_at, 1_000);
    assert_eq!(created.ap_id, "http://changeme.invalid/u/bert");
    assert_eq!(created.inbox_url, "http://changeme.invalid/u/bert/inbox");
    assert_eq!(created.id, 2);
    assert!(!created.deleted);
    assert_eq!(store.read(created.id), Ok(created));
}

#[test]
fn create_with_taken_ap_id_is_a_unique_violation() {
    let (mut store, _) = store_with(&["anna"]);
    let again = PersonInsertForm::test_form(1, "anna");
    assert_eq!(store.create(&again), Err(PersonError::UniqueViolation));
    assert_eq!(store.persons.len(), 1);
}

#[test]
fn read_of_missing_id_is_not_found() {
    let store = PersonStore::new();
    assert_eq!(store.read(1), Err(PersonError::NotFound));
}

#[test]
fn delete_account_scrubs_and_hides_the_row() {
    let (mut store, ids) = store_with(&["holly"]);
    let id = ids[0];
    store.add_local_user(id, Some("holly@example.com".to_string()));
    let mut change = PersonUpdateForm::default();
    change.display_name = Some(Some("Holly".to_string()));
    change.bio = Some(Some("hello".to_string()));
    change.avatar = Some(Some("a.png".to_string()));
    store.update(id, &change).unwrap();

    let deleted = store.delete_account_at(id, 77).unwrap();
    assert!(deleted.deleted);
    assert_eq!(deleted.updated, Some(77));
    assert_eq!(deleted.display_name, None);
    assert_eq!(deleted.bio, None);
    assert_eq!(deleted.avatar, None);
    assert_eq!(store.local_users[0].email, None);

    assert_eq!(store.read(id), Err(PersonError::NotFound));
    assert_eq!(store.read_from_name("holly", false), None);
    let found = store.read_from_name("HOLLY", true).unwrap();
    assert_eq!(found, deleted);
    assert_eq!(store.read_from_apub_id("http://changeme.invalid/u/holly"), None);
}

#[test]
fn delete_account_of_missing_id_is_not_found() {
    let mut store = PersonStore::new();
    assert_eq!(store.delete_account(3), Err(PersonError::NotFound));
}

#[test]
fn follow_twice_keeps_one_edge() {
    let (mut store, ids) = store_with(&["a", "b"]);
    let form = PersonFollowerForm { person_id: ids[0], follower_id: ids[1], pending: true };
    store.follow_at(&form, 10).unwrap();
    let second = store.follow_at(&form, 20).unwrap();
    assert_eq!(second.published, 20);
    assert!(second.pending);
    assert_eq!(store.edges.len(), 1);
    assert_eq!(store.edges[0].state, FollowState::Pending { followed: 20 });
}

#[test]
fn follow_of_missing_person_is_not_found() {
    let (mut store, ids) = store_with(&["a"]);
    let form = PersonFollowerForm { person_id: ids[0], follower_id: 99, pending: false };
    assert_eq!(store.follow(&form), Err(PersonError::NotFound));
    assert!(store.edges.is_empty());
}

#[test]
fn follow_accepted_is_never_found() {
    let store = PersonStore::new();
    assert_eq!(store.follow_accepted(1, 2), Err(PersonError::NotFound));
}

#[test]
fn unfollow_without_edge_counts_zero() {
    let (mut store, ids) = store_with(&["a", "b"]);
    let form = PersonFollowerForm { person_id: ids[0], follower_id: ids[1], pending: false };
    assert_eq!(store.unfollow(&form), 0);
    assert!(store.edges.is_empty());
}

#[test]
fn follow_list_unfollow_scenario() {
    let (mut store, ids) = store_with(&["a", "b"]);
    let b = store.read(ids[1]).unwrap();
    let form = PersonFollowerForm { person_id: ids[0], follower_id: ids[1], pending: false };
    store.follow(&form).unwrap();
    assert_eq!(store.list_followers(ids[0]), vec![b]);
    assert!(store.list_followers(ids[1]).is_empty());
    assert_eq!(store.unfollow(&form), 1);
    assert!(store.list_followers(ids[0]).is_empty());
    assert_eq!(store.unfollow(&form), 0);
    assert_eq!(store.edges.len(), 1);
    assert_eq!(store.edges[0].state, FollowState::NotFollowing);
}

#[test]
fn pending_follower_is_listed() {
    let (mut store, ids) = store_with(&["a", "b", "c"]);
    let c = store.read(ids[2]).unwrap();
    let form = PersonFollowerForm { person_id: ids[0], follower_id: ids[2], pending: true };
    store.follow(&form).unwrap();
    assert_eq!(store.list_followers(ids[0]), vec![c]);
}

#[test]
fn username_check_is_case_insensitive() {
    let (mut store, _) = store_with(&["bob"]);
    assert_eq!(store.check_username_taken("Alice"), Ok(()));
    store
        .create(&PersonInsertForm::test_form(1, "alice"))
        .unwrap();
    assert_eq!(
        store.check_username_taken("Alice"),
        Err(PersonError::UsernameAlreadyExists)
    );
    assert_eq!(
        store.check_username_taken("ALICE"),
        Err(PersonError::UsernameAlreadyExists)
    );
}

#[test]
fn username_of_remote_person_is_free() {
    let mut store = PersonStore::new();
    let mut form = PersonInsertForm::test_form(1, "carol");
    form.local = Some(false);
    form.ap_id = Some("https://elsewhere.tld/u/carol".to_string());
    store.create(&form).unwrap();
    assert_eq!(store.check_username_taken("Carol"), Ok(()));
}

#[test]
fn upsert_twice_overwrites_display_name() {
    let mut store = PersonStore::new();
    let mut first = PersonInsertForm::test_form(1, "dora");
    first.ap_id = Some("https://remote.tld/u/dora".to_string());
    first.display_name = Some("Dora".to_string());
    first.bio = Some("first bio".to_string());
    let one = store.upsert_at(&first, 5).unwrap();
    let mut second = PersonInsertForm::test_form(1, "dora");
    second.ap_id = Some("https://remote.tld/u/dora".to_string());
    second.display_name = Some("Dora the Second".to_string());
    let two = store.upsert_at(&second, 9).unwrap();
    assert_eq!(store.persons.len(), 1);
    assert_eq!(one.id, two.id);
    assert_eq!(two.display_name, Some("Dora the Second".to_string()));
    assert_eq!(two.bio, Some("first bio".to_string()));
    assert_eq!(two.published, 5);
    assert_eq!(store.persons[0], two);
}

#[test]
fn update_of_missing_id_is_not_found() {
    let mut store = PersonStore::new();
    assert_eq!(
        store.update(1, &PersonUpdateForm::default()),
        Err(PersonError::NotFound)
    );
}

#[test]
fn update_to_taken_ap_id_is_a_unique_violation() {
    let (mut store, ids) = store_with(&["a", "b"]);
    let mut change = PersonUpdateForm::default();
    change.ap_id = Some("http://changeme.invalid/u/a".to_string());
    assert_eq!(store.update(ids[1], &change), Err(PersonError::UniqueViolation));
    change.bot_account = Some(true);
    change.ap_id = None;
    assert!(store.update(ids[1], &change).unwrap().bot_account);
}

#[test]
fn lookups_by_ap_id_and_by_domain() {
    let (store, ids) = store_with(&["Erin"]);
    let erin = store.read(ids[0]).unwrap();
    assert_eq!(
        store.read_from_apub_id("http://changeme.invalid/u/Erin"),
        Some(erin.clone())
    );
    assert_eq!(store.read_from_apub_id("http://changeme.invalid/u/erin"), None);
    assert_eq!(
        store.read_from_name_and_domain("ERIN", "My_Domain.TLD"),
        Some(erin)
    );
    assert_eq!(store.read_from_name_and_domain("erin", "other.tld"), None);
}

#[test]
fn hard_delete_removes_edges() {
    let (mut store, ids) = store_with(&["a", "b", "c"]);
    for (t, f) in [(0, 1), (1, 2), (2, 0)] {
        let form = PersonFollowerForm { person_id: ids[t], follower_id: ids[f], pending: false };
        store.follow(&form).unwrap();
    }
    assert_eq!(store.delete(ids[1]), 1);
    assert_eq!(store.delete(ids[1]), 0);
    assert_eq!(store.edges.len(), 1);
    assert_eq!(store.edges[0].target_id, ids[2]);
}

#[test]
fn local_community_ids_are_a_union() {
    let (mut store, ids) = store_with(&["a", "b"]);
    let me = ids[0];
    let other = ids[1];
    store.add_community(Community { id: 1, local: true, deleted: false, removed: false });
    store.add_community(Community { id: 2, local: true, deleted: false, removed: false });
    store.add_community(Community { id: 3, local: false, deleted: false, removed: false });
    store.add_community(Community { id: 4, local: true, deleted: true, removed: false });
    store.add_community(Community { id: 5, local: true, deleted: false, removed: false });
    store.add_post(Post { id: 10, creator_id: me, community_id: 1 });
    store.add_post(Post { id: 11, creator_id: me, community_id: 1 });
    store.add_post(Post { id: 12, creator_id: other, community_id: 2 });
    store.add_post(Post { id: 13, creator_id: me, community_id: 3 });
    store.add_post(Post { id: 14, creator_id: me, community_id: 4 });
    store.add_post(Post { id: 15, creator_id: other, community_id: 5 });
    store.add_comment(Comment { id: 20, creator_id: me, post_id: 12 });
    store.add_comment(Comment { id: 21, creator_id: me, post_id: 10 });
    store.add_comment(Comment { id: 22, creator_id: other, post_id: 15 });
    let mut got = store.list_local_community_ids(me);
    got.sort();
    assert_eq!(got, vec![1, 2]);
    assert!(store.list_local_community_ids(99).is_empty());
}

#[test]
fn local_url_is_parsed() {
    assert_eq!(
        lemmy_db_schema::source::Person::local_url("bob", "HTTPS://Example.COM"),
        Ok("https://example.com/u/bob".to_string())
    );
    assert_eq!(
        lemmy_db_schema::source::Person::local_url("bob", "not a url"),
        Err(PersonError::ConstructionError)
    );
    assert_eq!(
        lemmy_db_schema::profile_url::profile_path("https://x.tld", "eve"),
        "https://x.tld/u/eve"
    );
}

#[test]
fn instances_are_read_or_created() {
    let mut store = PersonStore::new();
    let a = store.read_or_create_instance("a.tld");
    let b = store.read_or_create_instance("b.tld");
    let a2 = store.read_or_create_instance("a.tld");
    assert_eq!(a, a2);
    assert_ne!(a.id, b.id);
    assert_eq!(store.instances.len(), 2);
}
