use lemmy_db_schema::source::{Person, PersonFollowerForm, PersonInsertForm, PersonUpdateForm};
use lemmy_db_schema::store::PersonStore;

#[test]
fn test_crud() {
    let mut store = PersonStore::new();
    let inserted_instance = store.read_or_create_instance("my_domain.tld");

    let new_person = PersonInsertForm::test_form(inserted_instance.id, "holly");

    let inserted_person = store.create(&new_person).unwrap();

    let expected_person = Person {
        id: inserted_person.id,
        name: "holly".into(),
        display_name: None,
        avatar: None,
        banner: None,
        banned: false,
        deleted: false,
        published: inserted_person.published,
        updated: None,
        ap_id: inserted_person.ap_id.clone(),
        bio: None,
        local: true,
        bot_account: false,
        private_key: None,
        public_key: "pubkey".to_owned(),
        last_refreshed_at: inserted_person.published,
        inbox_url: inserted_person.inbox_url.clone(),
        matrix_user_id: None,
        ban_expires: None,
        instance_id: inserted_instance.id,
        post_count: 0,
        post_score: 0,
        comment_count: 0,
        comment_score: 0,
    };

    let read_person = store.read(inserted_person.id).unwrap();

    let update_person_form = PersonUpdateForm {
        ap_id: Some(inserted_person.ap_id.clone()),
        ..Default::default()
    };
    let updated_person = store.update(inserted_person.id, &update_person_form).unwrap();

    let num_deleted = store.delete(inserted_person.id);

    assert_eq!(expected_person, read_person);
    assert_eq!(expected_person, inserted_person);
    assert_eq!(expected_person, updated_person);
    assert_eq!(1, num_deleted);
}

#[test]
fn follow() {
    let mut store = PersonStore::new();
    let inserted_instance = store.read_or_create_instance("my_domain.tld");

    let person_form_1 = PersonInsertForm::test_form(inserted_instance.id, "erich");
    let person_1 = store.create(&person_form_1).unwrap();
    let person_form_2 = PersonInsertForm::test_form(inserted_instance.id, "michele");
    let person_2 = store.create(&person_form_2).unwrap();

    let follow_form = PersonFollowerForm {
        person_id: person_1.id,
        follower_id: person_2.id,
        pending: false,
    };
    let person_follower = store.follow(&follow_form).unwrap();
    assert_eq!(person_1.id, person_follower.person_id);
    assert_eq!(person_2.id, person_follower.follower_id);
    assert!(!person_follower.pending);

    let followers = store.list_followers(person_1.id);
    assert_eq!(vec![person_2], followers);

    let unfollow = store.unfollow(&follow_form);
    assert_eq!(1, unfollow);
}
