use blog_store::post::Post;
use blog_store::store::PostError;
use blog_store::store::PostStore;

fn seed(store: &mut PostStore) {
    store.insert_post(
        "New Title".to_string(),
        "Mon Jan  1 2024".to_string(),
        "New blog post about x".to_string(),
        "We were talking about".to_string(),
    );
}

#[test]
fn new_store_is_empty() {
    let store = PostStore::new();
    assert_eq!(store.get_posts().len(), 0);
}

#[test]
fn insert_then_list_includes_post_once() {
    let mut store = PostStore::new();
    seed(&mut store);
    let posts = store.get_posts();
    let matching: Vec<&Post> = posts.iter().filter(|p| p.id == 1).collect();
    assert_eq!(matching.len(), 1);
    assert_eq!(matching[0].title, "New Title");
    assert_eq!(matching[0].date, "Mon Jan  1 2024");
    assert_eq!(matching[0].desc, "New blog post about x");
    assert_eq!(matching[0].content, "We were talking about");
}

#[test]
fn ids_are_assigned_in_order_from_one() {
    let mut store = PostStore::new();
    store.insert_post("a".to_string(), "d1".to_string(), "s1".to_string(), "c1".to_string());
    store.insert_post("b".to_string(), "d2".to_string(), "s2".to_string(), "c2".to_string());
    store.insert_post("c".to_string(), "d3".to_string(), "s3".to_string(), "c3".to_string());
    let posts = store.get_posts();
    let ids: Vec<u32> = posts.iter().map(|p| p.id).collect();
    assert_eq!(ids, vec![1, 2, 3]);
}

#[test]
fn get_by_valid_id_returns_matching_record() {
    let mut store = PostStore::new();
    store.insert_post("a".to_string(), "d1".to_string(), "s1".to_string(), "c1".to_string());
    store.insert_post("b".to_string(), "d2".to_string(), "s2".to_string(), "c2".to_string());
    let post = store.get_post_by_id(2).unwrap();
    assert_eq!(post.id, 2);
    assert_eq!(post.title, "b");
    assert_eq!(post.date, "d2");
    assert_eq!(post.desc, "s2");
    assert_eq!(post.content, "c2");
}

#[test]
fn get_by_nonexistent_id_reports_not_found() {
    let mut store = PostStore::new();
    seed(&mut store);
    assert_eq!(store.get_post_by_id(2), Err(PostError::NotFound));
    assert_eq!(store.get_post_by_id(0), Err(PostError::NotFound));
    assert_eq!(store.get_post_by_id(u32::MAX), Err(PostError::NotFound));
}

#[test]
fn get_from_empty_store_reports_not_found() {
    let store = PostStore::new();
    assert_eq!(store.get_post_by_id(1), Err(PostError::NotFound));
}

#[test]
fn list_is_stable_across_repeated_calls() {
    let mut store = PostStore::new();
    store.insert_post("a".to_string(), "d1".to_string(), "s1".to_string(), "c1".to_string());
    store.insert_post("b".to_string(), "d2".to_string(), "s2".to_string(), "c2".to_string());
    let first = store.get_posts();
    let second = store.get_posts();
    assert_eq!(first, second);
    let third = store.get_posts();
    assert_eq!(second, third);
}

#[test]
fn list_preserves_insertion_order() {
    let mut store = PostStore::new();
    store.insert_post("first".to_string(), "d".to_string(), "s".to_string(), "c".to_string());
    store.insert_post("second".to_string(), "d".to_string(), "s".to_string(), "c".to_string());
    let posts = store.get_posts();
    assert_eq!(posts[0].title, "first");
    assert_eq!(posts[1].title, "second");
}

#[test]
fn fresh_store_has_a_free_id() {
    let mut store = PostStore::new();
    assert!(store.has_free_id());
    seed(&mut store);
    assert!(store.has_free_id());
}

#[test]
fn cloned_post_keeps_all_fields() {
    let post = Post {
        id: 7,
        title: "t".to_string(),
        date: "d".to_string(),
        desc: "s".to_string(),
        content: "c".to_string(),
    };
    let copy = post.clone();
    assert_eq!(copy, post);
}
