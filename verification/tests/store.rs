use post_store::post::Post;
use post_store::store::Store;

#[test]
fn empty_store_has_nothing() {
    let s = Store::new();
    assert_eq!(Post::count(&s), 0);
    assert!(Post::all(&s).is_empty());
    assert!(Post::get(&s, 1).is_none());
}

#[test]
fn create_then_get_round_trip() {
    let mut s = Store::new();
    let id = Post::create(&mut s, "Hello".to_string(), "World".to_string());
    assert_eq!(id, 1);
    let p = Post::get(&s, 1).expect("the created post must be found");
    assert_eq!(p.id, 1);
    assert_eq!(p.poster, 0);
    assert_eq!(p.title, "Hello");
    assert_eq!(p.body, "World");
    assert_eq!(Post::count(&s), 1);
}

#[test]
fn two_creates_give_distinct_ids() {
    let mut s = Store::new();
    let first = Post::create(&mut s, "First post".to_string(), "alpha".to_string());
    let second = Post::create(&mut s, "Second post".to_string(), "beta".to_string());
    assert_ne!(first, second);

    let posts = Post::all(&s);
    assert_eq!(posts.len(), 2);
    assert_eq!(posts[0].id, first);
    assert_eq!(posts[0].title, "First post");
    assert_eq!(posts[0].body, "alpha");
    assert_eq!(posts[0].poster, 0);
    assert_eq!(posts[1].id, second);
    assert_eq!(posts[1].title, "Second post");
    assert_eq!(posts[1].body, "beta");
    assert_eq!(posts[1].poster, 0);
}

#[test]
fn count_tracks_number_of_creates() {
    let mut s = Store::new();
    for n in 1..=5_i64 {
        Post::create(&mut s, format!("title {}", n), format!("body {}", n));
        assert_eq!(Post::count(&s), n);
    }
}

#[test]
fn all_returns_every_create_intact() {
    let mut s = Store::new();
    let pairs = [("a", "1"), ("b", "2"), ("c", "3")];
    for (title, body) in pairs {
        Post::create(&mut s, title.to_string(), body.to_string());
    }
    let posts = Post::all(&s);
    assert_eq!(posts.len(), pairs.len());
    for (i, p) in posts.iter().enumerate() {
        assert_eq!(p.title, pairs[i].0);
        assert_eq!(p.body, pairs[i].1);
        assert_eq!(p.poster, 0);
        assert_eq!(p.id, i as i64 + 1);
    }
}

#[test]
fn get_of_never_created_id_is_absent() {
    let mut s = Store::new();
    Post::create(&mut s, "only".to_string(), "one".to_string());
    assert!(Post::get(&s, 2).is_none());
    assert!(Post::get(&s, 0).is_none());
    assert!(Post::get(&s, -1).is_none());
    assert!(Post::get(&s, i64::MAX).is_none());
}

#[test]
fn get_each_of_several_posts() {
    let mut s = Store::new();
    let a = Post::create(&mut s, "A".to_string(), "aa".to_string());
    let b = Post::create(&mut s, "B".to_string(), "bb".to_string());
    let c = Post::create(&mut s, "C".to_string(), "cc".to_string());

    let pb = Post::get(&s, b).unwrap();
    assert_eq!(pb.title, "B");
    assert_eq!(pb.body, "bb");
    let pa = Post::get(&s, a).unwrap();
    assert_eq!(pa.title, "A");
    let pc = Post::get(&s, c).unwrap();
    assert_eq!(pc.body, "cc");
}

#[test]
fn empty_title_and_body_are_allowed() {
    let mut s = Store::new();
    let id = Post::create(&mut s, String::new(), String::new());
    let p = Post::get(&s, id).unwrap();
    assert_eq!(p.title, "");
    assert_eq!(p.body, "");
    assert_eq!(Post::count(&s), 1);
}

#[test]
fn clone_keeps_every_field() {
    let mut s = Store::new();
    Post::create(&mut s, "keep".to_string(), "me".to_string());
    let p = Post::get(&s, 1).unwrap();
    let q = p.clone();
    assert_eq!(q.id, p.id);
    assert_eq!(q.poster, p.poster);
    assert_eq!(q.title, p.title);
    assert_eq!(q.body, p.body);
}
