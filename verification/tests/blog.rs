use workbook::blog_post::Post;
use workbook::blog_post::State;

#[test]
fn fresh_post_is_empty_draft() {
    let post = Post::new();
    assert_eq!(post.state(), State::Draft);
    assert_eq!("", post.content());
}

#[test]
fn full_review_scenario() {
    let mut post = Post::new();
    assert_eq!(post.state(), State::Draft);
    assert_eq!("", post.content());

    post.add_text("I ate a salad for lunch today.");
    assert_eq!(post.state(), State::Draft);
    assert_eq!("", post.content());

    post.request_review();
    assert_eq!(post.state(), State::PendingReview);
    assert_eq!("", post.content());

    post.approve();
    assert_eq!(post.state(), State::Published);
    assert_eq!("I ate a salad for lunch today.", post.content());
}

#[test]
fn appended_text_stays_hidden_before_publication() {
    let mut post = Post::new();
    post.add_text("first");
    post.add_text(" second");
    assert_eq!("", post.content());
    post.request_review();
    post.add_text(" third");
    assert_eq!("", post.content());
    post.approve();
    assert_eq!("first second third", post.content());
}

#[test]
fn approve_cannot_skip_review() {
    let mut post = Post::new();
    post.add_text("secret draft");
    post.approve();
    assert_eq!(post.state(), State::Draft);
    assert_eq!("", post.content());
}

#[test]
fn request_review_twice_is_idempotent() {
    let mut post = Post::new();
    post.add_text("text");
    post.request_review();
    post.request_review();
    assert_eq!(post.state(), State::PendingReview);
    assert_eq!("", post.content());
}

#[test]
fn approve_twice_is_idempotent() {
    let mut post = Post::new();
    post.add_text("text");
    post.request_review();
    post.approve();
    post.approve();
    assert_eq!(post.state(), State::Published);
    assert_eq!("text", post.content());
}

#[test]
fn review_on_published_post_changes_nothing() {
    let mut post = Post::new();
    post.add_text("done");
    post.request_review();
    post.approve();
    post.request_review();
    assert_eq!(post.state(), State::Published);
    assert_eq!("done", post.content());
}

#[test]
fn empty_post_can_be_published() {
    let mut post = Post::new();
    post.request_review();
    post.approve();
    assert_eq!(post.state(), State::Published);
    assert_eq!("", post.content());
}
