use exercises::blog::{Post, State};

const LUNCH: &str = "I ate a salad for lunch today";

fn draft_with_lunch() -> Post {
    let mut post = Post::new();
    post.add_text(LUNCH);
    post
}

fn under_review() -> Post {
    let mut post = draft_with_lunch();
    post.request_review();
    post
}

fn published() -> Post {
    let mut post = under_review();
    post.approve();
    post.approve();
    post
}

#[test]
fn new_post_is_an_empty_draft() {
    let post = Post::new();
    assert_eq!(post.current_state(), State::Draft);
    assert_eq!(post.visible_content(), "");
}

#[test]
fn text_of_a_draft_is_hidden() {
    let post = draft_with_lunch();
    assert_eq!(post.current_state(), State::Draft);
    assert_eq!(post.visible_content(), "");
}

#[test]
fn request_review_moves_a_draft_to_review() {
    let post = under_review();
    assert_eq!(post.current_state(), State::PendingReview);
    assert_eq!(post.visible_content(), "");
}

#[test]
fn reject_moves_a_review_back_to_draft() {
    let mut post = under_review();
    post.reject();
    assert_eq!(post.current_state(), State::Draft);
    assert_eq!(post.visible_content(), "");
}

#[test]
fn second_approval_publishes() {
    let mut post = under_review();
    post.reject();
    post.request_review();
    assert_eq!(post.current_state(), State::PendingReview);
    assert_eq!(post.visible_content(), "");

    post.approve();
    assert_eq!(post.current_state(), State::PendingReview);
    assert_eq!(post.visible_content(), "");

    post.approve();
    assert_eq!(post.current_state(), State::Published);
    assert_eq!(post.visible_content(), LUNCH);
}

#[test]
fn fragments_are_joined_in_order() {
    let mut post = Post::new();
    post.add_text("one, ");
    post.add_text("two, ");
    post.add_text("three");
    post.request_review();
    post.approve();
    post.approve();
    assert_eq!(post.visible_content(), "one, two, three");
}

#[test]
fn add_text_is_ignored_during_review() {
    let mut post = under_review();
    post.add_text(" and a cookie");
    assert_eq!(post.current_state(), State::PendingReview);
    post.approve();
    post.approve();
    assert_eq!(post.visible_content(), LUNCH);
}

#[test]
fn add_text_is_ignored_once_published() {
    let mut post = published();
    post.add_text(" and a cookie");
    assert_eq!(post.current_state(), State::Published);
    assert_eq!(post.visible_content(), LUNCH);
}

#[test]
fn text_survives_a_rejection_and_can_grow() {
    let mut post = under_review();
    post.reject();
    post.add_text(" and a cookie");
    post.request_review();
    post.approve();
    post.approve();
    assert_eq!(post.visible_content(), "I ate a salad for lunch today and a cookie");
}

#[test]
fn request_review_twice_is_request_review_once() {
    let mut once = draft_with_lunch();
    once.request_review();
    let mut twice = draft_with_lunch();
    twice.request_review();
    twice.request_review();
    assert_eq!(once.current_state(), State::PendingReview);
    assert_eq!(twice.current_state(), State::PendingReview);
    assert_eq!(once.visible_content(), twice.visible_content());

    once.approve();
    twice.approve();
    assert_eq!(once.current_state(), twice.current_state());
    once.approve();
    twice.approve();
    assert_eq!(once.current_state(), State::Published);
    assert_eq!(twice.current_state(), State::Published);
}

#[test]
fn request_review_during_review_keeps_the_approvals() {
    let mut post = under_review();
    post.approve();
    post.request_review();
    assert_eq!(post.current_state(), State::PendingReview);
    post.approve();
    assert_eq!(post.current_state(), State::Published);
}

#[test]
fn a_new_review_starts_without_approvals() {
    let mut post = under_review();
    post.approve();
    post.reject();
    post.request_review();
    post.approve();
    assert_eq!(post.current_state(), State::PendingReview);
    post.approve();
    assert_eq!(post.current_state(), State::Published);
}

#[test]
fn approve_and_reject_leave_a_draft_alone() {
    let mut post = draft_with_lunch();
    post.approve();
    post.approve();
    post.reject();
    assert_eq!(post.current_state(), State::Draft);
    assert_eq!(post.visible_content(), "");
}

#[test]
fn nothing_moves_a_published_post() {
    let mut post = published();
    post.request_review();
    assert_eq!(post.current_state(), State::Published);
    post.reject();
    assert_eq!(post.current_state(), State::Published);
    post.approve();
    assert_eq!(post.current_state(), State::Published);
    assert_eq!(post.visible_content(), LUNCH);
}

#[test]
fn content_shows_exactly_when_published() {
    let mut post = Post::new();
    post.add_text("x");
    assert_eq!(!post.visible_content().is_empty(), post.current_state() == State::Published);
    post.request_review();
    assert_eq!(!post.visible_content().is_empty(), post.current_state() == State::Published);
    post.approve();
    assert_eq!(!post.visible_content().is_empty(), post.current_state() == State::Published);
    post.approve();
    assert_eq!(!post.visible_content().is_empty(), post.current_state() == State::Published);
    assert_eq!(post.visible_content(), "x");
}

#[test]
fn a_post_published_without_text_shows_nothing() {
    let mut post = Post::new();
    post.request_review();
    post.approve();
    post.approve();
    assert_eq!(post.current_state(), State::Published);
    assert_eq!(post.visible_content(), "");
}
