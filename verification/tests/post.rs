use event_sourcing::post::{Post, PostCommand, PostData, PostEvent};
use event_sourcing::{replay, Aggregate, AggregateState, Event};

fn title_of(event: &PostEvent) -> &str {
    match event {
        PostEvent::TitleUpdated(title) => title.as_str(),
    }
}

#[test]
fn a_new_post_starts_at_generation_one() {
    let post = PostData::new("title", None);
    assert_eq!(post.title(), "title");
    assert_eq!(post.body(), None);
    assert_eq!(post.generation(), 1);
}

#[test]
fn a_new_post_keeps_its_body() {
    let post = PostData::new("", Some(String::from("first paragraph")));
    assert_eq!(post.title(), "");
    assert_eq!(post.body(), Some("first paragraph"));
    assert_eq!(post.generation(), 1);
}

#[test]
fn updating_the_title_yields_one_event_and_the_next_state() {
    let post = PostData::new("title", None);
    let cmd = PostCommand::UpdateTitle(String::from("the new title"));

    let mut events = Post::handle_command(&post, cmd).unwrap();
    assert_eq!(events.len(), 1);
    assert_eq!(title_of(&events[0]), "the new title");

    let next = Post::apply_event(&post, events.remove(0)).unwrap();
    assert_eq!(next.title(), "the new title");
    assert_eq!(next.body(), None);
    assert_eq!(next.generation(), 2);
}

#[test]
fn applying_an_event_advances_the_generation_by_one() {
    let mut post = PostData::new("a", Some(String::from("body")));
    for (step, title) in ["b", "c", "d", "e"].iter().enumerate() {
        let before = post.generation();
        assert_eq!(before, step as u64 + 1);
        post = Post::apply_event(&post, PostEvent::TitleUpdated(String::from(*title))).unwrap();
        assert_eq!(post.generation(), before + 1);
        assert_eq!(post.title(), *title);
        assert_eq!(post.body(), Some("body"));
    }
    assert_eq!(post.generation(), 5);
}

#[test]
fn deciding_the_same_command_again_yields_the_same_events() {
    let post = PostData::new("title", Some(String::from("body")));
    let first = Post::handle_command(&post, PostCommand::UpdateTitle(String::from("x"))).unwrap();
    let second = Post::handle_command(&post, PostCommand::UpdateTitle(String::from("x"))).unwrap();
    assert_eq!(first.len(), 1);
    assert_eq!(second.len(), 1);
    assert_eq!(title_of(&first[0]), "x");
    assert_eq!(title_of(&second[0]), "x");
    assert_eq!(first[0].event_type(), second[0].event_type());
}

#[test]
fn applying_the_same_event_again_yields_the_same_state() {
    let post = PostData::new("title", Some(String::from("body")));
    let first = Post::apply_event(&post, PostEvent::TitleUpdated(String::from("x"))).unwrap();
    let second = Post::apply_event(&post, PostEvent::TitleUpdated(String::from("x"))).unwrap();
    assert_eq!(first.title(), second.title());
    assert_eq!(first.body(), second.body());
    assert_eq!(first.generation(), second.generation());
    assert_eq!(format!("{:?}", first), format!("{:?}", second));
}

#[test]
fn the_operations_leave_the_state_they_read_as_it_was() {
    let post = PostData::new("title", Some(String::from("body")));
    let shown = format!("{:?}", post);

    let events = Post::handle_command(&post, PostCommand::UpdateTitle(String::from("x"))).unwrap();
    assert_eq!(post.title(), "title");
    assert_eq!(post.body(), Some("body"));
    assert_eq!(post.generation(), 1);
    assert_eq!(format!("{:?}", post), shown);

    for event in events {
        let next = Post::apply_event(&post, event).unwrap();
        assert_eq!(next.generation(), 2);
    }
    assert_eq!(post.title(), "title");
    assert_eq!(post.body(), Some("body"));
    assert_eq!(post.generation(), 1);
    assert_eq!(format!("{:?}", post), shown);
}

#[test]
fn decided_events_replay_without_failure() {
    let post = PostData::new("title", None);
    let events = Post::handle_command(
        &post,
        PostCommand::UpdateTitle(String::from("the new title")),
    ).unwrap();
    let count = events.len() as u64;
    let last = replay::<Post>(post, events).unwrap();
    assert_eq!(last.title(), "the new title");
    assert_eq!(last.body(), None);
    assert_eq!(last.generation(), 1 + count);
}

#[test]
fn an_event_applied_twice_to_one_state_gives_equal_states() {
    let post = PostData::new("title", Some(String::from("body")));
    let event = PostEvent::TitleUpdated(String::from("again"));
    let first = Post::apply_event(&post, event.clone()).unwrap();
    let second = Post::apply_event(&post, event).unwrap();
    assert_eq!(first.generation(), post.generation() + 1);
    assert_eq!(second.generation(), post.generation() + 1);
    assert_eq!(first.title(), "again");
    assert_eq!(second.title(), "again");
    assert_eq!(first.body(), Some("body"));
    assert_eq!(second.body(), Some("body"));
}

#[test]
fn replaying_no_events_returns_the_state() {
    let post = PostData::new("title", Some(String::from("body")));
    let last = replay::<Post>(post, Vec::new()).unwrap();
    assert_eq!(last.title(), "title");
    assert_eq!(last.body(), Some("body"));
    assert_eq!(last.generation(), 1);
}

#[test]
fn replaying_applies_the_events_in_order() {
    let post = PostData::new("zero", Some(String::from("body")));
    let events = vec![
        PostEvent::TitleUpdated(String::from("one")),
        PostEvent::TitleUpdated(String::from("two")),
        PostEvent::TitleUpdated(String::from("three")),
    ];
    let last = replay::<Post>(post, events).unwrap();
    assert_eq!(last.title(), "three");
    assert_eq!(last.body(), Some("body"));
    assert_eq!(last.generation(), 4);
}

#[test]
fn replaying_one_event_is_applying_it() {
    let post = PostData::new("title", None);
    let applied = Post::apply_event(&post, PostEvent::TitleUpdated(String::from("x"))).unwrap();
    let replayed = replay::<Post>(post, vec![PostEvent::TitleUpdated(String::from("x"))]).unwrap();
    assert_eq!(applied.title(), replayed.title());
    assert_eq!(applied.body(), replayed.body());
    assert_eq!(applied.generation(), replayed.generation());
}

#[test]
fn the_event_type_names_the_variant_and_not_the_payload() {
    let short = PostEvent::TitleUpdated(String::from("a"));
    let long = PostEvent::TitleUpdated(String::from("a much longer title"));
    assert_eq!(short.event_type(), "title_updated");
    assert_eq!(long.event_type(), "title_updated");
}

#[test]
fn a_cloned_event_carries_the_same_title() {
    let event = PostEvent::TitleUpdated(String::from("copy me"));
    let copy = event.clone();
    assert_eq!(title_of(&event), "copy me");
    assert_eq!(title_of(&copy), "copy me");
}

#[test]
fn an_empty_title_is_a_title() {
    let post = PostData::new("title", None);
    let events = Post::handle_command(&post, PostCommand::UpdateTitle(String::new())).unwrap();
    assert_eq!(events.len(), 1);
    let last = replay::<Post>(post, events).unwrap();
    assert_eq!(last.title(), "");
    assert_eq!(last.generation(), 2);
}
