use termi_talk::conversation::{Conversation, Role, CONTEXT_BUDGET};

#[test]
fn conversation_starts_with_the_directive() {
    let c = Conversation::new("be brief".to_string(), CONTEXT_BUDGET);
    assert_eq!(c.len(), 1);
    assert_eq!(c.running_length(), 8);
    assert_eq!(c.budget(), 1000);
    let msgs = c.snapshot_for_request();
    assert_eq!(msgs[0].role, Role::System);
    assert_eq!(msgs[0].content, "be brief");
}

#[test]
fn conversation_counts_scalar_values() {
    let mut c = Conversation::new("sys".to_string(), 100);
    c.append_user("héllo".to_string());
    assert_eq!(c.running_length(), 8);
}

#[test]
fn assistant_text_is_stored_sanitized() {
    let mut c = Conversation::new("sys".to_string(), 100);
    c.append_user("Hi".to_string());
    let shown = c.append_assistant("Hello there!".to_string());
    assert_eq!(shown, "Hello there!");
    let msgs = c.snapshot_for_request();
    assert_eq!(msgs.len(), 3);
    assert_eq!(msgs[1].role, Role::User);
    assert_eq!(msgs[1].content, "Hi");
    assert_eq!(msgs[2].role, Role::Assistant);
    assert_eq!(msgs[2].content, "Hellothere");
    assert_eq!(c.running_length(), 3 + 2 + 10);
}

#[test]
fn sanitizing_keeps_non_ascii_letters_and_digits() {
    let mut c = Conversation::new("sys".to_string(), 100);
    c.append_user("q".to_string());
    c.append_assistant("héllo, wörld: 42 ½!".to_string());
    let msgs = c.snapshot_for_request();
    assert_eq!(msgs[2].content, "héllowörld42½");
}

#[test]
fn pruning_drops_the_pair_that_crosses_the_budget() {
    let mut c = Conversation::new("sys".to_string(), 10);
    assert!(c.running_length() <= c.budget());
    c.append_user("hello world".to_string());
    c.append_assistant("ok!".to_string());
    assert_eq!(c.running_length(), 16);
    c.enforce_budget();
    assert_eq!(c.len(), 1);
    assert_eq!(c.running_length(), 3);
    assert!(c.running_length() <= c.budget());
}

#[test]
fn pruning_drops_oldest_exchanges_first() {
    let mut c = Conversation::new("sys".to_string(), 20);
    c.append_user("abcde".to_string());
    c.append_assistant("fghij".to_string());
    c.enforce_budget();
    assert_eq!(c.len(), 3);
    assert_eq!(c.running_length(), 13);
    c.append_user("0123456789".to_string());
    c.append_assistant("x".to_string());
    assert_eq!(c.running_length(), 24);
    c.enforce_budget();
    assert_eq!(c.len(), 3);
    assert_eq!(c.running_length(), 14);
    let msgs = c.snapshot_for_request();
    assert_eq!(msgs[0].role, Role::System);
    assert_eq!(msgs[1].content, "0123456789");
    assert_eq!(msgs[2].content, "x");
}

#[test]
fn pruning_stops_at_the_directive() {
    let mut c = Conversation::new("a long system directive".to_string(), 5);
    c.append_user("hi".to_string());
    c.append_assistant("yo".to_string());
    c.enforce_budget();
    assert_eq!(c.len(), 1);
    assert_eq!(c.running_length(), 23);
}

#[test]
fn pruning_never_splits_a_trailing_message() {
    let mut c = Conversation::new("sys".to_string(), 3);
    c.append_user("a question that is far too long".to_string());
    c.enforce_budget();
    assert_eq!(c.len(), 2);
}

#[test]
fn role_names() {
    assert_eq!(Role::System.as_str(), "system");
    assert_eq!(Role::User.as_str(), "user");
    assert_eq!(Role::Assistant.as_str(), "assistant");
}
