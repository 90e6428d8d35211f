use termi_talk::conversation::Role;
use termi_talk::session::{Control, EngineReply, Key, Mode, Session, Speaker, TurnError};

fn type_text(s: &mut Session, text: &str) {
    for c in text.chars() {
        assert_eq!(s.handle_key(Key::Char(c)), Control::Continue);
    }
}

#[test]
fn full_turn_updates_transcript_and_conversation() {
    let mut s = Session::new("sys".to_string(), 1000);
    assert_eq!(s.mode(), Mode::Browsing);
    s.handle_key(Key::Char('e'));
    assert_eq!(s.mode(), Mode::Editing);
    type_text(&mut s, "Hi");
    s.handle_key(Key::Enter);
    assert_eq!(s.mode(), Mode::Awaiting);
    let request = s.begin_turn();
    assert_eq!(request.len(), 2);
    assert_eq!(request[1].role, Role::User);
    assert_eq!(request[1].content, "Hi");
    let r = s.finish_turn(EngineReply::Done(Some("Hello there!".to_string())));
    assert_eq!(r, Ok(()));
    assert_eq!(s.mode(), Mode::Editing);
    assert_eq!(s.editor().snapshot(), "");
    assert_eq!(s.editor().cursor(), 0);
    let t = s.transcript();
    assert_eq!(t.len(), 2);
    assert_eq!(format!("{}: {}", t[0].speaker.label(), t[0].text), "Me: Hi");
    assert_eq!(format!("{}: {}", t[1].speaker.label(), t[1].text), "QS: Hello there!");
    let msgs = s.conversation().snapshot_for_request();
    assert_eq!(msgs.len(), 3);
    assert_eq!(msgs[0].role, Role::System);
    assert_eq!(msgs[1].content, "Hi");
    assert_eq!(msgs[2].role, Role::Assistant);
    assert_eq!(msgs[2].content, "Hellothere");
}

#[test]
fn reply_without_content_is_fatal() {
    let mut s = Session::new("sys".to_string(), 1000);
    s.handle_key(Key::Char('e'));
    type_text(&mut s, "Hi");
    s.handle_key(Key::Enter);
    s.begin_turn();
    let r = s.finish_turn(EngineReply::Done(None));
    assert_eq!(r, Err(TurnError::MissingContent));
    assert_eq!(s.conversation().len(), 2);
    assert_eq!(s.transcript().len(), 1);
    assert_eq!(s.mode(), Mode::Awaiting);
}

#[test]
fn engine_failure_is_fatal() {
    let mut s = Session::new("sys".to_string(), 1000);
    s.handle_key(Key::Char('e'));
    s.handle_key(Key::Enter);
    s.begin_turn();
    let r = s.finish_turn(EngineReply::Failed);
    assert_eq!(r, Err(TurnError::EngineFailure));
    assert_eq!(s.conversation().len(), 2);
}

#[test]
fn browsing_keys() {
    let mut s = Session::new("sys".to_string(), 1000);
    assert_eq!(s.handle_key(Key::Char('x')), Control::Continue);
    assert_eq!(s.mode(), Mode::Browsing);
    assert_eq!(s.editor().snapshot(), "");
    assert_eq!(s.handle_key(Key::Char('q')), Control::Quit);
    assert_eq!(s.handle_key(Key::Char('e')), Control::Continue);
    assert_eq!(s.mode(), Mode::Editing);
    assert_eq!(s.handle_key(Key::Char('q')), Control::Continue);
    assert_eq!(s.editor().snapshot(), "q");
    s.handle_key(Key::Esc);
    assert_eq!(s.mode(), Mode::Browsing);
}

#[test]
fn editing_keys_reach_the_editor() {
    let mut s = Session::new("sys".to_string(), 1000);
    s.handle_key(Key::Char('e'));
    type_text(&mut s, "abc");
    s.handle_key(Key::Left);
    s.handle_key(Key::Backspace);
    s.handle_key(Key::Right);
    s.handle_key(Key::Other);
    assert_eq!(s.editor().snapshot(), "ac");
    assert_eq!(s.editor().cursor(), 2);
}

#[test]
fn keys_are_ignored_while_awaiting() {
    let mut s = Session::new("sys".to_string(), 1000);
    s.handle_key(Key::Char('e'));
    type_text(&mut s, "a");
    s.handle_key(Key::Enter);
    assert_eq!(s.handle_key(Key::Char('q')), Control::Continue);
    assert_eq!(s.handle_key(Key::Esc), Control::Continue);
    assert_eq!(s.mode(), Mode::Awaiting);
    assert_eq!(s.editor().snapshot(), "a");
}

#[test]
fn turns_keep_the_conversation_within_budget() {
    let mut s = Session::new("sys".to_string(), 12);
    for (question, answer) in [("abc", "de f"), ("ghij", "k-l"), ("m", "nopqrstuvwxyz")] {
        if s.mode() == Mode::Browsing {
            s.handle_key(Key::Char('e'));
        }
        type_text(&mut s, question);
        s.handle_key(Key::Enter);
        s.begin_turn();
        s.finish_turn(EngineReply::Done(Some(answer.to_string()))).unwrap();
        let c = s.conversation();
        assert!(c.running_length() <= c.budget() || c.len() == 1);
        assert_eq!(c.len() % 2, 1);
        let msgs = c.snapshot_for_request();
        assert_eq!(msgs[0].content, "sys");
    }
    assert_eq!(s.conversation().len(), 1);
    assert_eq!(s.transcript().len(), 6);
}

#[test]
fn speaker_labels() {
    assert_eq!(Speaker::Me.label(), "Me");
    assert_eq!(Speaker::Assistant.label(), "QS");
    assert_eq!(Speaker::Continuation.label(), "  ");
}
