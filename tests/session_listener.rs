use musicquiz::codec::Command;
use musicquiz::host::RevealRecord;
use musicquiz::listener::{Key, Listener, ListenerState, LocalAction};

fn type_text(l: &mut Listener, text: &str) {
    for c in text.chars() {
        assert_eq!(l.on_key(Key::Char(c)), LocalAction::Nothing);
    }
}

fn connected_listener() -> Listener {
    let mut l = Listener::new();
    type_text(&mut l, "kim");
    l.on_key(Key::Enter);
    type_text(&mut l, "host:1");
    assert_eq!(l.on_key(Key::Enter), LocalAction::Connect);
    l.connected();
    l
}

#[test]
fn nickname_then_address() {
    let mut l = Listener::new();
    assert_eq!(l.state, ListenerState::EnterNickname);
    assert_eq!(l.volume, 50);
    type_text(&mut l, "kimx");
    l.on_key(Key::Backspace);
    assert_eq!(l.nickname, vec!['k', 'i', 'm']);
    assert_eq!(l.on_key(Key::Enter), LocalAction::Nothing);
    assert_eq!(l.state, ListenerState::Disconnected);
    assert_eq!(l.on_key(Key::Enter), LocalAction::Nothing);
    type_text(&mut l, "a:1");
    assert_eq!(l.destination, vec!['a', ':', '1']);
    assert_eq!(l.on_key(Key::Enter), LocalAction::Connect);
    assert_eq!(l.state, ListenerState::Disconnected);
}

#[test]
fn backspace_on_empty_text() {
    let mut l = Listener::new();
    assert_eq!(l.on_key(Key::Backspace), LocalAction::Nothing);
    assert!(l.nickname.is_empty());
}

#[test]
fn failed_connection_clears_address() {
    let mut l = Listener::new();
    l.on_key(Key::Enter);
    type_text(&mut l, "nowhere");
    l.connect_failed();
    assert!(l.destination.is_empty());
    assert_eq!(l.state, ListenerState::Disconnected);
}

#[test]
fn escape_exits() {
    let mut l = Listener::new();
    assert_eq!(l.on_key(Key::Esc), LocalAction::Exit);
    assert!(l.exit);
}

#[test]
fn commands_move_playback() {
    let mut l = connected_listener();
    assert_eq!(l.state, ListenerState::Paused);
    assert_eq!(l.on_command(Command::Repeat), LocalAction::Nothing);
    assert_eq!(l.on_song(vec![1, 2, 3]), LocalAction::Load);
    assert_eq!(l.current_song, Some(vec![1, 2, 3]));
    assert_eq!(l.on_command(Command::Play), LocalAction::Resume);
    assert_eq!(l.state, ListenerState::Playing);
    assert_eq!(l.on_command(Command::Pause), LocalAction::Pause);
    assert_eq!(l.state, ListenerState::Paused);
    l.on_command(Command::Play);
    assert_eq!(l.on_command(Command::Repeat), LocalAction::Load);
    assert_eq!(l.state, ListenerState::Paused);
    assert_eq!(l.current_song, Some(vec![1, 2, 3]));
}

#[test]
fn reveal_then_next_command() {
    let mut l = connected_listener();
    let record = RevealRecord {
        title: "t".to_string(),
        performer: "p".to_string(),
        title_correct: true,
        performer_correct: false,
    };
    l.on_reveal(record);
    assert_eq!(l.state, ListenerState::Revealing);
    assert_eq!(l.last_reveal.as_ref().unwrap().title, "t");
    l.on_song(vec![9]);
    assert_eq!(l.state, ListenerState::Paused);
}

#[test]
fn disconnect_drops_session_data() {
    let mut l = connected_listener();
    l.on_song(vec![4, 5]);
    assert_eq!(l.on_disconnect(), LocalAction::Stop);
    assert_eq!(l.state, ListenerState::Disconnected);
    assert!(l.current_song.is_none());
    assert!(l.last_reveal.is_none());
}

#[test]
fn volume_is_clamped() {
    let mut l = connected_listener();
    for _ in 0..9 {
        l.on_key(Key::Char('+'));
    }
    assert_eq!(l.on_key(Key::Char('+')), LocalAction::SetVolume(100));
    assert_eq!(l.on_key(Key::Char('+')), LocalAction::SetVolume(100));
    assert_eq!(l.on_key(Key::Char('-')), LocalAction::SetVolume(95));
    for _ in 0..30 {
        l.on_key(Key::Char('-'));
    }
    assert_eq!(l.volume, 0);
    assert_eq!(l.on_key(Key::Char('x')), LocalAction::Nothing);
    assert_eq!(l.on_key(Key::Char('q')), LocalAction::Exit);
}

#[test]
fn state_labels() {
    assert_eq!(ListenerState::EnterNickname.label(), "NICKNAME CONFIG");
    assert_eq!(ListenerState::Disconnected.label(), "DISCONNECTED");
    assert_eq!(ListenerState::Paused.label(), "PAUSED");
    assert_eq!(ListenerState::Playing.label(), "PLAYING");
    assert_eq!(ListenerState::Revealing.label(), "REVEALING");
}

#[test]
fn repeat_without_song_still_pauses() {
    let mut l = connected_listener();
    l.on_command(Command::Play);
    assert_eq!(l.state, ListenerState::Playing);
    assert_eq!(l.on_command(Command::Repeat), LocalAction::Nothing);
    assert_eq!(l.state, ListenerState::Paused);
    assert!(l.current_song.is_none());
}

#[test]
fn repeat_leaves_revealing() {
    let mut l = connected_listener();
    l.on_reveal(RevealRecord {
        title: "t".to_string(),
        performer: "p".to_string(),
        title_correct: false,
        performer_correct: false,
    });
    assert_eq!(l.on_command(Command::Repeat), LocalAction::Nothing);
    assert_eq!(l.state, ListenerState::Paused);
}

#[test]
fn failed_reconnect_holds_nothing() {
    let mut l = connected_listener();
    l.on_song(vec![1]);
    l.on_disconnect();
    type_text(&mut l, "other:2");
    assert_eq!(l.on_key(Key::Enter), LocalAction::Connect);
    l.connect_failed();
    assert_eq!(l.state, ListenerState::Disconnected);
    assert!(l.destination.is_empty());
    assert!(l.current_song.is_none());
    assert!(l.last_reveal.is_none());
}
