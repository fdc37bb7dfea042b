//! The listener's session: the nickname and host address being typed, the
//! connection's phase, the song held for replay, the last reveal, and the
//! local volume.
use vstd::prelude::*;
use crate::codec::{carries_payload, Command};
use crate::host::RevealRecord;

verus! {

/// The phases of a listener.
#[derive(Clone, Copy, Debug, PartialEq, Eq, Structural)]
pub enum ListenerState {
    EnterNickname,
    Disconnected,
    Paused,
    Playing,
    Revealing,
}

impl ListenerState {
    /// The name under which the phase is shown.
    pub open spec fn spec_label(self) -> Seq<char> {
        match self {
            ListenerState::EnterNickname => "NICKNAME CONFIG"@,
            ListenerState::Disconnected => "DISCONNECTED"@,
            ListenerState::Paused => "PAUSED"@,
            ListenerState::Playing => "PLAYING"@,
            ListenerState::Revealing => "REVEALING"@,
        }
    }

    pub fn label(&self) -> (r: &'static str)
        ensures
            r@ == self.spec_label(),
    {
        match self {
            ListenerState::EnterNickname => "NICKNAME CONFIG",
            ListenerState::Disconnected => "DISCONNECTED",
            ListenerState::Paused => "PAUSED",
            ListenerState::Playing => "PLAYING",
            ListenerState::Revealing => "REVEALING",
        }
    }
}

/// A key press, as far as the listener tells keys apart.
#[derive(Clone, Copy, Debug, PartialEq, Eq, Structural)]
pub enum Key {
    Char(char),
    Backspace,
    Enter,
    Esc,
    Other,
}

/// What the listener's surroundings are to do after an event.
#[derive(Clone, Copy, Debug, PartialEq, Eq, Structural)]
pub enum LocalAction {
    Nothing,
    /// Connect to the typed address.
    Connect,
    /// Stop what plays and load the held song from its start, paused.
    Load,
    Resume,
    Pause,
    /// Stop playback and drop what was queued.
    Stop,
    /// Set the output volume, in percent.
    SetVolume(u8),
    Exit,
}

/// The step by which the volume moves, in percent.
pub const VOLUME_STEP: u8 = 5;

/// The largest volume, in percent.
pub const VOLUME_MAX: u8 = 100;

/// The listener's state between events.
pub struct Listener {
    pub state: ListenerState,
    pub nickname: Vec<char>,
    pub destination: Vec<char>,
    pub current_song: Option<Vec<u8>>,
    pub last_reveal: Option<RevealRecord>,
    /// In percent.
    pub volume: u8,
    pub exit: bool,
}

/// The listener's state as values.
pub struct ListenerView {
    pub state: ListenerState,
    pub nickname: Seq<char>,
    pub destination: Seq<char>,
    pub song: Option<Seq<u8>>,
    pub reveal: Option<RevealRecord>,
    pub volume: u8,
    pub exit: bool,
}

impl View for Listener {
    type V = ListenerView;

    open spec fn view(&self) -> ListenerView {
        ListenerView {
            state: self.state,
            nickname: self.nickname@,
            destination: self.destination@,
            song: match self.current_song {
                Some(v) => Some(v@),
                None => None,
            },
            reveal: self.last_reveal,
            volume: self.volume,
            exit: self.exit,
        }
    }
}

/// Text after one editing key: a character is added, backspace removes the
/// last one.
pub open spec fn edited(text: Seq<char>, key: Key) -> Seq<char> {
    match key {
        Key::Char(c) => text.push(c),
        Key::Backspace => if text.len() > 0 {
            text.drop_last()
        } else {
            text
        },
        _ => text,
    }
}

impl ListenerView {
    /// The volume is in range, and a listener without a connection holds
    /// neither a song nor a reveal.
    pub open spec fn wf(self) -> bool {
        &&& self.volume <= VOLUME_MAX
        &&& (self.state == ListenerState::Disconnected || self.state
            == ListenerState::EnterNickname) ==> self.song is None && self.reveal is None
    }

    pub open spec fn key_step(self, key: Key) -> (ListenerView, LocalAction) {
        match self.state {
            ListenerState::EnterNickname => match key {
                Key::Enter => (ListenerView { state: ListenerState::Disconnected, ..self }, LocalAction::Nothing),
                Key::Esc => (ListenerView { exit: true, ..self }, LocalAction::Exit),
                _ => (ListenerView { nickname: edited(self.nickname, key), ..self }, LocalAction::Nothing),
            },
            ListenerState::Disconnected => match key {
                Key::Enter => if self.destination.len() > 0 {
                    (self, LocalAction::Connect)
                } else {
                    (self, LocalAction::Nothing)
                },
                Key::Esc => (ListenerView { exit: true, ..self }, LocalAction::Exit),
                _ => (ListenerView { destination: edited(self.destination, key), ..self }, LocalAction::Nothing),
            },
            _ => match key {
                Key::Char('q') => (ListenerView { exit: true, ..self }, LocalAction::Exit),
                Key::Char('+') => {
                    let v = if self.volume + VOLUME_STEP > VOLUME_MAX {
                        VOLUME_MAX
                    } else {
                        (self.volume + VOLUME_STEP) as u8
                    };
                    (ListenerView { volume: v, ..self }, LocalAction::SetVolume(v))
                },
                Key::Char('-') => {
                    let v = if self.volume < VOLUME_STEP {
                        0u8
                    } else {
                        (self.volume - VOLUME_STEP) as u8
                    };
                    (ListenerView { volume: v, ..self }, LocalAction::SetVolume(v))
                },
                _ => (self, LocalAction::Nothing),
            },
        }
    }

    pub open spec fn command_step(self, cmd: Command) -> (ListenerView, LocalAction) {
        match cmd {
            Command::Play => (ListenerView { state: ListenerState::Playing, ..self }, LocalAction::Resume),
            Command::Pause => (ListenerView { state: ListenerState::Paused, ..self }, LocalAction::Pause),
            Command::Repeat => (
                ListenerView { state: ListenerState::Paused, ..self },
                if self.song is Some {
                    LocalAction::Load
                } else {
                    LocalAction::Nothing
                },
            ),
            _ => (self, LocalAction::Nothing),
        }
    }
}

impl Listener {
    /// A listener about to type its nickname, at half volume.
    pub fn new() -> (r: Listener)
        ensures
            r@ == (ListenerView {
                state: ListenerState::EnterNickname,
                nickname: Seq::empty(),
                destination: Seq::empty(),
                song: None,
                reveal: None,
                volume: 50,
                exit: false,
            }),
            r@.wf(),
    {
        Listener {
            state: ListenerState::EnterNickname,
            nickname: Vec::new(),
            destination: Vec::new(),
            current_song: None,
            last_reveal: None,
            volume: 50,
            exit: false,
        }
    }

    /// Handles one key press.
    pub fn on_key(&mut self, key: Key) -> (r: LocalAction)
        requires
            old(self)@.wf(),
        ensures
            (final(self)@, r) == old(self)@.key_step(key),
            final(self)@.wf(),
    {
        match self.state {
            ListenerState::EnterNickname => match key {
                Key::Enter => {
                    self.state = ListenerState::Disconnected;
                    LocalAction::Nothing
                },
                Key::Esc => {
                    self.exit = true;
                    LocalAction::Exit
                },
                _ => {
                    edit(&mut self.nickname, key);
                    LocalAction::Nothing
                },
            },
            ListenerState::Disconnected => match key {
                Key::Enter => if self.destination.len() > 0 {
                    LocalAction::Connect
                } else {
                    LocalAction::Nothing
                },
                Key::Esc => {
                    self.exit = true;
                    LocalAction::Exit
                },
                _ => {
                    edit(&mut self.destination, key);
                    LocalAction::Nothing
                },
            },
            _ => match key {
                Key::Char('q') => {
                    self.exit = true;
                    LocalAction::Exit
                },
                Key::Char('+') => {
                    self.volume = if self.volume > VOLUME_MAX - VOLUME_STEP {
                        VOLUME_MAX
                    } else {
                        self.volume + VOLUME_STEP
                    };
                    LocalAction::SetVolume(self.volume)
                },
                Key::Char('-') => {
                    self.volume = if self.volume < VOLUME_STEP {
                        0
                    } else {
                        self.volume - VOLUME_STEP
                    };
                    LocalAction::SetVolume(self.volume)
                },
                _ => LocalAction::Nothing,
            },
        }
    }

    /// The connection to the typed address was made and the nickname sent.
    pub fn connected(&mut self)
        requires
            old(self)@.wf(),
            old(self)@.state == ListenerState::Disconnected,
        ensures
            final(self)@ == (ListenerView { state: ListenerState::Paused, ..old(self)@ }),
            final(self)@.wf(),
    {
        self.state = ListenerState::Paused;
    }

    /// The typed address could not be reached, or the nickname could not
    /// be sent: the address is cleared, to be typed again, and nothing of a
    /// session is held.
    pub fn connect_failed(&mut self)
        requires
            old(self)@.wf(),
            old(self)@.state == ListenerState::Disconnected,
        ensures
            final(self)@ == (ListenerView { destination: Seq::empty(), ..old(self)@ }),
            final(self)@.song is None && final(self)@.reveal is None,
            final(self)@.wf(),
    {
        self.destination.clear();
    }

    /// Handles a command without payload from the host. A repeat replays
    /// the held song, if any, from its start; either way playback pauses.
    pub fn on_command(&mut self, cmd: Command) -> (r: LocalAction)
        requires
            old(self)@.wf(),
            !carries_payload(cmd),
        ensures
            (final(self)@, r) == old(self)@.command_step(cmd),
            final(self)@.wf(),
    {
        match cmd {
            Command::Play => {
                self.state = ListenerState::Playing;
                LocalAction::Resume
            },
            Command::Pause => {
                self.state = ListenerState::Paused;
                LocalAction::Pause
            },
            Command::Repeat => {
                self.state = ListenerState::Paused;
                if self.current_song.is_some() {
                    LocalAction::Load
                } else {
                    LocalAction::Nothing
                }
            },
            _ => LocalAction::Nothing,
        }
    }

    /// Holds a transferred song, in place of any before it, to be played
    /// from its start.
    pub fn on_song(&mut self, song: Vec<u8>) -> (r: LocalAction)
        requires
            old(self)@.wf(),
        ensures
            final(self)@ == (ListenerView {
                state: ListenerState::Paused,
                song: Some(song@),
                ..old(self)@
            }),
            r == LocalAction::Load,
            final(self)@.wf(),
    {
        self.current_song = Some(song);
        self.state = ListenerState::Paused;
        LocalAction::Load
    }

    /// Shows a revealed result.
    pub fn on_reveal(&mut self, record: RevealRecord)
        requires
            old(self)@.wf(),
        ensures
            final(self)@ == (ListenerView {
                state: ListenerState::Revealing,
                reveal: Some(record),
                ..old(self)@
            }),
            final(self)@.wf(),
    {
        self.last_reveal = Some(record);
        self.state = ListenerState::Revealing;
    }

    /// The connection was lost: what it brought is dropped and an address
    /// must be typed again.
    pub fn on_disconnect(&mut self) -> (r: LocalAction)
        requires
            old(self)@.wf(),
        ensures
            final(self)@ == (ListenerView {
                state: ListenerState::Disconnected,
                song: None,
                reveal: None,
                ..old(self)@
            }),
            r == LocalAction::Stop,
            final(self)@.wf(),
    {
        self.current_song = None;
        self.last_reveal = None;
        self.state = ListenerState::Disconnected;
        LocalAction::Stop
    }
}

/// Applies an editing key to typed text.
fn edit(text: &mut Vec<char>, key: Key)
    ensures
        final(text)@ == edited(old(text)@, key),
{
    match key {
        Key::Char(c) => text.push(c),
        Key::Backspace => {
            if text.len() > 0 {
                text.pop();
            }
        },
        _ => {},
    }
}

} // verus!
