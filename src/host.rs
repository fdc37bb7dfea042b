//! The host's session: which song is current, whether it was sent and is
//! playing, how it was graded, and what each keyboard intent broadcasts.
use vstd::prelude::*;
use crate::codec::Command;

verus! {

/// One song of the quiz.
pub struct SongEntry {
    pub title: String,
    pub performer: String,
}

/// How the current song was guessed; `None` where not graded yet.
#[derive(Clone, Copy, Debug, PartialEq, Eq, Structural)]
pub struct Grading {
    pub title: Option<bool>,
    pub performer: Option<bool>,
}

impl Grading {
    /// Both parts were graded.
    pub open spec fn is_complete(self) -> bool {
        self.title is Some && self.performer is Some
    }

    pub open spec fn spec_unset() -> Grading {
        Grading { title: None, performer: None }
    }

    pub fn unset() -> (g: Grading)
        ensures
            g == Grading::spec_unset(),
    {
        Grading { title: None, performer: None }
    }

    pub fn complete(&self) -> (r: bool)
        ensures
            r == self.is_complete(),
    {
        self.title.is_some() && self.performer.is_some()
    }
}

/// What the host broadcasts to every listener, in the order given.
#[derive(Clone, Copy, Debug, PartialEq, Eq, Structural)]
pub enum Outbound {
    Play,
    Pause,
    Repeat,
    /// The audio of the song at this index.
    Transfer(usize),
    /// The result for the song at this index, graded as given.
    Reveal(usize, Grading),
}

impl Outbound {
    /// The command that goes on the wire for this broadcast.
    pub open spec fn spec_command(self) -> Command {
        match self {
            Outbound::Play => Command::Play,
            Outbound::Pause => Command::Pause,
            Outbound::Repeat => Command::Repeat,
            Outbound::Transfer(_) => Command::Transfer,
            Outbound::Reveal(_, _) => Command::Reveal,
        }
    }

    pub fn command(&self) -> (c: Command)
        ensures
            c == self.spec_command(),
    {
        match self {
            Outbound::Play => Command::Play,
            Outbound::Pause => Command::Pause,
            Outbound::Repeat => Command::Repeat,
            Outbound::Transfer(_) => Command::Transfer,
            Outbound::Reveal(_, _) => Command::Reveal,
        }
    }
}

/// What listeners are shown once a song is graded: the song and whether
/// each part was guessed.
pub struct RevealRecord {
    pub title: String,
    pub performer: String,
    pub title_correct: bool,
    pub performer_correct: bool,
}

/// The record revealed for `song` graded as `g`; a part left ungraded
/// counts as not guessed.
pub fn reveal_record(song: &SongEntry, g: Grading) -> (r: RevealRecord)
    ensures
        r.title@ == song.title@,
        r.performer@ == song.performer@,
        r.title_correct == (g.title == Some(true)),
        r.performer_correct == (g.performer == Some(true)),
{
    RevealRecord {
        title: song.title.clone(),
        performer: song.performer.clone(),
        title_correct: match g.title {
            Some(b) => b,
            None => false,
        },
        performer_correct: match g.performer {
            Some(b) => b,
            None => false,
        },
    }
}

/// What a host key asks for.
#[derive(Clone, Copy, Debug, PartialEq, Eq, Structural)]
pub enum HostIntent {
    Play,
    Pause,
    Repeat,
    Transfer,
    GradeTitle(bool),
    GradePerformer(bool),
    Advance,
    Exit,
}

/// The intent of each key of the host's keyboard.
pub open spec fn key_intent(c: char) -> Option<HostIntent> {
    if c == 'p' {
        Some(HostIntent::Play)
    } else if c == 'o' {
        Some(HostIntent::Pause)
    } else if c == 'r' {
        Some(HostIntent::Repeat)
    } else if c == 't' {
        Some(HostIntent::Transfer)
    } else if c == 'a' {
        Some(HostIntent::GradeTitle(false))
    } else if c == 's' {
        Some(HostIntent::GradeTitle(true))
    } else if c == 'y' {
        Some(HostIntent::GradePerformer(false))
    } else if c == 'x' {
        Some(HostIntent::GradePerformer(true))
    } else if c == 'n' {
        Some(HostIntent::Advance)
    } else if c == 'q' {
        Some(HostIntent::Exit)
    } else {
        None
    }
}

pub fn intent_of_key(c: char) -> (r: Option<HostIntent>)
    ensures
        r == key_intent(c),
{
    match c {
        'p' => Some(HostIntent::Play),
        'o' => Some(HostIntent::Pause),
        'r' => Some(HostIntent::Repeat),
        't' => Some(HostIntent::Transfer),
        'a' => Some(HostIntent::GradeTitle(false)),
        's' => Some(HostIntent::GradeTitle(true)),
        'y' => Some(HostIntent::GradePerformer(false)),
        'x' => Some(HostIntent::GradePerformer(true)),
        'n' => Some(HostIntent::Advance),
        'q' => Some(HostIntent::Exit),
        _ => None,
    }
}

/// How many recorded songs had their title guessed.
pub open spec fn titles_right(h: Seq<Grading>) -> nat
    decreases h.len(),
{
    if h.len() == 0 {
        0
    } else {
        titles_right(h.drop_last()) + if h.last().title == Some(true) {
            1nat
        } else {
            0nat
        }
    }
}

/// How many recorded songs had their performer guessed.
pub open spec fn performers_right(h: Seq<Grading>) -> nat
    decreases h.len(),
{
    if h.len() == 0 {
        0
    } else {
        performers_right(h.drop_last()) + if h.last().performer == Some(true) {
            1nat
        } else {
            0nat
        }
    }
}

/// The host's state between events.
pub struct HostSession {
    pub songs: Vec<SongEntry>,
    pub index: usize,
    pub transferred: bool,
    pub playing: bool,
    pub grading: Grading,
    pub history: Vec<Grading>,
    pub exit: bool,
}

/// The host's state as values.
pub struct HostView {
    pub songs: Seq<SongEntry>,
    pub index: usize,
    pub transferred: bool,
    pub playing: bool,
    pub grading: Grading,
    pub history: Seq<Grading>,
    pub exit: bool,
}

impl View for HostSession {
    type V = HostView;

    open spec fn view(&self) -> HostView {
        HostView {
            songs: self.songs@,
            index: self.index,
            transferred: self.transferred,
            playing: self.playing,
            grading: self.grading,
            history: self.history@,
            exit: self.exit,
        }
    }
}

impl HostView {
    /// There is a current song, and only a song that was sent can play.
    pub open spec fn wf(self) -> bool {
        &&& 0 < self.songs.len() <= usize::MAX
        &&& self.index < self.songs.len()
        &&& self.playing ==> self.transferred
    }

    pub open spec fn play_step(self) -> (HostView, Seq<Outbound>) {
        if !self.playing && self.transferred {
            (HostView { playing: true, ..self }, seq![Outbound::Play])
        } else {
            (self, Seq::empty())
        }
    }

    pub open spec fn pause_step(self) -> (HostView, Seq<Outbound>) {
        if self.playing && self.transferred {
            (HostView { playing: false, ..self }, seq![Outbound::Pause])
        } else {
            (self, Seq::empty())
        }
    }

    pub open spec fn repeat_step(self) -> (HostView, Seq<Outbound>) {
        if self.transferred {
            (HostView { playing: false, ..self }, seq![Outbound::Repeat])
        } else {
            (self, Seq::empty())
        }
    }

    pub open spec fn transfer_step(self) -> (HostView, Seq<Outbound>) {
        if !self.transferred {
            (HostView { transferred: true, ..self }, seq![Outbound::Transfer(self.index)])
        } else {
            (self, Seq::empty())
        }
    }

    pub open spec fn grade_title_step(self, correct: bool) -> (HostView, Seq<Outbound>) {
        (HostView { grading: Grading { title: Some(correct), ..self.grading }, ..self }, Seq::empty())
    }

    pub open spec fn grade_performer_step(self, correct: bool) -> (HostView, Seq<Outbound>) {
        (
            HostView { grading: Grading { performer: Some(correct), ..self.grading }, ..self },
            Seq::empty(),
        )
    }

    /// Playback stops first; a fully graded song is then recorded and
    /// revealed, and the next song, if any, becomes current.
    pub open spec fn advance_step(self) -> (HostView, Seq<Outbound>) {
        if self.grading.is_complete() {
            let on_last = self.index + 1 >= self.songs.len();
            (
                HostView {
                    playing: false,
                    history: self.history.push(self.grading),
                    grading: Grading::spec_unset(),
                    transferred: if on_last {
                        self.transferred
                    } else {
                        false
                    },
                    index: if on_last {
                        self.index
                    } else {
                        (self.index + 1) as usize
                    },
                    ..self
                },
                seq![Outbound::Pause, Outbound::Reveal(self.index, self.grading)],
            )
        } else {
            (HostView { playing: false, ..self }, seq![Outbound::Pause])
        }
    }

    pub open spec fn exit_step(self) -> (HostView, Seq<Outbound>) {
        (HostView { exit: true, ..self }, Seq::empty())
    }

    pub open spec fn step(self, intent: HostIntent) -> (HostView, Seq<Outbound>) {
        match intent {
            HostIntent::Play => self.play_step(),
            HostIntent::Pause => self.pause_step(),
            HostIntent::Repeat => self.repeat_step(),
            HostIntent::Transfer => self.transfer_step(),
            HostIntent::GradeTitle(c) => self.grade_title_step(c),
            HostIntent::GradePerformer(c) => self.grade_performer_step(c),
            HostIntent::Advance => self.advance_step(),
            HostIntent::Exit => self.exit_step(),
        }
    }
}

impl HostSession {
    /// A session at the first song, nothing sent or graded; `None` where
    /// there is no song.
    pub fn new(songs: Vec<SongEntry>) -> (r: Option<HostSession>)
        ensures
            r is Some <==> songs@.len() > 0,
            r matches Some(s) ==> s@.wf(),
            r matches Some(s) ==> s@ == (HostView {
                songs: songs@,
                index: 0,
                transferred: false,
                playing: false,
                grading: Grading::spec_unset(),
                history: Seq::empty(),
                exit: false,
            }),
    {
        if songs.len() == 0 {
            return None;
        }
        Some(
            HostSession {
                songs,
                index: 0,
                transferred: false,
                playing: false,
                grading: Grading::unset(),
                history: Vec::new(),
                exit: false,
            },
        )
    }

    pub fn play(&mut self) -> (r: Vec<Outbound>)
        requires
            old(self)@.wf(),
        ensures
            (final(self)@, r@) == old(self)@.play_step(),
            final(self)@.wf(),
    {
        if !self.playing && self.transferred {
            self.playing = true;
            vec![Outbound::Play]
        } else {
            Vec::new()
        }
    }

    pub fn pause(&mut self) -> (r: Vec<Outbound>)
        requires
            old(self)@.wf(),
        ensures
            (final(self)@, r@) == old(self)@.pause_step(),
            final(self)@.wf(),
    {
        if self.playing && self.transferred {
            self.playing = false;
            vec![Outbound::Pause]
        } else {
            Vec::new()
        }
    }

    /// Listeners replay the song they hold, from its start, paused.
    pub fn repeat(&mut self) -> (r: Vec<Outbound>)
        requires
            old(self)@.wf(),
        ensures
            (final(self)@, r@) == old(self)@.repeat_step(),
            final(self)@.wf(),
    {
        if self.transferred {
            self.playing = false;
            vec![Outbound::Repeat]
        } else {
            Vec::new()
        }
    }

    /// Sends the current song, once.
    pub fn transfer(&mut self) -> (r: Vec<Outbound>)
        requires
            old(self)@.wf(),
        ensures
            (final(self)@, r@) == old(self)@.transfer_step(),
            final(self)@.wf(),
    {
        if !self.transferred {
            self.transferred = true;
            vec![Outbound::Transfer(self.index)]
        } else {
            Vec::new()
        }
    }

    pub fn grade_title(&mut self, correct: bool)
        requires
            old(self)@.wf(),
        ensures
            final(self)@ == old(self)@.grade_title_step(correct).0,
            final(self)@.wf(),
    {
        self.grading.title = Some(correct);
    }

    pub fn grade_performer(&mut self, correct: bool)
        requires
            old(self)@.wf(),
        ensures
            final(self)@ == old(self)@.grade_performer_step(correct).0,
            final(self)@.wf(),
    {
        self.grading.performer = Some(correct);
    }

    pub fn advance(&mut self) -> (r: Vec<Outbound>)
        requires
            old(self)@.wf(),
        ensures
            (final(self)@, r@) == old(self)@.advance_step(),
            final(self)@.wf(),
    {
        let mut out: Vec<Outbound> = vec![Outbound::Pause];
        self.playing = false;
        if self.grading.complete() {
            let graded = self.grading;
            self.history.push(graded);
            out.push(Outbound::Reveal(self.index, graded));
            self.grading = Grading::unset();
            if self.index < self.songs.len() - 1 {
                self.transferred = false;
                self.index = self.index + 1;
            }
        }
        assert(out@ =~= old(self)@.advance_step().1);
        out
    }

    pub fn request_exit(&mut self)
        requires
            old(self)@.wf(),
        ensures
            final(self)@ == old(self)@.exit_step().0,
            final(self)@.wf(),
    {
        self.exit = true;
    }

    /// The number of recorded songs whose title was guessed.
    pub fn titles_correct(&self) -> (n: usize)
        ensures
            n == titles_right(self.history@),
            n <= self.history@.len(),
    {
        let mut n: usize = 0;
        let mut i: usize = 0;
        while i < self.history.len()
            invariant
                i <= self.history@.len(),
                n <= i,
                n == titles_right(self.history@.take(i as int)),
            decreases self.history@.len() - i,
        {
            assert(self.history@.take(i + 1).drop_last() =~= self.history@.take(i as int));
            if self.history[i].title == Some(true) {
                n = n + 1;
            }
            i = i + 1;
        }
        assert(self.history@.take(i as int) =~= self.history@);
        n
    }

    /// The number of recorded songs whose performer was guessed.
    pub fn performers_correct(&self) -> (n: usize)
        ensures
            n == performers_right(self.history@),
            n <= self.history@.len(),
    {
        let mut n: usize = 0;
        let mut i: usize = 0;
        while i < self.history.len()
            invariant
                i <= self.history@.len(),
                n <= i,
                n == performers_right(self.history@.take(i as int)),
            decreases self.history@.len() - i,
        {
            assert(self.history@.take(i + 1).drop_last() =~= self.history@.take(i as int));
            if self.history[i].performer == Some(true) {
                n = n + 1;
            }
            i = i + 1;
        }
        assert(self.history@.take(i as int) =~= self.history@);
        n
    }

    /// The index of the song after the current one, if there is one.
    pub fn upcoming(&self) -> (r: Option<usize>)
        requires
            self@.wf(),
        ensures
            r is Some <==> self.index + 1 < self.songs@.len(),
            r matches Some(i) ==> i == self.index + 1,
    {
        if self.index < self.songs.len() - 1 {
            Some(self.index + 1)
        } else {
            None
        }
    }

    /// The record to reveal for what `advance` broadcast.
    pub fn reveal_for(&self, index: usize, g: Grading) -> (r: RevealRecord)
        requires
            index < self.songs@.len(),
        ensures
            r.title@ == self.songs@[index as int].title@,
            r.performer@ == self.songs@[index as int].performer@,
            r.title_correct == (g.title == Some(true)),
            r.performer_correct == (g.performer == Some(true)),
    {
        reveal_record(&self.songs[index], g)
    }

    /// Carries out one intent and gives what it broadcasts.
    pub fn handle_intent(&mut self, intent: HostIntent) -> (r: Vec<Outbound>)
        requires
            old(self)@.wf(),
        ensures
            (final(self)@, r@) == old(self)@.step(intent),
            final(self)@.wf(),
    {
        match intent {
            HostIntent::Play => self.play(),
            HostIntent::Pause => self.pause(),
            HostIntent::Repeat => self.repeat(),
            HostIntent::Transfer => self.transfer(),
            HostIntent::GradeTitle(c) => {
                self.grade_title(c);
                Vec::new()
            },
            HostIntent::GradePerformer(c) => {
                self.grade_performer(c);
                Vec::new()
            },
            HostIntent::Advance => self.advance(),
            HostIntent::Exit => {
                self.request_exit();
                Vec::new()
            },
        }
    }
}

/// Advancing with a part of the grading unset only stops playback: the
/// song, its grading and the history stay as they were and nothing is
/// revealed. With both parts set, the grading is recorded and revealed,
/// and the next song, where there is one, becomes current and unsent.
pub proof fn lemma_advance_needs_complete_grading(v: HostView)
    requires
        v.wf(),
    ensures
        !v.grading.is_complete() ==> v.advance_step().0 == (HostView { playing: false, ..v }),
        !v.grading.is_complete() ==> v.advance_step().1 == seq![Outbound::Pause],
        v.grading.is_complete() ==> v.advance_step().0.history == v.history.push(v.grading),
        v.grading.is_complete() ==> v.advance_step().1 == seq![
            Outbound::Pause,
            Outbound::Reveal(v.index, v.grading),
        ],
        v.grading.is_complete() && v.index + 1 < v.songs.len() ==> v.advance_step().0.index
            == v.index + 1 && !v.advance_step().0.transferred,
        v.grading.is_complete() && v.index + 1 >= v.songs.len() ==> v.advance_step().0.index
            == v.index,
{
}

/// Play, pause, repeat and transfer change nothing and broadcast nothing
/// where their guard does not hold.
pub proof fn lemma_guarded_steps(v: HostView)
    ensures
        !(!v.playing && v.transferred) ==> v.play_step() == (v, Seq::<Outbound>::empty()),
        !(v.playing && v.transferred) ==> v.pause_step() == (v, Seq::<Outbound>::empty()),
        !v.transferred ==> v.repeat_step() == (v, Seq::<Outbound>::empty()),
        v.transferred ==> v.transfer_step() == (v, Seq::<Outbound>::empty()),
{
}

} // verus!
