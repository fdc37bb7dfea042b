//! The wire format: one tag byte per command, and blobs framed by an
//! eight-byte big-endian length.
use vstd::prelude::*;

verus! {

/// A playback command as it crosses the wire.
#[derive(Clone, Copy, Debug, PartialEq, Eq, Structural)]
pub enum Command {
    Play,
    Transfer,
    Pause,
    Repeat,
    Reveal,
}

/// Why bytes read from a connection could not be decoded.
#[derive(Clone, Copy, Debug, PartialEq, Eq, Structural)]
pub enum WireError {
    /// The tag byte names no command.
    InvalidCommand,
    /// The stream ended before the frame was complete.
    UnexpectedEof,
}

/// The tag byte of each command.
pub open spec fn tag_of(c: Command) -> u8 {
    match c {
        Command::Play => 1,
        Command::Transfer => 2,
        Command::Pause => 3,
        Command::Repeat => 4,
        Command::Reveal => 5,
    }
}

/// Commands followed on the wire by a blob.
pub open spec fn carries_payload(c: Command) -> bool {
    c == Command::Transfer || c == Command::Reveal
}

/// The eight big-endian bytes of `n`.
pub open spec fn be8(n: u64) -> Seq<u8> {
    seq![
        (n >> 56u64) as u8,
        (n >> 48u64) as u8,
        (n >> 40u64) as u8,
        (n >> 32u64) as u8,
        (n >> 24u64) as u8,
        (n >> 16u64) as u8,
        (n >> 8u64) as u8,
        n as u8,
    ]
}

/// The number that the first eight bytes of `b` spell in big-endian order.
pub open spec fn be8_value(b: Seq<u8>) -> u64
    recommends
        b.len() >= 8,
{
    ((b[0] as u64) << 56u64) | ((b[1] as u64) << 48u64) | ((b[2] as u64) << 40u64) | ((
    b[3] as u64) << 32u64) | ((b[4] as u64) << 24u64) | ((b[5] as u64) << 16u64) | ((
    b[6] as u64) << 8u64) | (b[7] as u64)
}

/// A blob on the wire: its length, then its bytes.
pub open spec fn blob(payload: Seq<u8>) -> Seq<u8> {
    be8(payload.len() as u64) + payload
}

/// What reading a blob from the front of `s` yields: the payload and the
/// number of bytes taken, or `None` where `s` ends too early.
pub open spec fn blob_read(s: Seq<u8>) -> Option<(Seq<u8>, nat)> {
    if s.len() < 8 {
        None
    } else {
        let n = be8_value(s);
        if n > s.len() - 8 {
            None
        } else {
            Some((s.subrange(8, 8 + n), (8 + n) as nat))
        }
    }
}

pub fn command_tag(cmd: Command) -> (tag: u8)
    ensures
        tag == tag_of(cmd),
{
    match cmd {
        Command::Play => 1,
        Command::Transfer => 2,
        Command::Pause => 3,
        Command::Repeat => 4,
        Command::Reveal => 5,
    }
}

pub fn command_from_tag(tag: u8) -> (r: Result<Command, WireError>)
    ensures
        r is Ok <==> 1 <= tag <= 5,
        r is Ok ==> tag_of(r->Ok_0) == tag,
        r is Err ==> r->Err_0 == WireError::InvalidCommand,
{
    match tag {
        1 => Ok(Command::Play),
        2 => Ok(Command::Transfer),
        3 => Ok(Command::Pause),
        4 => Ok(Command::Repeat),
        5 => Ok(Command::Reveal),
        _ => Err(WireError::InvalidCommand),
    }
}

pub fn has_payload(cmd: Command) -> (r: bool)
    ensures
        r == carries_payload(cmd),
{
    match cmd {
        Command::Transfer | Command::Reveal => true,
        _ => false,
    }
}

/// Appends the eight big-endian bytes of `n` to `out`.
pub fn write_u64_be(out: &mut Vec<u8>, n: u64)
    ensures
        final(out)@ == old(out)@ + be8(n),
{
    out.push((n >> 56u64) as u8);
    out.push((n >> 48u64) as u8);
    out.push((n >> 40u64) as u8);
    out.push((n >> 32u64) as u8);
    out.push((n >> 24u64) as u8);
    out.push((n >> 16u64) as u8);
    out.push((n >> 8u64) as u8);
    out.push(n as u8);
    assert(final(out)@ =~= old(out)@ + be8(n));
}

/// The number spelled by the first eight bytes of `b`, big-endian.
pub fn read_u64_be(b: &[u8]) -> (n: u64)
    requires
        b@.len() >= 8,
    ensures
        n == be8_value(b@),
{
    ((b[0] as u64) << 56u64) | ((b[1] as u64) << 48u64) | ((b[2] as u64) << 40u64) | ((
    b[3] as u64) << 32u64) | ((b[4] as u64) << 24u64) | ((b[5] as u64) << 16u64) | ((
    b[6] as u64) << 8u64) | (b[7] as u64)
}

/// Reading back the bytes of a number gives the number.
pub proof fn lemma_be8_round_trip(n: u64)
    ensures
        be8_value(be8(n)) == n,
{
    let b = be8(n);
    assert(b[0] == (n >> 56u64) as u8);
    assert(b[7] == n as u8);
    assert(((((n >> 56u64) as u8) as u64) << 56u64) | ((((n >> 48u64) as u8) as u64) << 48u64)
        | ((((n >> 40u64) as u8) as u64) << 40u64) | ((((n >> 32u64) as u8) as u64) << 32u64)
        | ((((n >> 24u64) as u8) as u64) << 24u64) | ((((n >> 16u64) as u8) as u64) << 16u64)
        | ((((n >> 8u64) as u8) as u64) << 8u64) | ((n as u8) as u64) == n) by (bit_vector);
}

/// Writes the command's tag byte to the end of `out`.
pub fn write_command(out: &mut Vec<u8>, cmd: Command)
    ensures
        final(out)@ == old(out)@.push(tag_of(cmd)),
{
    out.push(command_tag(cmd));
}

/// Writes `payload` as a blob to the end of `out`.
pub fn write_blob(out: &mut Vec<u8>, payload: &[u8])
    ensures
        final(out)@ == old(out)@ + blob(payload@),
{
    let ghost start = out@;
    write_u64_be(out, payload.len() as u64);
    let mut i: usize = 0;
    while i < payload.len()
        invariant
            i <= payload@.len(),
            out@ == start + be8(payload@.len() as u64) + payload@.subrange(0, i as int),
        decreases payload@.len() - i,
    {
        out.push(payload[i]);
        i = i + 1;
        assert(payload@.subrange(0, i as int) =~= payload@.subrange(0, i - 1).push(
            payload@[i - 1],
        ));
    }
    assert(payload@.subrange(0, i as int) =~= payload@);
    assert(out@ =~= start + blob(payload@));
}

/// Reads one blob from the front of `stream`: its payload and the number
/// of bytes it took, or `UnexpectedEof` where the stream ends first.
pub fn read_blob(stream: &[u8]) -> (r: Result<(Vec<u8>, usize), WireError>)
    ensures
        match blob_read(stream@) {
            Some((p, used)) => r is Ok && r->Ok_0.0@ == p && r->Ok_0.1 == used,
            None => r == Err::<(Vec<u8>, usize), WireError>(WireError::UnexpectedEof),
        },
{
    if stream.len() < 8 {
        return Err(WireError::UnexpectedEof);
    }
    let n = read_u64_be(stream);
    if n > (stream.len() - 8) as u64 {
        return Err(WireError::UnexpectedEof);
    }
    let end: usize = 8 + n as usize;
    let mut payload: Vec<u8> = Vec::new();
    let mut i: usize = 8;
    while i < end
        invariant
            8 <= i <= end,
            end <= stream@.len(),
            end == 8 + n,
            payload@ == stream@.subrange(8, i as int),
        decreases end - i,
    {
        payload.push(stream[i]);
        i = i + 1;
        assert(payload@ =~= stream@.subrange(8, i as int));
    }
    Ok((payload, end))
}

/// Reading a blob back from the front of what was written gives the
/// payload, whatever bytes follow it.
pub proof fn lemma_blob_round_trip(payload: Seq<u8>, rest: Seq<u8>)
    requires
        payload.len() <= u64::MAX,
    ensures
        blob_read(blob(payload) + rest) == Some((payload, (8 + payload.len()) as nat)),
{
    let s = blob(payload) + rest;
    let n = payload.len() as u64;
    lemma_be8_round_trip(n);
    assert(s.subrange(0, 8) =~= be8(n));
    assert(be8_value(s) == be8_value(s.subrange(0, 8)));
    assert(s.subrange(8, 8 + n) =~= payload);
}

/// The command that a tag byte names, if any.
pub open spec fn command_of_tag(t: u8) -> Option<Command> {
    if t == 1 {
        Some(Command::Play)
    } else if t == 2 {
        Some(Command::Transfer)
    } else if t == 3 {
        Some(Command::Pause)
    } else if t == 4 {
        Some(Command::Repeat)
    } else if t == 5 {
        Some(Command::Reveal)
    } else {
        None
    }
}

/// A command on the wire: its tag, then its payload as a blob where the
/// command carries one.
pub open spec fn frame(c: Command, payload: Seq<u8>) -> Seq<u8> {
    if carries_payload(c) {
        seq![tag_of(c)] + blob(payload)
    } else {
        seq![tag_of(c)]
    }
}

/// What reading one command from the front of `s` yields: the command, its
/// payload (empty for a command without one) and the bytes taken.
pub open spec fn frame_read(s: Seq<u8>) -> Result<(Command, Seq<u8>, nat), WireError> {
    if s.len() == 0 {
        Err(WireError::UnexpectedEof)
    } else {
        match command_of_tag(s[0]) {
            None => Err(WireError::InvalidCommand),
            Some(c) => if carries_payload(c) {
                match blob_read(s.drop_first()) {
                    None => Err(WireError::UnexpectedEof),
                    Some((p, used)) => Ok((c, p, used + 1)),
                }
            } else {
                Ok((c, Seq::empty(), 1))
            },
        }
    }
}

/// One command as a listener receives it, with its payload.
#[derive(Clone, Debug, PartialEq, Eq)]
pub enum Message {
    Play,
    Pause,
    Repeat,
    /// The audio of the next song.
    Transfer(Vec<u8>),
    /// The encoded grading record of the song just finished.
    Reveal(Vec<u8>),
}

/// `m` is command `c` with payload `payload`.
pub open spec fn message_is(m: Message, c: Command, payload: Seq<u8>) -> bool {
    match m {
        Message::Play => c == Command::Play,
        Message::Pause => c == Command::Pause,
        Message::Repeat => c == Command::Repeat,
        Message::Transfer(v) => c == Command::Transfer && v@ == payload,
        Message::Reveal(v) => c == Command::Reveal && v@ == payload,
    }
}

/// Writes one command, and its payload where it carries one, to the end of
/// `out`.
pub fn write_frame(out: &mut Vec<u8>, cmd: Command, payload: &[u8])
    ensures
        final(out)@ == old(out)@ + frame(cmd, payload@),
{
    let ghost start = out@;
    write_command(out, cmd);
    if has_payload(cmd) {
        write_blob(out, payload);
        assert(out@ =~= start + frame(cmd, payload@));
    } else {
        assert(out@ =~= start + frame(cmd, payload@));
    }
}

/// Reads one command, with its payload where it carries one, from the
/// front of `stream`; also gives the number of bytes it took.
pub fn read_message(stream: &[u8]) -> (r: Result<(Message, usize), WireError>)
    ensures
        match frame_read(stream@) {
            Ok((c, p, used)) => r is Ok && message_is(r->Ok_0.0, c, p) && r->Ok_0.1 == used,
            Err(e) => r == Err::<(Message, usize), WireError>(e),
        },
{
    if stream.len() == 0 {
        return Err(WireError::UnexpectedEof);
    }
    let cmd = match command_from_tag(stream[0]) {
        Ok(c) => c,
        Err(e) => {
            return Err(e);
        },
    };
    assert(command_of_tag(stream@[0]) == Some(cmd));
    let (_, rest) = stream.split_at(1);
    assert(rest@ =~= stream@.drop_first());
    match cmd {
        Command::Play => Ok((Message::Play, 1)),
        Command::Pause => Ok((Message::Pause, 1)),
        Command::Repeat => Ok((Message::Repeat, 1)),
        Command::Transfer => match read_blob(rest) {
            Ok((p, used)) => Ok((Message::Transfer(p), used + 1)),
            Err(e) => Err(e),
        },
        Command::Reveal => match read_blob(rest) {
            Ok((p, used)) => Ok((Message::Reveal(p), used + 1)),
            Err(e) => Err(e),
        },
    }
}

/// Reading a command back from the front of what was written gives the
/// command and its payload, whatever bytes follow it.
pub proof fn lemma_frame_round_trip(c: Command, payload: Seq<u8>, rest: Seq<u8>)
    requires
        payload.len() <= u64::MAX,
    ensures
        frame_read(frame(c, payload) + rest) == (if carries_payload(c) {
            Ok::<(Command, Seq<u8>, nat), WireError>((c, payload, (9 + payload.len()) as nat))
        } else {
            Ok::<(Command, Seq<u8>, nat), WireError>((c, Seq::empty(), 1))
        }),
{
    let s = frame(c, payload) + rest;
    assert(s[0] == tag_of(c));
    if carries_payload(c) {
        assert(s.drop_first() =~= blob(payload) + rest);
        lemma_blob_round_trip(payload, rest);
    }
}

} // verus!
