use vstd::prelude::*;

verus! {

/// A square on the wire: its name in algebraic notation.
#[derive(Debug, Default)]
pub struct Cell {
    pub name: String,
}

/// A move on the wire: the square it starts from and the square it ends on.
#[derive(Debug, Default)]
pub struct MoveCommand {
    pub from: Cell,
    pub to: Cell,
}

/// The largest message that a frame can carry.
pub const MAX_FRAME: usize = 65535;

/// A message on a stream: its length in two bytes, high byte first, then the
/// message itself.
pub open spec fn frame_spec(payload: Seq<u8>) -> Seq<u8> {
    seq![(payload.len() / 256) as u8, (payload.len() % 256) as u8] + payload
}

/// The message length that the first two bytes of a stream announce.
pub open spec fn announced_len(buf: Seq<u8>) -> int
    recommends
        buf.len() >= 2,
{
    buf[0] as int * 256 + buf[1] as int
}

/// The stream holds a whole frame at its start.
pub open spec fn holds_frame(buf: Seq<u8>) -> bool {
    buf.len() >= 2 && buf.len() >= 2 + announced_len(buf)
}

/// Puts a message in a frame; a message longer than `MAX_FRAME` bytes cannot be.
pub fn frame(payload: &Vec<u8>) -> (r: Option<Vec<u8>>)
    ensures
        r is Some <==> payload@.len() <= MAX_FRAME,
        r matches Some(v) ==> v@ == frame_spec(payload@),
{
    let n = payload.len();
    if n > MAX_FRAME {
        return None;
    }
    let mut out: Vec<u8> = Vec::new();
    out.push((n / 256) as u8);
    out.push((n % 256) as u8);
    let mut i: usize = 0;
    while i < n
        invariant
            n == payload@.len(),
            n <= MAX_FRAME,
            i <= n,
            out@ == seq![(n / 256) as u8, (n % 256) as u8] + payload@.subrange(0, i as int),
        decreases n - i,
    {
        out.push(payload[i]);
        i = i + 1;
        proof {
            assert(payload@.subrange(0, i as int) =~= payload@.subrange(0, i - 1) + seq![
                payload@[i - 1],
            ]);
        }
    }
    proof {
        assert(payload@.subrange(0, n as int) =~= payload@);
    }
    Some(out)
}

/// Takes the first whole frame off a stream: its message, and how many bytes of
/// the stream it took. Gives nothing while the frame has not fully arrived.
pub fn split_frame(buf: &Vec<u8>) -> (r: Option<(Vec<u8>, usize)>)
    ensures
        r is Some <==> holds_frame(buf@),
        r matches Some((m, used)) ==> used == 2 + announced_len(buf@) && m@ == buf@.subrange(
            2,
            used as int,
        ),
{
    if buf.len() < 2 {
        return None;
    }
    let n: usize = buf[0] as usize * 256 + buf[1] as usize;
    if buf.len() - 2 < n {
        return None;
    }
    let mut m: Vec<u8> = Vec::new();
    let mut i: usize = 0;
    while i < n
        invariant
            n == announced_len(buf@),
            2 + n <= buf@.len(),
            i <= n,
            m@ == buf@.subrange(2, 2 + i as int),
        decreases n - i,
    {
        m.push(buf[2 + i]);
        i = i + 1;
        proof {
            assert(buf@.subrange(2, 2 + i as int) =~= buf@.subrange(2, 2 + i - 1) + seq![
                buf@[2 + i - 1],
            ]);
        }
    }
    Some((m, 2 + n))
}

/// A framed message, followed by anything, is taken back whole: the stream holds
/// a frame, it announces the message's length, and the message comes back.
pub proof fn lemma_frame_round_trip(payload: Seq<u8>, rest: Seq<u8>)
    requires
        payload.len() <= MAX_FRAME,
    ensures
        holds_frame(frame_spec(payload) + rest),
        announced_len(frame_spec(payload) + rest) == payload.len(),
        (frame_spec(payload) + rest).subrange(2, 2 + payload.len() as int) == payload,
{
    let n = payload.len() as int;
    let s = frame_spec(payload) + rest;
    assert(s[0] == (n / 256) as u8);
    assert(s[1] == (n % 256) as u8);
    assert((n / 256) as u8 as int == n / 256);
    assert((n % 256) as u8 as int == n % 256);
    assert(n / 256 * 256 + n % 256 == n);
    assert(s.subrange(2, 2 + n) =~= payload);
}

} // verus!
