use vstd::prelude::*;
use vstd::utf8::*;
use crate::link::Connection;

verus! {

/// Size of the buffer that one read fills at most.
pub const READ_BUFFER_LEN: usize = 1024;

/// Read timeout of an open port, in milliseconds: a read never blocks the
/// reader for longer.
pub const READ_TIMEOUT_MS: u64 = 10;

/// Pause of the reader between two reads, in milliseconds, with the guard
/// released.
pub const POLL_PAUSE_MS: u64 = 1;

/// What one read of the port gave.
pub enum ReadOutcome {
    /// This many bytes were placed at the start of the buffer.
    Received(usize),
    /// Nothing arrived within the read timeout.
    TimedOut,
    /// Any other failure of the read.
    Failed,
}

/// What the reader does after a read.
pub enum Tick {
    /// Hand this chunk to the sink, flush the port, and go on.
    Emit(String),
    /// Nothing to hand on this time; go on.
    Idle,
    /// Leave the loop.
    Stop,
}

/// The text that `String::from_utf8_lossy` makes of `bytes`.
pub uninterp spec fn lossy_text(bytes: Seq<u8>) -> Seq<char>;

/// Relies on `String::from_utf8_lossy`: the result depends on the bytes
/// alone, and valid UTF-8 comes out as the text it encodes.
#[verifier::external_body]
fn decode_lossy(bytes: &[u8]) -> (r: String)
    ensures
        r@ == lossy_text(bytes@),
        valid_utf8(bytes@) ==> r@ == decode_utf8(bytes@),
{
    String::from_utf8_lossy(bytes).into_owned()
}

/// Text of a chunk of bytes read from the port.
pub fn chunk_text(bytes: &[u8]) -> (r: String)
    ensures
        r@ == lossy_text(bytes@),
        valid_utf8(bytes@) ==> r@ == decode_utf8(bytes@),
{
    decode_lossy(bytes)
}

/// A zero-filled buffer of `READ_BUFFER_LEN` bytes.
pub fn new_buffer() -> (r: Vec<u8>)
    ensures
        r@ == Seq::new(READ_BUFFER_LEN as nat, |i: int| 0u8),
{
    let mut buf: Vec<u8> = Vec::new();
    while buf.len() < READ_BUFFER_LEN
        invariant
            buf@.len() <= READ_BUFFER_LEN,
            forall|i: int| 0 <= i < buf@.len() ==> buf@[i] == 0u8,
        decreases READ_BUFFER_LEN - buf@.len(),
    {
        buf.push(0u8);
    }
    assert(buf@ =~= Seq::new(READ_BUFFER_LEN as nat, |i: int| 0u8));
    buf
}

/// Sets every byte of `buf` to zero.
pub fn clear(buf: &mut Vec<u8>)
    ensures
        final(buf)@ == Seq::new(old(buf)@.len(), |i: int| 0u8),
{
    let ghost len = buf@.len();
    let mut i: usize = 0;
    while i < buf.len()
        invariant
            buf@.len() == len,
            i <= len,
            forall|j: int| 0 <= j < i ==> buf@[j] == 0u8,
        decreases len - i,
    {
        buf.set(i, 0u8);
        i += 1;
    }
    assert(buf@ =~= Seq::new(len, |i: int| 0u8));
}

/// Whether a reader for `session` goes on after a read with outcome `o`.
pub open spec fn goes_on<P>(c: Connection<P>, session: u64, o: ReadOutcome) -> bool {
    c.serves(session) && !(o is Failed)
}

/// The handle after a reader for `session` saw a read with outcome `o`.
pub open spec fn handle_after<P>(c: Connection<P>, session: u64, o: ReadOutcome) -> Connection<P> {
    if c.serves(session) && o is Failed {
        c.released()
    } else {
        c
    }
}

/// Whether a reader for `session` is still running after reads with the
/// outcomes `os`, in that order.
pub open spec fn runs_through<P>(c: Connection<P>, session: u64, os: Seq<ReadOutcome>) -> bool
    decreases os.len(),
{
    os.len() == 0 || (goes_on(c, session, os[0]) && runs_through(
        handle_after(c, session, os[0]),
        session,
        os.drop_first(),
    ))
}

/// The handle after a reader for `session` saw reads with the outcomes `os`.
pub open spec fn handle_through<P>(c: Connection<P>, session: u64, os: Seq<ReadOutcome>) -> Connection<P>
    decreases os.len(),
{
    if os.len() == 0 {
        c
    } else {
        handle_through(handle_after(c, session, os[0]), session, os.drop_first())
    }
}

/// Any number of timeouts in a row neither stops a reader whose session is
/// on nor changes the handle: the data that arrives next is still read.
pub proof fn timeouts_never_stop<P>(c: Connection<P>, session: u64, k: nat)
    requires
        c.serves(session),
    ensures
        runs_through(c, session, Seq::new(k, |i: int| ReadOutcome::TimedOut)),
        handle_through(c, session, Seq::new(k, |i: int| ReadOutcome::TimedOut)) == c,
    decreases k,
{
    let os = Seq::new(k, |i: int| ReadOutcome::TimedOut);
    if k > 0 {
        timeouts_never_stop(c, session, (k - 1) as nat);
        assert(os.drop_first() =~= Seq::new((k - 1) as nat, |i: int| ReadOutcome::TimedOut));
    }
}

/// Decoding valid UTF-8 commutes with joining byte sequences.
proof fn decode_join(a: Seq<u8>, b: Seq<u8>)
    requires
        valid_utf8(a),
        valid_utf8(b),
    ensures
        valid_utf8(a + b),
        decode_utf8(a + b) == decode_utf8(a) + decode_utf8(b),
    decreases a.len(),
{
    if a.len() == 0 {
        assert(a + b =~= b);
        assert(decode_utf8(a) =~= Seq::<char>::empty());
        assert(decode_utf8(a) + decode_utf8(b) =~= decode_utf8(b));
    } else {
        let ab = a + b;
        assert(forall|i: int| 0 <= i < a.len() ==> ab[i] == a[i]);
        assert(valid_first_scalar(ab));
        assert(decode_first_scalar(ab) == decode_first_scalar(a));
        assert(length_of_first_scalar(ab) == length_of_first_scalar(a));
        let rest = pop_first_scalar(a);
        assert(pop_first_scalar(ab) =~= rest + b);
        decode_join(rest, b);
        assert(decode_utf8(ab) =~= decode_utf8(a) + decode_utf8(b));
    }
}

/// All the bytes of `reads`, in order.
pub open spec fn joined(reads: Seq<Seq<u8>>) -> Seq<u8>
    decreases reads.len(),
{
    if reads.len() == 0 {
        Seq::empty()
    } else {
        joined(reads.drop_last()) + reads.last()
    }
}

/// The texts of `reads`, each decoded on its own, in order.
pub open spec fn texts(reads: Seq<Seq<u8>>) -> Seq<char>
    decreases reads.len(),
{
    if reads.len() == 0 {
        Seq::empty()
    } else {
        texts(reads.drop_last()) + decode_utf8(reads.last())
    }
}

/// Chunks that each hold the text of one read concatenate to the text of
/// all the bytes read, in the order they were read, however the bytes were
/// split between reads, as long as no read ends inside a character.
pub proof fn chunks_join_to_bytes(reads: Seq<Seq<u8>>)
    requires
        forall|i: int| 0 <= i < reads.len() ==> valid_utf8(#[trigger] reads[i]),
    ensures
        valid_utf8(joined(reads)),
        decode_utf8(joined(reads)) == texts(reads),
    decreases reads.len(),
{
    if reads.len() == 0 {
        assert(valid_utf8(joined(reads)));
        assert(decode_utf8(joined(reads)) =~= texts(reads));
    } else {
        let front = reads.drop_last();
        assert(forall|i: int| 0 <= i < front.len() ==> front[i] == reads[i]);
        chunks_join_to_bytes(front);
        assert(valid_utf8(reads[reads.len() - 1]));
        decode_join(joined(front), reads.last());
    }
}

/// Decides one step of the reader started for `session`, after a read of
/// the port into `buf` gave `outcome`.
///
/// A reader whose session has ended (the port was released or replaced)
/// stops and touches nothing. Bytes received become one chunk, and the
/// buffer is cleared. A timeout, or a read of no bytes, is an idle step. Any
/// other failure releases the port and stops the reader.
pub fn step<P>(conn: &mut Connection<P>, session: u64, outcome: ReadOutcome, buf: &mut Vec<u8>) -> (t: Tick)
    requires
        outcome matches ReadOutcome::Received(n) ==> n <= old(buf)@.len(),
    ensures
        *final(conn) == handle_after(*old(conn), session, outcome),
        (t is Stop) == !goes_on(*old(conn), session, outcome),
        !old(conn).serves(session) ==> t is Stop && *final(conn) == *old(conn) && final(buf)@ == old(buf)@,
        old(conn).serves(session) ==> match outcome {
            ReadOutcome::Received(n) => {
                &&& *final(conn) == *old(conn)
                &&& if n > 0 {
                    &&& t matches Tick::Emit(s) && s@ == lossy_text(old(buf)@.take(n as int))
                    &&& valid_utf8(old(buf)@.take(n as int)) ==> (t matches Tick::Emit(s) && s@ == decode_utf8(old(buf)@.take(n as int)))
                    &&& final(buf)@ == Seq::new(old(buf)@.len(), |i: int| 0u8)
                } else {
                    t is Idle && final(buf)@ == old(buf)@
                }
            },
            ReadOutcome::TimedOut => t is Idle && *final(conn) == *old(conn) && final(buf)@ == old(buf)@,
            ReadOutcome::Failed => {
                &&& t is Stop
                &&& final(conn).held() is None
                &&& final(conn).current() == old(conn).current()
                &&& final(buf)@ == old(buf)@
            },
        },
{
    if !conn.is_serving(session) {
        return Tick::Stop;
    }
    match outcome {
        ReadOutcome::Received(n) => {
            if n == 0 {
                Tick::Idle
            } else {
                let chunk = chunk_text(vstd::slice::slice_subrange(buf.as_slice(), 0, n));
                clear(buf);
                Tick::Emit(chunk)
            }
        },
        ReadOutcome::TimedOut => Tick::Idle,
        ReadOutcome::Failed => {
            let _ = conn.disconnect();
            Tick::Stop
        },
    }
}

} // verus!
