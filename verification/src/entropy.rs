//! Entropy from the host, one bounded call at a time.

use crate::storage::StorageError;
use crate::trace::{bump, HostCall, Trace};
use vstd::prelude::*;

verus! {

/// The host rejects a request for more random bytes than this outright.
pub const MAX_ENTROPY_PER_CALL: usize = 256;

/// How far the filling of a buffer has come.
#[derive(Debug)]
pub struct EntropyFill {
    len: usize,
    filled: usize,
    stopped: bool,
}

/// What an [`EntropyFill`] is.
pub struct FillView {
    /// The size of the buffer.
    pub len: int,
    /// How many of its bytes are filled, from the start.
    pub filled: int,
    /// Whether the host has run out of entropy.
    pub stopped: bool,
}

impl View for EntropyFill {
    type V = FillView;

    closed spec fn view(&self) -> FillView {
        FillView { len: self.len as int, filled: self.filled as int, stopped: self.stopped }
    }
}

impl FillView {
    /// The start of the filling of a buffer of `len` bytes.
    pub open spec fn start(len: int) -> FillView {
        FillView { len, filled: 0, stopped: false }
    }

    /// Whether there is nothing left to ask for.
    pub open spec fn done(self) -> bool {
        self.stopped || self.filled == self.len
    }

    /// How many bytes to ask for next.
    pub open spec fn want(self) -> int {
        if self.len - self.filled <= MAX_ENTROPY_PER_CALL {
            self.len - self.filled
        } else {
            MAX_ENTROPY_PER_CALL as int
        }
    }

    /// How many bytes of an answer are used.
    pub open spec fn taken(self, reply: Result<Seq<u8>, StorageError>) -> int {
        match reply {
            Ok(bytes) => if bytes.len() <= self.want() {
                bytes.len() as int
            } else {
                self.want()
            },
            Err(_) => 0,
        }
    }

    /// The filling after an answer. An answer without bytes ends it.
    pub open spec fn after(self, reply: Result<Seq<u8>, StorageError>) -> FillView {
        FillView {
            len: self.len,
            filled: self.filled + self.taken(reply),
            stopped: self.taken(reply) == 0,
        }
    }

    /// The buffer after an answer: its used bytes stand behind those filled before.
    pub open spec fn buffer_after(
        self,
        buffer: Seq<u8>,
        reply: Result<Seq<u8>, StorageError>,
    ) -> Seq<u8> {
        Seq::new(
            buffer.len(),
            |i: int|
                if self.filled <= i < self.filled + self.taken(reply) {
                    reply->Ok_0[i - self.filled]
                } else {
                    buffer[i]
                },
        )
    }
}

/// What an answer of the host holds.
pub open spec fn bytes_of(reply: Result<Vec<u8>, StorageError>) -> Result<Seq<u8>, StorageError> {
    match reply {
        Ok(bytes) => Ok(bytes@),
        Err(error) => Err(error),
    }
}

impl EntropyFill {
    #[verifier::type_invariant]
    spec fn holds(self) -> bool {
        self.filled <= self.len
    }

    /// Starts to fill a buffer of `len` bytes.
    pub fn start(len: usize) -> (fill: EntropyFill)
        ensures
            fill@ == FillView::start(len as int),
    {
        EntropyFill { len, filled: 0, stopped: false }
    }

    /// How many bytes to ask the host for next, with the call counted, and
    /// nothing once the filling is done.
    pub fn request(&self, trace: &mut Trace) -> (want: Option<u32>)
        requires
            !self@.done() ==> old(trace)@.counted(HostCall::Random).fits(),
        ensures
            match want {
                Some(want) => {
                    &&& !self@.done()
                    &&& want == self@.want()
                    &&& 0 < want <= MAX_ENTROPY_PER_CALL
                    &&& final(trace)@ == old(trace)@.counted(HostCall::Random)
                },
                None => self@.done() && final(trace)@ == old(trace)@,
            },
    {
        proof {
            use_type_invariant(self);
        }
        if self.stopped || self.filled == self.len {
            return None;
        }
        bump(trace, HostCall::Random);
        Some(self.want() as u32)
    }

    /// How many bytes to ask for next.
    fn want(&self) -> (want: usize)
        ensures
            want == self@.want(),
    {
        proof {
            use_type_invariant(self);
        }
        let left: usize = self.len - self.filled;
        if left <= MAX_ENTROPY_PER_CALL {
            left
        } else {
            MAX_ENTROPY_PER_CALL
        }
    }

    /// Takes the host's answer into the buffer.
    pub fn accept(self, reply: Result<Vec<u8>, StorageError>, buffer: &mut [u8]) -> (next:
        EntropyFill)
        requires
            old(buffer)@.len() == self@.len,
        ensures
            next@ == self@.after(bytes_of(reply)),
            final(buffer)@ == self@.buffer_after(old(buffer)@, bytes_of(reply)),
    {
        proof {
            use_type_invariant(&self);
        }
        let want = self.want();
        let ghost before = buffer@;
        let bytes = match reply {
            Ok(bytes) => bytes,
            Err(_) => {
                assert(buffer@ == self@.buffer_after(before, bytes_of(reply)));
                return EntropyFill { len: self.len, filled: self.filled, stopped: true };
            },
        };
        let taken: usize = if bytes.len() <= want {
            bytes.len()
        } else {
            want
        };
        let start: usize = self.filled;
        for at in 0..taken
            invariant
                taken <= bytes.len(),
                start + taken <= buffer@.len(),
                start + taken <= usize::MAX,
                buffer@.len() == before.len(),
                forall|i: int|
                    0 <= i < before.len() ==> #[trigger] buffer@[i] == if start <= i < start + at {
                        bytes@[i - start]
                    } else {
                        before[i]
                    },
        {
            buffer[start + at] = bytes[at];
        }
        assert(buffer@ == self@.buffer_after(before, Ok(bytes@)));
        EntropyFill { len: self.len, filled: start + taken, stopped: taken == 0 }
    }

    /// How many bytes of the buffer are filled.
    pub fn filled(&self) -> (filled: usize)
        ensures
            filled == self@.filled,
    {
        self.filled
    }

    /// Whether the whole buffer is filled.
    pub fn complete(&self) -> (complete: bool)
        ensures
            complete == (self@.filled == self@.len),
    {
        self.filled == self.len
    }
}

/// The filling after these answers, up to where it is done.
pub open spec fn filled_by(fill: FillView, replies: Seq<Result<Seq<u8>, StorageError>>) -> FillView
    decreases replies.len(),
{
    if replies.len() == 0 || fill.done() {
        fill
    } else {
        filled_by(fill.after(replies[0]), replies.drop_first())
    }
}

/// The number of calls that are made for these answers.
pub open spec fn calls_for(fill: FillView, replies: Seq<Result<Seq<u8>, StorageError>>) -> nat
    decreases replies.len(),
{
    if replies.len() == 0 || fill.done() {
        0
    } else {
        1 + calls_for(fill.after(replies[0]), replies.drop_first())
    }
}

/// The buffer after these answers.
pub open spec fn buffer_filled_by(
    fill: FillView,
    buffer: Seq<u8>,
    replies: Seq<Result<Seq<u8>, StorageError>>,
) -> Seq<u8>
    decreases replies.len(),
{
    if replies.len() == 0 || fill.done() {
        buffer
    } else {
        buffer_filled_by(
            fill.after(replies[0]),
            fill.buffer_after(buffer, replies[0]),
            replies.drop_first(),
        )
    }
}

/// Whether each answer holds all that its call asks for.
pub open spec fn generous(fill: FillView, replies: Seq<Result<Seq<u8>, StorageError>>) -> bool
    decreases replies.len(),
{
    replies.len() == 0 || fill.done() || {
        &&& replies[0] is Ok
        &&& replies[0]->Ok_0.len() >= fill.want()
        &&& generous(fill.after(replies[0]), replies.drop_first())
    }
}

/// The number of calls that fill `len` bytes when each answer is full.
pub open spec fn calls_needed(len: int) -> int {
    (len + MAX_ENTROPY_PER_CALL - 1) / (MAX_ENTROPY_PER_CALL as int)
}

/// The bytes filled never exceed the buffer, and the filling stays within it.
pub proof fn filling_stays_in_bounds(
    fill: FillView,
    replies: Seq<Result<Seq<u8>, StorageError>>,
)
    requires
        0 <= fill.filled <= fill.len,
    ensures
        filled_by(fill, replies).len == fill.len,
        fill.filled <= filled_by(fill, replies).filled <= fill.len,
    decreases replies.len(),
{
    if replies.len() > 0 && !fill.done() {
        filling_stays_in_bounds(fill.after(replies[0]), replies.drop_first());
    }
}

/// A filling ends short of the buffer only where the host refused a call or
/// gave no bytes: otherwise it goes on.
pub proof fn filling_ends_full_or_refused(
    fill: FillView,
    replies: Seq<Result<Seq<u8>, StorageError>>,
)
    requires
        0 <= fill.filled <= fill.len,
        !fill.stopped,
        filled_by(fill, replies).done(),
        filled_by(fill, replies).filled < fill.len,
    ensures
        exists|i: int|
            0 <= i < replies.len() && match #[trigger] replies[i] {
                Ok(bytes) => bytes.len() == 0,
                Err(_) => true,
            },
    decreases replies.len(),
{
    if replies.len() > 0 && !fill.done() {
        let rest = replies.drop_first();
        if fill.after(replies[0]).stopped {
            assert(fill.taken(replies[0]) == 0);
            assert(match replies[0] {
                Ok(bytes) => bytes.len() == 0,
                Err(_) => true,
            });
        } else {
            filling_ends_full_or_refused(fill.after(replies[0]), rest);
            let i = choose|i: int|
                0 <= i < rest.len() && match #[trigger] rest[i] {
                    Ok(bytes) => bytes.len() == 0,
                    Err(_) => true,
                };
            assert(replies[i + 1] == rest[i]);
        }
    }
}

/// Where each answer is full, a buffer is filled to its last byte, and the
/// number of calls is its size over the bound on one call, rounded up.
pub proof fn full_answers_fill_the_buffer(
    fill: FillView,
    replies: Seq<Result<Seq<u8>, StorageError>>,
)
    requires
        0 <= fill.filled <= fill.len,
        !fill.stopped,
        generous(fill, replies),
        replies.len() >= calls_needed(fill.len - fill.filled),
    ensures
        filled_by(fill, replies).filled == fill.len,
        calls_for(fill, replies) == calls_needed(fill.len - fill.filled),
    decreases replies.len(),
{
    if !fill.done() {
        assert(calls_needed(fill.len - fill.filled) >= 1);
        let after = fill.after(replies[0]);
        assert(after.filled == fill.filled + fill.want());
        assert(calls_needed(fill.len - after.filled) == calls_needed(fill.len - fill.filled) - 1);
        full_answers_fill_the_buffer(after, replies.drop_first());
    }
}

/// The bytes of a buffer behind those that are filled are left as they were.
pub proof fn rest_of_the_buffer_is_kept(
    fill: FillView,
    buffer: Seq<u8>,
    replies: Seq<Result<Seq<u8>, StorageError>>,
)
    requires
        0 <= fill.filled <= fill.len,
        buffer.len() == fill.len,
    ensures
        ({
            let end = filled_by(fill, replies).filled;
            let after = buffer_filled_by(fill, buffer, replies);
            &&& after.len() == buffer.len()
            &&& forall|i: int| end <= i < buffer.len() ==> #[trigger] after[i] == buffer[i]
            &&& forall|i: int| 0 <= i < fill.filled ==> #[trigger] after[i] == buffer[i]
        }),
    decreases replies.len(),
{
    if replies.len() > 0 && !fill.done() {
        let next = fill.after(replies[0]);
        filling_stays_in_bounds(next, replies.drop_first());
        rest_of_the_buffer_is_kept(
            next,
            fill.buffer_after(buffer, replies[0]),
            replies.drop_first(),
        );
    }
}

/// The bytes that are used of these answers, in order.
pub open spec fn bytes_used(fill: FillView, replies: Seq<Result<Seq<u8>, StorageError>>) -> Seq<u8>
    decreases replies.len(),
{
    if replies.len() == 0 || fill.done() {
        Seq::empty()
    } else {
        (match replies[0] {
            Ok(bytes) => bytes.take(fill.taken(replies[0])),
            Err(_) => Seq::empty(),
        }) + bytes_used(fill.after(replies[0]), replies.drop_first())
    }
}

/// What a filling puts into a buffer are the bytes of the answers, one answer
/// behind the other and none of them twice.
pub proof fn filled_bytes_are_the_answers(
    fill: FillView,
    buffer: Seq<u8>,
    replies: Seq<Result<Seq<u8>, StorageError>>,
)
    requires
        0 <= fill.filled <= fill.len,
        buffer.len() == fill.len,
    ensures
        buffer_filled_by(fill, buffer, replies).subrange(
            fill.filled,
            filled_by(fill, replies).filled,
        ) == bytes_used(fill, replies),
    decreases replies.len(),
{
    filling_stays_in_bounds(fill, replies);
    let end = filled_by(fill, replies).filled;
    let after = buffer_filled_by(fill, buffer, replies);
    rest_of_the_buffer_is_kept(fill, buffer, replies);
    if replies.len() > 0 && !fill.done() {
        let next = fill.after(replies[0]);
        let filled = fill.buffer_after(buffer, replies[0]);
        let rest = replies.drop_first();
        filling_stays_in_bounds(next, rest);
        filled_bytes_are_the_answers(next, filled, rest);
        rest_of_the_buffer_is_kept(next, filled, rest);
        assert(after.subrange(fill.filled, end) =~= filled.subrange(fill.filled, next.filled)
            + after.subrange(next.filled, end));
        assert(filled.subrange(fill.filled, next.filled) =~= (match replies[0] {
            Ok(bytes) => bytes.take(fill.taken(replies[0])),
            Err(_) => Seq::empty(),
        }));
    } else {
        assert(after.subrange(fill.filled, end) =~= Seq::<u8>::empty());
    }
}

/// The number that bytes stand for, the least significant first.
pub open spec fn little_endian(bytes: Seq<u8>) -> nat
    decreases bytes.len(),
{
    if bytes.len() == 0 {
        0
    } else {
        bytes[0] as nat + 256 * little_endian(bytes.drop_first())
    }
}

/// The signed number whose two's complement in 64 bits is `n`.
pub open spec fn as_signed(n: nat) -> int {
    if n < 0x8000_0000_0000_0000 {
        n as int
    } else {
        n - 0x1_0000_0000_0000_0000
    }
}

/// The random number that eight bytes of entropy stand for.
pub fn random_number(bytes: [u8; 8]) -> (number: i64)
    ensures
        number == as_signed(little_endian(bytes@)),
{
    let mut n: u64 = 0;
    let mut at: usize = 8;
    assert(bytes@.skip(8) == Seq::<u8>::empty());
    let ghost mut bound: int = 1;
    while at > 0
        invariant
            at <= 8,
            n == little_endian(bytes@.skip(at as int)),
            n < bound,
            bound == power(8 - at),
        decreases at,
    {
        at = at - 1;
        let ghost tail = bytes@.skip(at as int);
        assert(tail.drop_first() == bytes@.skip(at + 1));
        assert(tail[0] == bytes@[at as int]);
        proof {
            power_bound(8 - at - 1);
            bound = bound * 256;
        }
        n = n * 256 + bytes[at] as u64;
    }
    assert(bytes@.skip(0) == bytes@);
    assert(n < 0x8000_0000_0000_0000 ==> (n as i64) == n) by (bit_vector);
    assert(n >= 0x8000_0000_0000_0000 ==> (n as i64) == n - 0x1_0000_0000_0000_0000)
        by (bit_vector);
    n as i64
}

/// The power of 256.
spec fn power(exponent: int) -> int
    decreases exponent,
{
    if exponent <= 0 {
        1
    } else {
        power(exponent - 1) * 256
    }
}

proof fn power_bound(exponent: int)
    requires
        exponent <= 7,
    ensures
        power(exponent) * 256 <= 0x1_0000_0000_0000_0000,
{
    reveal_with_fuel(power, 9);
}

/// A call asks for all that is missing, and for no more than the host gives at
/// once. Every byte of the answer up to that is used, in the order of the
/// answer and right behind the bytes filled before; nothing else of the buffer
/// changes. The filling goes on as long as an answer brings a byte and one is
/// missing.
pub proof fn every_byte_asked_for_is_used(
    fill: FillView,
    buffer: Seq<u8>,
    bytes: Seq<u8>,
    error: StorageError,
)
    requires
        0 <= fill.filled <= fill.len,
        buffer.len() == fill.len,
    ensures
        fill.want() <= 256,
        fill.want() == fill.len - fill.filled || fill.want() == 256 && fill.len - fill.filled > 256,
        ({
            let used = if bytes.len() <= fill.want() {
                bytes.len() as int
            } else {
                fill.want()
            };
            &&& fill.after(Ok(bytes)).filled == fill.filled + used
            &&& fill.after(Ok(bytes)).stopped == (used == 0)
            &&& fill.buffer_after(buffer, Ok(bytes)) == buffer.take(fill.filled) + bytes.take(used)
                + buffer.skip(fill.filled + used)
        }),
        fill.after(Ok(bytes)).len == fill.len,
        fill.after(Err(error)) == (FillView { stopped: true, ..fill }),
        fill.buffer_after(buffer, Err(error)) == buffer,
        fill.done() <==> fill.stopped || fill.filled == fill.len,
        FillView::start(fill.len) == (FillView { len: fill.len, filled: 0, stopped: false }),
{
    let used = if bytes.len() <= fill.want() {
        bytes.len() as int
    } else {
        fill.want()
    };
    assert(fill.buffer_after(buffer, Ok(bytes)) =~= buffer.take(fill.filled) + bytes.take(used)
        + buffer.skip(fill.filled + used));
    assert(fill.buffer_after(buffer, Err(error)) =~= buffer);
}

/// Eight bytes stand for the number in which each weighs 256 times as much as
/// the one before it, and the random number is that number up to a multiple of
/// two to the power of 64, in the range of a signed number.
pub proof fn random_number_weighs_its_bytes(bytes: Seq<u8>)
    requires
        bytes.len() == 8,
    ensures
        little_endian(bytes) == bytes[0] + 0x100 * bytes[1] + 0x1_0000 * bytes[2] + 0x100_0000
            * bytes[3] + 0x1_0000_0000 * bytes[4] + 0x100_0000_0000 * bytes[5] + 0x1_0000_0000_0000
            * bytes[6] + 0x100_0000_0000_0000 * bytes[7],
        as_signed(little_endian(bytes)) == little_endian(bytes) || as_signed(little_endian(bytes))
            == little_endian(bytes) - 0x1_0000_0000_0000_0000,
        i64::MIN <= as_signed(little_endian(bytes)) <= i64::MAX,
{
    reveal_with_fuel(little_endian, 9);
    let one = bytes.drop_first();
    let two = one.drop_first();
    let three = two.drop_first();
    let four = three.drop_first();
    let five = four.drop_first();
    let six = five.drop_first();
    let seven = six.drop_first();
    assert(seven.drop_first() =~= Seq::<u8>::empty());
    assert(little_endian(seven) == bytes[7]);
    assert(little_endian(six) == bytes[6] + 256 * little_endian(seven));
    assert(little_endian(five) == bytes[5] + 256 * little_endian(six));
    assert(little_endian(four) == bytes[4] + 256 * little_endian(five));
    assert(little_endian(three) == bytes[3] + 256 * little_endian(four));
    assert(little_endian(two) == bytes[2] + 256 * little_endian(three));
    assert(little_endian(one) == bytes[1] + 256 * little_endian(two));
}

/// An answer of the host holds its bytes, or the refusal that it is.
pub proof fn answer_holds_its_bytes(bytes: Vec<u8>, error: StorageError)
    ensures
        bytes_of(Ok(bytes)) == Ok::<Seq<u8>, StorageError>(bytes@),
        bytes_of(Err(error)) == Err::<Seq<u8>, StorageError>(error),
{
}

} // verus!
