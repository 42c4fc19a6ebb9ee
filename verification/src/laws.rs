//! What holds across several calls on the in-memory backends and on the
//! forwarders, proved from the relations that the operations keep.
use vstd::prelude::*;
use crate::error::Error;
use crate::traits::{BufRead, Read, Write};

verus! {

/// Reading the first `k` bytes of a window and then the rest gives back the
/// window's bytes, all of them and in order, and leaves the window empty.
/// The second buffer may be longer than what is left.
pub proof fn lemma_split_read_reassembles(
    start: &[u8],
    mid: &[u8],
    end: &[u8],
    k: nat,
    first_before: Seq<u8>,
    first_after: Seq<u8>,
    first: Result<usize, Error>,
    rest_before: Seq<u8>,
    rest_after: Seq<u8>,
    rest: Result<usize, Error>,
)
    requires
        k <= start@.len(),
        first_before.len() == k,
        rest_before.len() >= start@.len() - k,
        start.read_ensures(&mid, first_before, first_after, first),
        mid.read_ensures(&end, rest_before, rest_after, rest),
    ensures
        first is Ok && first.unwrap() == k,
        rest is Ok && rest.unwrap() == start@.len() - k,
        first_after + rest_after.take(start@.len() - k) == start@,
        end@.len() == 0,
{
    assert(start@.len() == start.len());
}

/// After any number of writes a growing sink holds what it held before,
/// followed by every piece written, in the order of the writes.
pub proof fn lemma_sink_appends(
    states: Seq<Vec<u8>>,
    pieces: Seq<Seq<u8>>,
    results: Seq<Result<usize, Error>>,
)
    requires
        states.len() == pieces.len() + 1,
        results.len() == pieces.len(),
        forall|i: int|
            0 <= i < pieces.len() ==> states[i].write_ensures(
                &states[i + 1],
                #[trigger] pieces[i],
                results[i],
            ),
    ensures
        states.last()@ == states[0]@ + pieces.flatten(),
        forall|i: int| 0 <= i < pieces.len() ==> (#[trigger] results[i]) is Ok,
    decreases pieces.len(),
{
    if pieces.len() > 0 {
        let n = pieces.len() - 1;
        lemma_sink_appends(states.drop_last(), pieces.drop_last(), results.drop_last());
        assert(pieces =~= pieces.drop_last().push(pieces[n]));
        pieces.drop_last().lemma_flatten_push(pieces[n]);
        assert forall|i: int| 0 <= i < pieces.len() implies (#[trigger] results[i]) is Ok by {
            if i < n {
                assert(results.drop_last()[i] is Ok);
            }
        }
    }
}

/// Writing pieces one after another to a growing sink leaves it with the
/// bytes that a single write of the pieces joined together leaves.
pub proof fn lemma_sink_writes_concatenate(
    states: Seq<Vec<u8>>,
    pieces: Seq<Seq<u8>>,
    results: Seq<Result<usize, Error>>,
    joined: Vec<u8>,
    result: Result<usize, Error>,
)
    requires
        states.len() == pieces.len() + 1,
        results.len() == pieces.len(),
        forall|i: int|
            0 <= i < pieces.len() ==> states[i].write_ensures(
                &states[i + 1],
                #[trigger] pieces[i],
                results[i],
            ),
        states[0].write_ensures(&joined, pieces.flatten(), result),
    ensures
        states.last()@ == joined@,
{
    lemma_sink_appends(states, pieces, results);
}

/// Looking at a window twice without consuming in between shows the same
/// bytes both times.
pub proof fn lemma_window_peek_is_idempotent(
    start: &[u8],
    mid: &[u8],
    end: &[u8],
    first: Result<Seq<u8>, Error>,
    second: Result<Seq<u8>, Error>,
)
    requires
        start.fill_buf_ensures(&mid, first),
        mid.fill_buf_ensures(&end, second),
    ensures
        first is Ok,
        second == first,
{
}

/// Consuming `amt` of the bytes that a look at a window showed makes the next
/// look show the same bytes without their first `amt`.
pub proof fn lemma_window_consume_shortens_peek(
    start: &[u8],
    looked: &[u8],
    consumed: &[u8],
    end: &[u8],
    amt: usize,
    first: Result<Seq<u8>, Error>,
    second: Result<Seq<u8>, Error>,
)
    requires
        amt <= start@.len(),
        start.fill_buf_ensures(&looked, first),
        looked.consume_ensures(&consumed, amt),
        consumed.fill_buf_ensures(&end, second),
    ensures
        first is Ok,
        second is Ok,
        second.unwrap() == first.unwrap().skip(amt as int),
        second.unwrap().len() == first.unwrap().len() - amt,
{
}

/// One call on a buffered reader: the operation, what the caller handed in,
/// and what came back.
pub ghost enum Call {
    Initializer { zeroing: bool },
    Read { before: Seq<u8>, after: Seq<u8>, result: Result<usize, Error> },
    ReadExact { before: Seq<u8>, after: Seq<u8>, outcome: Result<(), Error> },
    ReadToEnd { before: Seq<u8>, after: Seq<u8>, result: Result<usize, Error> },
    ReadToString { text_before: Seq<char>, text_after: Seq<char>, result: Result<usize, Error> },
    FillBuf { shown: Result<Seq<u8>, Error> },
    Consume { amt: usize },
    ReadUntil { delim: u8, before: Seq<u8>, after: Seq<u8>, result: Result<usize, Error> },
    ReadLine { text_before: Seq<char>, text_after: Seq<char>, result: Result<usize, Error> },
}

/// `call` is a call that a reader in state `pre` accepts and that may leave
/// it in state `post`.
pub open spec fn step<B: BufRead>(pre: B, post: B, call: Call) -> bool {
    match call {
        Call::Initializer { zeroing } => post == pre && zeroing == pre.needs_zeroed_buffer(),
        Call::Read { before, after, result } => pre.read_ensures(&post, before, after, result),
        Call::ReadExact { before, after, outcome } => pre.read_exact_ensures(
            &post,
            before,
            after,
            outcome,
        ),
        Call::ReadToEnd { before, after, result } => pre.read_to_end_ensures(
            &post,
            before,
            after,
            result,
        ),
        Call::ReadToString { text_before, text_after, result } => pre.read_to_string_ensures(
            &post,
            text_before,
            text_after,
            result,
        ),
        Call::FillBuf { shown } => pre.fill_buf_ensures(&post, shown),
        Call::Consume { amt } => amt <= pre.available().len() && pre.consume_ensures(&post, amt),
        Call::ReadUntil { delim, before, after, result } => pre.read_until_ensures(
            &post,
            delim,
            before,
            after,
            result,
        ),
        Call::ReadLine { text_before, text_after, result } => pre.read_line_ensures(
            &post,
            text_before,
            text_after,
            result,
        ),
    }
}

/// A reader goes through `states` as `calls` are made on it, one after another.
pub open spec fn run<B: BufRead>(states: Seq<B>, calls: Seq<Call>) -> bool {
    &&& states.len() == calls.len() + 1
    &&& forall|i: int| 0 <= i < calls.len() ==> step(states[i], states[i + 1], #[trigger] calls[i])
}

/// The readers inside a sequence of boxes.
pub open spec fn unboxed<B>(boxes: Seq<Box<B>>) -> Seq<B> {
    Seq::new(boxes.len(), |i: int| *boxes[i])
}

/// A boxed reader behaves as the reader inside it: whatever calls and results
/// take the box through some states take the reader inside through the states
/// inside, and the other way round.
pub proof fn lemma_boxed_reader_is_transparent<B: BufRead>(states: Seq<Box<B>>, calls: Seq<Call>)
    ensures
        run(states, calls) <==> run(unboxed(states), calls),
{
}

/// Two calls ask for the same thing: the same operation with the same
/// arguments, whatever came back.
pub open spec fn same_request(a: Call, b: Call) -> bool {
    match (a, b) {
        (Call::Initializer { .. }, Call::Initializer { .. }) => true,
        (Call::Read { before: x, .. }, Call::Read { before: y, .. }) => x == y,
        (Call::ReadExact { before: x, .. }, Call::ReadExact { before: y, .. }) => x == y,
        (Call::ReadToEnd { before: x, .. }, Call::ReadToEnd { before: y, .. }) => x == y,
        (Call::ReadToString { text_before: x, .. }, Call::ReadToString { text_before: y, .. }) => x
            == y,
        (Call::FillBuf { .. }, Call::FillBuf { .. }) => true,
        (Call::Consume { amt: x }, Call::Consume { amt: y }) => x == y,
        (
            Call::ReadUntil { delim: d, before: x, .. },
            Call::ReadUntil { delim: e, before: y, .. },
        ) => d == e && x == y,
        (Call::ReadLine { text_before: x, .. }, Call::ReadLine { text_before: y, .. }) => x == y,
        _ => false,
    }
}

/// What a window does is decided by its bytes and the request: from windows
/// over the same bytes, the same request gives the same results and leaves
/// windows over the same bytes.
pub proof fn lemma_window_step_is_determined(
    pre1: &[u8],
    post1: &[u8],
    call1: Call,
    pre2: &[u8],
    post2: &[u8],
    call2: Call,
)
    requires
        pre1@ == pre2@,
        same_request(call1, call2),
        step(pre1, post1, call1),
        step(pre2, post2, call2),
    ensures
        call1 == call2,
        post1@ == post2@,
{
}

/// A boxed window gives what the window itself gives. Take a window in a box
/// and a window over the same bytes used directly, and make the same requests
/// of both, one after another: every call has the same results on both, and
/// after every call both are windows over the same bytes.
pub proof fn lemma_boxed_window_gives_the_same(
    boxed: Seq<Box<&[u8]>>,
    boxed_calls: Seq<Call>,
    direct: Seq<&[u8]>,
    direct_calls: Seq<Call>,
)
    requires
        run(boxed, boxed_calls),
        run(direct, direct_calls),
        boxed_calls.len() == direct_calls.len(),
        (*boxed[0])@ == direct[0]@,
        forall|i: int|
            0 <= i < boxed_calls.len() ==> same_request(
                #[trigger] boxed_calls[i],
                direct_calls[i],
            ),
    ensures
        boxed_calls == direct_calls,
        forall|i: int| 0 <= i < boxed.len() ==> (*#[trigger] boxed[i])@ == direct[i]@,
    decreases boxed_calls.len(),
{
    if boxed_calls.len() > 0 {
        let n = boxed_calls.len() - 1;
        lemma_boxed_window_gives_the_same(
            boxed.drop_last(),
            boxed_calls.drop_last(),
            direct.drop_last(),
            direct_calls.drop_last(),
        );
        assert((*boxed.drop_last()[n])@ == direct.drop_last()[n]@);
        lemma_window_step_is_determined(
            *boxed[n],
            *boxed[n + 1],
            boxed_calls[n],
            direct[n],
            direct[n + 1],
            direct_calls[n],
        );
        assert forall|i: int| 0 <= i < boxed.len() implies (*#[trigger] boxed[i])@
            == direct[i]@ by {
            if i <= n {
                assert((*boxed.drop_last()[i])@ == direct.drop_last()[i]@);
            }
        }
    }
}

} // verus!
