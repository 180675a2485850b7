//! Byte chunks and the decisions of the stream relays that move them between
//! a child's pipes and in-process channels.
use vstd::prelude::*;

verus! {

/// One chunk of a child's output or input, as a single read returned it.
pub type BinarySequence = Vec<u8>;

/// Depth of each output broadcast.
pub const BROADCAST_CAPACITY: usize = 8;

/// Depth of the stdin queue.
pub const STDIN_CAPACITY: usize = 8;

/// Size of the buffer each output read goes into.
pub const READ_CHUNK_SIZE: usize = 128;

/// What the output relay does after one read.
pub enum OutputStep {
    /// Broadcast these bytes as one chunk and read again.
    Publish(BinarySequence),
    /// The source reached end of stream: stop, closing the broadcast.
    Finish,
}

/// The chunk that a read of `read` bytes publishes; none at end of stream.
pub open spec fn published(read: Seq<u8>) -> Option<Seq<u8>> {
    if read.len() == 0 {
        None
    } else {
        Some(read)
    }
}

impl OutputStep {
    pub open spec fn view(&self) -> Option<Seq<u8>> {
        match self {
            OutputStep::Publish(c) => Some(c@),
            OutputStep::Finish => None,
        }
    }
}

/// The output relay's decision after a read that filled the first `n` bytes
/// of `buf`: a read of nothing is end of stream, whether or not the child is
/// still alive; any other read is published whole, as one chunk.
pub fn output_step(buf: &[u8], n: usize) -> (r: OutputStep)
    requires
        n <= buf@.len(),
    ensures
        r@ == published(buf@.subrange(0, n as int)),
{
    if n == 0 {
        return OutputStep::Finish;
    }
    let mut chunk: Vec<u8> = Vec::with_capacity(n);
    let mut i: usize = 0;
    while i < n
        invariant
            i <= n <= buf@.len(),
            chunk@ == buf@.subrange(0, i as int),
        decreases n - i,
    {
        chunk.push(buf[i]);
        proof {
            assert(buf@.subrange(0, i + 1) =~= buf@.subrange(0, i as int).push(buf@[i as int]));
        }
        i = i + 1;
    }
    OutputStep::Publish(chunk)
}

/// What the input relay does with what its queue handed over.
pub enum InputStep {
    /// Write these bytes to the child's stdin.
    Write(BinarySequence),
    /// Every sender is gone: stop, closing the child's stdin.
    Finish,
}

/// What the input relay writes for one receive: the received chunk as it
/// is; nothing, and the relay stops, once every sender is gone.
pub open spec fn input_action(received: Option<Seq<u8>>) -> Option<Seq<u8>> {
    received
}

/// What an input step writes.
pub open spec fn written(step: InputStep) -> Option<Seq<u8>> {
    match step {
        InputStep::Write(w) => Some(w@),
        InputStep::Finish => None,
    }
}

/// The input relay's decision on one receive from the stdin queue.
pub fn input_step(received: Option<BinarySequence>) -> (r: InputStep)
    ensures
        written(r) == input_action(
            match received {
                Some(c) => Some(c@),
                None => None,
            },
        ),
{
    match received {
        Some(chunk) => InputStep::Write(chunk),
        None => InputStep::Finish,
    }
}

/// The chunks that an output relay publishes for successive reads: one per
/// read, up to the first read of nothing.
pub open spec fn relay_run(reads: Seq<Seq<u8>>) -> Seq<Seq<u8>>
    decreases reads.len(),
{
    if reads.len() == 0 {
        Seq::empty()
    } else {
        match published(reads[0]) {
            None => Seq::empty(),
            Some(c) => seq![c] + relay_run(reads.drop_first()),
        }
    }
}

/// The bytes of a sequence of chunks, in order.
pub open spec fn concat(chunks: Seq<Seq<u8>>) -> Seq<u8>
    decreases chunks.len(),
{
    if chunks.len() == 0 {
        Seq::empty()
    } else {
        chunks[0] + concat(chunks.drop_first())
    }
}

/// The number of reads before the first read of nothing.
pub open spec fn reads_before_end(reads: Seq<Seq<u8>>) -> nat
    decreases reads.len(),
{
    if reads.len() == 0 || reads[0].len() == 0 {
        0
    } else {
        1 + reads_before_end(reads.drop_first())
    }
}

proof fn lemma_reads_before_end_bound(reads: Seq<Seq<u8>>)
    ensures
        reads_before_end(reads) <= reads.len(),
    decreases reads.len(),
{
    if reads.len() > 0 && reads[0].len() > 0 {
        lemma_reads_before_end_bound(reads.drop_first());
    }
}

/// The output relay neither drops, reorders, splits nor merges bytes: the
/// chunks it publishes are exactly the reads before end of stream, in
/// order, so their bytes are the bytes read before end of stream.
pub proof fn relay_keeps_bytes_in_order(reads: Seq<Seq<u8>>)
    ensures
        relay_run(reads) == reads.take(reads_before_end(reads) as int),
        concat(relay_run(reads)) == concat(reads.take(reads_before_end(reads) as int)),
    decreases reads.len(),
{
    if reads.len() == 0 {
        assert(reads.take(0) =~= Seq::<Seq<u8>>::empty());
    } else if reads[0].len() == 0 {
        assert(reads.take(0) =~= Seq::<Seq<u8>>::empty());
    } else {
        relay_keeps_bytes_in_order(reads.drop_first());
        lemma_reads_before_end_bound(reads.drop_first());
        let k = reads_before_end(reads.drop_first()) as int;
        assert(reads.take(k + 1) =~= seq![reads[0]] + reads.drop_first().take(k));
    }
}

/// The bytes that sent chunks arrive as, up to the close of the queue: the
/// chunks themselves, unwrapped, in the order sent.
pub open spec fn sent_before_close(received: Seq<Option<Seq<u8>>>) -> Seq<Seq<u8>>
    decreases received.len(),
{
    if received.len() == 0 {
        Seq::empty()
    } else {
        match received[0] {
            None => Seq::empty(),
            Some(c) => seq![c] + sent_before_close(received.drop_first()),
        }
    }
}

/// The writes the input relay makes over successive receives, each decided
/// by `input_action`, until the first receive that finishes it.
pub open spec fn input_relay_writes(received: Seq<Option<Seq<u8>>>) -> Seq<Seq<u8>>
    decreases received.len(),
{
    if received.len() == 0 {
        Seq::empty()
    } else {
        match input_action(received[0]) {
            None => Seq::empty(),
            Some(w) => seq![w] + input_relay_writes(received.drop_first()),
        }
    }
}

/// The input relay hands the child what a single producer sent, in order:
/// one write per chunk, each chunk unchanged, in the order received, and
/// nothing after the queue closed.
pub proof fn stdin_relay_keeps_order(received: Seq<Option<Seq<u8>>>)
    ensures
        input_relay_writes(received) == sent_before_close(received),
    decreases received.len(),
{
    if received.len() > 0 {
        stdin_relay_keeps_order(received.drop_first());
    }
}

} // verus!
