use vstd::prelude::*;
use vstd::string::StringSliceAdditionalSpecFns;

verus! {

/// Written before the buffered bytes when the sink is replayed.
pub const REPLAY_HEADER: &'static str = "===== buffered log output =====\n";

/// Written after the buffered bytes when the sink is replayed.
pub const REPLAY_FOOTER: &'static str = "===== end of buffered log output =====\n";

pub open spec fn replay_header() -> Seq<u8> {
    REPLAY_HEADER.spec_bytes()
}

pub open spec fn replay_footer() -> Seq<u8> {
    REPLAY_FOOTER.spec_bytes()
}

/// What a replay writes for a sink holding `s`: the header, every byte of
/// the sink verbatim, and the footer.
pub open spec fn replay_of(s: Seq<u8>) -> Seq<u8> {
    replay_header() + s + replay_footer()
}

/// The sink's contents after appending each chunk of `chunks` in order to
/// a sink that held `s`.
pub open spec fn after_appends(s: Seq<u8>, chunks: Seq<Seq<u8>>) -> Seq<u8>
    decreases chunks.len(),
{
    if chunks.len() == 0 {
        s
    } else {
        after_appends(s + chunks[0], chunks.drop_first())
    }
}

/// All chunks joined in order.
pub open spec fn joined(chunks: Seq<Seq<u8>>) -> Seq<u8>
    decreases chunks.len(),
{
    if chunks.len() == 0 {
        Seq::empty()
    } else {
        chunks[0] + joined(chunks.drop_first())
    }
}

/// `inner` stands as one contiguous run inside `outer`.
pub open spec fn contains_run(outer: Seq<u8>, inner: Seq<u8>) -> bool {
    exists|k: int| 0 <= k && k + inner.len() <= outer.len()
        && #[trigger] outer.subrange(k, k + inner.len()) == inner
}

/// Appending chunks one after another leaves the sink holding what it held
/// before, followed by the chunks joined in order.
pub proof fn lemma_appends_join(start: Seq<u8>, chunks: Seq<Seq<u8>>)
    ensures
        after_appends(start, chunks) == start + joined(chunks),
    decreases chunks.len(),
{
    if chunks.len() > 0 {
        lemma_appends_join(start + chunks[0], chunks.drop_first());
        assert(start + chunks[0] + joined(chunks.drop_first()) =~= start + joined(chunks));
    } else {
        assert(start + joined(chunks) =~= start);
    }
}

/// Replay is complete: after any series of appends, a replay writes the
/// appended chunks, joined in the order they were made and byte for byte,
/// as one contiguous run.
pub proof fn lemma_replay_complete(start: Seq<u8>, chunks: Seq<Seq<u8>>)
    ensures
        contains_run(replay_of(after_appends(start, chunks)), joined(chunks)),
{
    lemma_appends_join(start, chunks);
    let j = joined(chunks);
    let out = replay_of(after_appends(start, chunks));
    let k: int = (replay_header().len() + start.len()) as int;
    assert(out =~= replay_header() + start + j + replay_footer());
    assert(out.subrange(k, k + j.len()) =~= j);
    assert(0 <= k && k + j.len() <= out.len());
}

/// An append-only in-memory record of log output. Bytes are only ever
/// added at the end; nothing is removed, reordered or changed.
pub struct LogSink {
    bytes: Vec<u8>,
}

impl View for LogSink {
    type V = Seq<u8>;

    closed spec fn view(&self) -> Seq<u8> {
        self.bytes@
    }
}

/// Appends every byte of `src` to `dst`, in order.
fn push_all(dst: &mut Vec<u8>, src: &[u8])
    ensures
        final(dst)@ == old(dst)@ + src@,
{
    let mut i: usize = 0;
    while i < src.len()
        invariant
            i <= src@.len(),
            dst@ == old(dst)@ + src@.subrange(0, i as int),
        decreases src@.len() - i,
    {
        dst.push(src[i]);
        i = i + 1;
        assert(dst@ =~= old(dst)@ + src@.subrange(0, i as int));
    }
    assert(src@.subrange(0, i as int) =~= src@);
}

impl LogSink {
    /// An empty sink.
    pub fn new() -> (r: LogSink)
        ensures
            r@ == Seq::<u8>::empty(),
    {
        LogSink { bytes: Vec::new() }
    }

    /// Appends `b` at the end, as one run.
    pub fn append(&mut self, b: &[u8])
        ensures
            final(self)@ == old(self)@ + b@,
    {
        push_all(&mut self.bytes, b);
    }

    /// Appends one line read from a worker's output stream, followed by a
    /// newline.
    pub fn append_line(&mut self, line: &[u8])
        ensures
            final(self)@ == old(self)@ + line@ + seq![10u8],
    {
        push_all(&mut self.bytes, line);
        self.bytes.push(10u8);
    }

    /// The number of bytes held.
    pub fn len(&self) -> (r: usize)
        ensures
            r == self@.len(),
    {
        self.bytes.len()
    }

    /// The bytes held, in the order they were appended.
    pub fn contents(&self) -> (r: &[u8])
        ensures
            r@ == self@,
    {
        self.bytes.as_slice()
    }

    /// Writes the header, the whole buffer and the footer at the end of
    /// `out`. The sink itself is left as it was.
    pub fn replay(&self, out: &mut Vec<u8>)
        ensures
            final(out)@ == old(out)@ + replay_of(self@),
    {
        push_all(out, REPLAY_HEADER.as_bytes());
        push_all(out, self.bytes.as_slice());
        push_all(out, REPLAY_FOOTER.as_bytes());
        assert(final(out)@ =~= old(out)@ + replay_of(self@));
    }
}

} // verus!
