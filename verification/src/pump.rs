//! One round of an output pump: from what a read gave to what is published.

use crate::codepage::{codepage_for, decodable, decode_with_codepage, decoded_text};
use crate::text::{chained, replace_all, replaced};
use vstd::prelude::*;
use vstd::string::*;

verus! {

/// The stream that a pump drains.
#[derive(Debug, Clone, Copy, PartialEq, Eq)]
pub enum StreamKind {
    /// The standard output of a shell on pipes.
    Stdout,
    /// The standard error of a shell on pipes.
    Stderr,
    /// The output pipe of a pseudo-terminal.
    Pty,
}

/// A piece of decoded output for the event sink.
#[derive(Debug, Clone, PartialEq, Eq)]
pub struct DecodedChunk {
    /// The text to publish.
    pub text: String,
    /// Whether the text is error output.
    pub is_error: bool,
}

/// What a read from the stream gave.
#[derive(Debug, Clone, PartialEq, Eq)]
pub enum ReadOutcome {
    /// These bytes were read; none means that the stream has ended.
    Data(Vec<u8>),
    /// The other end of the pipe is gone.
    BrokenPipe,
    /// The read failed; the system's description.
    Failed(String),
}

/// What the pump does after a read.
#[derive(Debug, Clone, PartialEq, Eq)]
pub enum PumpStep {
    /// Publish the chunk and read again.
    Publish(DecodedChunk),
    /// End the pump silently.
    Stop,
    /// Log the message and end the pump.
    StopAndLog(String),
}

/// The number of bytes that a pump on a pipe asks for in one read.
pub const PIPE_CHUNK: usize = 1024;

/// The number of bytes that a pump on a pseudo-terminal asks for in one read.
pub const PTY_CHUNK: usize = 4096;

/// The number of bytes to ask for in one read of a stream.
pub fn chunk_size(kind: StreamKind) -> (size: usize)
    ensures
        size == match kind {
            StreamKind::Pty => PTY_CHUNK,
            _ => PIPE_CHUNK,
        },
{
    match kind {
        StreamKind::Pty => PTY_CHUNK,
        _ => PIPE_CHUNK,
    }
}

/// Text with every line feed turned into carriage return and line feed.
pub open spec fn with_carriage_returns(text: Seq<char>) -> Seq<char> {
    replaced(text, "\n"@, "\r\n"@)
}

/// Decoded text as it is published: standard output as it is, error output
/// between the escape sequences that colour it red and reset the colour,
/// pseudo-terminal output with every line feed turned into carriage return
/// and line feed.
pub open spec fn rendered(decoded: Seq<char>, kind: StreamKind) -> Seq<char> {
    match kind {
        StreamKind::Stdout => decoded,
        StreamKind::Stderr => "\x1b[31m"@ + decoded + "\x1b[0m"@,
        StreamKind::Pty => with_carriage_returns(decoded),
    }
}

/// In the published text of a pseudo-terminal every line feed follows a
/// carriage return.
pub proof fn lemma_pty_lines_end_with_carriage_return(decoded: Seq<char>)
    ensures
        forall|i: int|
            0 <= i < with_carriage_returns(decoded).len() && #[trigger] with_carriage_returns(
                decoded,
            )[i] == '\n' ==> i > 0 && with_carriage_returns(decoded)[i - 1] == '\r',
    decreases decoded.len(),
{
    reveal_strlit("\n");
    reveal_strlit("\r\n");
    let feed = "\n"@;
    let pair = "\r\n"@;
    let out = with_carriage_returns(decoded);
    assert(feed =~= seq!['\n']);
    assert(pair =~= seq!['\r', '\n']);
    if decoded.len() > 0 {
        let rest = with_carriage_returns(decoded.skip(1));
        lemma_pty_lines_end_with_carriage_return(decoded.skip(1));
        if feed.is_prefix_of(decoded) {
            assert(out == pair + rest);
            assert forall|i: int| 0 <= i < out.len() && #[trigger] out[i] == '\n' implies i > 0
                && out[i - 1] == '\r' by {
                if i >= 2 {
                    assert(out[i] == rest[i - 2]);
                    if i >= 3 {
                        assert(out[i - 1] == rest[i - 3]);
                    }
                }
            }
        } else {
            assert(decoded[0] != '\n') by {
                if decoded[0] == '\n' {
                    assert(feed =~= decoded.subrange(0, 1));
                }
            }
            assert(out == seq![decoded[0]] + rest);
            assert forall|i: int| 0 <= i < out.len() && #[trigger] out[i] == '\n' implies i > 0
                && out[i - 1] == '\r' by {
                if i >= 1 {
                    assert(out[i] == rest[i - 1]);
                    if i >= 2 {
                        assert(out[i - 1] == rest[i - 2]);
                    }
                }
            }
        }
    }
}

/// The message that is logged when a read fails.
pub open spec fn read_failure_text(detail: Seq<char>, kind: StreamKind) -> Seq<char> {
    match kind {
        StreamKind::Pty => "Read error: "@ + detail,
        _ => "Error reading stream: "@ + detail,
    }
}

/// The chunk to publish for decoded text of a stream.
pub fn render_chunk(decoded: &str, kind: StreamKind) -> (chunk: DecodedChunk)
    ensures
        chunk.text@ == rendered(decoded@, kind),
        chunk.is_error == (kind is Stderr),
{
    match kind {
        StreamKind::Stdout => DecodedChunk { text: String::from_str(decoded), is_error: false },
        StreamKind::Stderr => {
            let mut text = chained("\x1b[31m", decoded);
            text.append("\x1b[0m");
            DecodedChunk { text, is_error: true }
        },
        StreamKind::Pty => DecodedChunk {
            text: replace_all(decoded, "\n", "\r\n"),
            is_error: false,
        },
    }
}

/// Whether a read gives something to publish: it brought bytes.
pub open spec fn publishes(outcome: ReadOutcome) -> bool {
    outcome matches ReadOutcome::Data(bytes) && bytes@.len() > 0
}

/// The text that is published for a read that brought bytes.
pub open spec fn published_text(outcome: ReadOutcome, kind: StreamKind, codepage: u32) -> Seq<char> {
    match outcome {
        ReadOutcome::Data(bytes) => rendered(decoded_text(codepage_for(codepage), bytes@), kind),
        _ => Seq::empty(),
    }
}

/// The texts that a pump publishes for the reads of its stream, in the
/// order of the reads: one for each read up to the first that brought no bytes.
pub open spec fn published(reads: Seq<ReadOutcome>, kind: StreamKind, codepage: u32) -> Seq<
    Seq<char>,
>
    decreases reads.len(),
{
    if reads.len() == 0 || !publishes(reads[0]) {
        Seq::empty()
    } else {
        seq![published_text(reads[0], kind, codepage)] + published(reads.skip(1), kind, codepage)
    }
}

/// The texts of a list of chunks.
pub open spec fn chunk_texts(chunks: Seq<DecodedChunk>) -> Seq<Seq<char>> {
    chunks.map_values(|chunk: DecodedChunk| chunk.text@)
}

/// A pump publishes one text for each read that brought bytes, in the order
/// of the reads, the text of a read being the decoded text of its bytes;
/// and it publishes nothing from the first read on that brought none.
pub proof fn lemma_reads_are_published_in_order(
    reads: Seq<ReadOutcome>,
    kind: StreamKind,
    codepage: u32,
)
    ensures
        published(reads, kind, codepage).len() <= reads.len(),
        forall|i: int|
            0 <= i < published(reads, kind, codepage).len() ==> publishes(#[trigger] reads[i])
                && published(reads, kind, codepage)[i] == published_text(reads[i], kind, codepage),
        published(reads, kind, codepage).len() < reads.len() ==> !publishes(
            reads[published(reads, kind, codepage).len() as int],
        ),
        (forall|i: int| 0 <= i < reads.len() ==> publishes(#[trigger] reads[i])) ==> published(
            reads,
            kind,
            codepage,
        ).len() == reads.len(),
    decreases reads.len(),
{
    if reads.len() > 0 && publishes(reads[0]) {
        let rest = reads.skip(1);
        lemma_reads_are_published_in_order(rest, kind, codepage);
        let all = published(reads, kind, codepage);
        let tail = published(rest, kind, codepage);
        assert forall|i: int| 0 <= i < all.len() implies publishes(#[trigger] reads[i]) && all[i]
            == published_text(reads[i], kind, codepage) by {
            if i > 0 {
                assert(reads[i] == rest[i - 1]);
                assert(all[i] == tail[i - 1]);
            }
        }
        if all.len() < reads.len() {
            assert(reads[all.len() as int] == rest[tail.len() as int]);
        }
        if forall|i: int| 0 <= i < reads.len() ==> publishes(#[trigger] reads[i]) {
            assert forall|i: int| 0 <= i < rest.len() implies publishes(#[trigger] rest[i]) by {
                assert(rest[i] == reads[i + 1]);
            }
        }
    }
}

/// One round of the pump for a read that the caller keeps: see [`pump_step`].
pub fn pump_read(outcome: &ReadOutcome, kind: StreamKind, codepage: u32) -> (step: PumpStep)
    requires
        outcome matches ReadOutcome::Data(bytes) ==> decodable(bytes@),
    ensures
        match *outcome {
            ReadOutcome::Data(bytes) => if bytes@.len() == 0 {
                step == PumpStep::Stop
            } else {
                step matches PumpStep::Publish(chunk) && chunk.text@ == published_text(
                    *outcome,
                    kind,
                    codepage,
                ) && chunk.is_error == (kind is Stderr)
            },
            ReadOutcome::BrokenPipe => step == PumpStep::Stop,
            ReadOutcome::Failed(detail) => step matches PumpStep::StopAndLog(text) && text@
                == read_failure_text(detail@, kind),
        },
{
    match outcome {
        ReadOutcome::Data(bytes) => {
            if bytes.len() == 0 {
                PumpStep::Stop
            } else {
                let decoded = decode_with_codepage(bytes.as_slice(), codepage);
                PumpStep::Publish(render_chunk(decoded.as_str(), kind))
            }
        },
        ReadOutcome::BrokenPipe => PumpStep::Stop,
        ReadOutcome::Failed(detail) => {
            match kind {
                StreamKind::Pty => PumpStep::StopAndLog(chained("Read error: ", detail.as_str())),
                _ => PumpStep::StopAndLog(chained("Error reading stream: ", detail.as_str())),
            }
        },
    }
}

/// One round of the pump for a stream of kind `kind` whose bytes are in the
/// console codepage `codepage`.
///
/// Bytes that were read are decoded by themselves, whatever the read before
/// left unfinished, and published. The end of the stream and a broken pipe
/// end the pump silently. Any other failure ends it with a message for the
/// log. No outcome is an error of the session.
pub fn pump_step(outcome: ReadOutcome, kind: StreamKind, codepage: u32) -> (step: PumpStep)
    requires
        outcome matches ReadOutcome::Data(bytes) ==> decodable(bytes@),
    ensures
        match outcome {
            ReadOutcome::Data(bytes) => if bytes@.len() == 0 {
                step == PumpStep::Stop
            } else {
                step matches PumpStep::Publish(chunk) && chunk.text@ == rendered(
                    decoded_text(codepage_for(codepage), bytes@),
                    kind,
                ) && chunk.is_error == (kind is Stderr)
            },
            ReadOutcome::BrokenPipe => step == PumpStep::Stop,
            ReadOutcome::Failed(detail) => step matches PumpStep::StopAndLog(text) && text@
                == read_failure_text(detail@, kind),
        },
{
    pump_read(&outcome, kind, codepage)
}

/// The chunks that a pump publishes for the reads of its stream, in the
/// order of the reads: see [`published`]. Whatever the first read without
/// bytes was, the pump ends there and looks at no read after it.
pub fn pump_reads(reads: &Vec<ReadOutcome>, kind: StreamKind, codepage: u32) -> (chunks: Vec<
    DecodedChunk,
>)
    requires
        forall|i: int|
            0 <= i < reads@.len() ==> (#[trigger] reads@[i] matches ReadOutcome::Data(bytes)
                ==> decodable(bytes@)),
    ensures
        chunk_texts(chunks@) == published(reads@, kind, codepage),
        forall|i: int| 0 <= i < chunks@.len() ==> (#[trigger] chunks@[i]).is_error == (kind is Stderr),
{
    let mut chunks: Vec<DecodedChunk> = Vec::new();
    let mut i: usize = 0;
    proof {
        assert(reads@.skip(0) =~= reads@);
        assert(chunk_texts(chunks@) =~= Seq::<Seq<char>>::empty());
    }
    while i < reads.len()
        invariant
            i <= reads.len(),
            forall|k: int|
                0 <= k < reads@.len() ==> (#[trigger] reads@[k] matches ReadOutcome::Data(bytes)
                    ==> decodable(bytes@)),
            published(reads@, kind, codepage) == chunk_texts(chunks@) + published(
                reads@.skip(i as int),
                kind,
                codepage,
            ),
            forall|k: int|
                0 <= k < chunks@.len() ==> (#[trigger] chunks@[k]).is_error == (kind is Stderr),
        decreases reads.len() - i,
    {
        let ghost rest = reads@.skip(i as int);
        let ghost before = chunk_texts(chunks@);
        proof {
            assert(rest[0] == reads@[i as int]);
            assert(rest.skip(1) =~= reads@.skip(i + 1));
        }
        match pump_read(&reads[i], kind, codepage) {
            PumpStep::Publish(chunk) => {
                let ghost text = chunk.text@;
                chunks.push(chunk);
                proof {
                    assert(chunk_texts(chunks@) =~= before + seq![text]);
                    assert(chunk_texts(chunks@) + published(reads@.skip(i + 1), kind, codepage)
                        =~= before + (seq![text] + published(rest.skip(1), kind, codepage)));
                }
            },
            _ => {
                proof {
                    assert(published(rest, kind, codepage) =~= Seq::<Seq<char>>::empty());
                    assert(chunk_texts(chunks@) + Seq::<Seq<char>>::empty() =~= chunk_texts(chunks@));
                }
                return chunks;
            },
        }
        i += 1;
    }
    proof {
        assert(reads@.skip(i as int) =~= Seq::<ReadOutcome>::empty());
        assert(chunk_texts(chunks@) + Seq::<Seq<char>>::empty() =~= chunk_texts(chunks@));
    }
    chunks
}

} // verus!
