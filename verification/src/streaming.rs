//! Streaming token decoder.
//!
//! A streaming call delivers text frames in a line-oriented event format: a
//! frame contributes a chunk exactly when it contains a line of the shape
//! `data: <payload>`, whose payload is the JSON object of [`crate::chunk`].
//! A frame with no such line yields no chunk and decoding continues; bytes
//! that are not valid text, or a payload that does not parse, yield one
//! error chunk and end the sequence; a chunk carrying `is_complete` or an
//! `error` ends the sequence after being yielded. The decoder never retries:
//! connection failures are the retry engine's business, and once the first
//! byte has arrived a failure must not duplicate a partial generation.

use vstd::prelude::*;
use vstd::slice::slice_subrange;
use vstd::utf8::{valid_utf8, decode_utf8};
use crate::chunk::{SpecChunk, sp_chunk_payload, parse_chunk};

verus! {

/// One decoded streaming chunk: a token fragment, the terminal marker, and
/// the optional model id and in-band error message.
#[derive(Debug, Clone)]
pub struct StreamingResponse {
    /// Token text, possibly empty.
    pub token: String,
    /// Whether this is the final chunk of the sequence.
    pub is_complete: bool,
    /// Model that produced the token, when the server names it.
    pub model_id: Option<String>,
    /// In-band error message; a chunk carrying one is always the last.
    pub error: Option<String>,
}

/// Position of the line feed that ends the line starting at `i` (or the end
/// of the frame).
pub open spec fn sp_line_end(s: Seq<u8>, i: nat) -> nat
    decreases s.len() - i,
{
    if i >= s.len() {
        i
    } else if s[i as int] == 10 {
        i
    } else {
        sp_line_end(s, i + 1)
    }
}

/// Content of the line starting at `i`: the bytes up to its line feed, with
/// a carriage return stripped when the line feed is present.
pub open spec fn sp_line_content(s: Seq<u8>, i: nat) -> Seq<u8> {
    let e = sp_line_end(s, i);
    let raw = s.subrange(i as int, e as int);
    if e < s.len() && raw.len() > 0 && raw.last() == 13 {
        raw.drop_last()
    } else {
        raw
    }
}

/// Whether a line starts with `data: ` (the bytes 100 97 116 97 58 32).
pub open spec fn sp_is_data_line(l: Seq<u8>) -> bool {
    l.len() >= 6 && l[0] == 100 && l[1] == 97 && l[2] == 116 && l[3] == 97 && l[4] == 58
        && l[5] == 32
}

/// Payload of the first `data: ` line at or after `i`, if any line of the
/// frame has that shape.
pub open spec fn sp_find_data(s: Seq<u8>, i: nat) -> Option<Seq<u8>>
    decreases s.len() - i,
{
    if i >= s.len() {
        None
    } else {
        let l = sp_line_content(s, i);
        if sp_is_data_line(l) {
            Some(l.subrange(6, l.len() as int))
        } else {
            let e = sp_line_end(s, i);
            if e < s.len() && e + 1 > i {
                sp_find_data(s, e + 1)
            } else {
                None
            }
        }
    }
}

/// What one frame means: not text at all, no data line, a data line whose
/// payload does not parse, or a parsed chunk.
pub enum SpecFrame {
    /// The frame is not valid UTF-8.
    InvalidText,
    /// No line of the frame has the `data: ` shape.
    NoData,
    /// The first data line's payload is not a well-formed chunk object.
    Malformed,
    /// The first data line's payload parsed to this chunk.
    Chunk(SpecChunk),
}

/// Meaning of a whole frame.
pub open spec fn sp_frame(frame: Seq<u8>) -> SpecFrame {
    if !valid_utf8(frame) {
        SpecFrame::InvalidText
    } else {
        match sp_find_data(frame, 0) {
            None => SpecFrame::NoData,
            Some(payload) => match sp_chunk_payload(payload) {
                None => SpecFrame::Malformed,
                Some(c) => SpecFrame::Chunk(c),
            },
        }
    }
}

/// Whether every string of the parsed chunk is valid UTF-8, so that it can
/// be handed out as text.
pub open spec fn sp_chunk_text_ok(c: SpecChunk) -> bool {
    &&& valid_utf8(c.token)
    &&& match c.model_id {
        Some(m) => valid_utf8(m),
        None => true,
    }
    &&& match c.error {
        Some(e) => valid_utf8(e),
        None => true,
    }
}

/// Whether the response is the decoded text of the parsed chunk.
pub open spec fn sp_response_of(c: SpecChunk, r: StreamingResponse) -> bool {
    &&& r.token@ == decode_utf8(c.token)
    &&& r.is_complete == c.is_complete
    &&& match (r.model_id, c.model_id) {
        (Some(s), Some(m)) => s@ == decode_utf8(m),
        (None, None) => true,
        _ => false,
    }
    &&& match (r.error, c.error) {
        (Some(s), Some(m)) => s@ == decode_utf8(m),
        (None, None) => true,
        _ => false,
    }
}

/// Whether the response is the error chunk that ends the sequence when a
/// frame is not text or does not parse, carrying the given message.
pub open spec fn sp_error_chunk(r: StreamingResponse, message: Seq<char>) -> bool {
    &&& r.token@ == Seq::<char>::empty()
    &&& !r.is_complete
    &&& r.model_id is None
    &&& r.error matches Some(m) && m@ == message
}

/// Whether a frame, fed to an unfinished decoder, yields a chunk: every
/// frame does except one without a data line.
pub open spec fn sp_frame_emits(frame: Seq<u8>) -> bool {
    !(sp_frame(frame) is NoData)
}

/// Whether a frame, fed to an unfinished decoder, ends the sequence:
/// invalid text and unparsable payloads do, and a parsed chunk does
/// exactly when it carries `is_complete`, an in-band error, or a string
/// that is not decodable text.
pub open spec fn sp_frame_finishes(frame: Seq<u8>) -> bool {
    match sp_frame(frame) {
        SpecFrame::NoData => false,
        SpecFrame::InvalidText => true,
        SpecFrame::Malformed => true,
        SpecFrame::Chunk(c) => !sp_chunk_text_ok(c) || c.is_complete || c.error is Some,
    }
}

/// What the chunk a frame yields must be: the decoded text of a parsed
/// chunk whose strings are valid, and otherwise the error chunk naming
/// what went wrong. A frame that yields no chunk matches nothing.
pub open spec fn sp_frame_chunk_matches(frame: Seq<u8>, r: StreamingResponse) -> bool {
    match sp_frame(frame) {
        SpecFrame::NoData => false,
        SpecFrame::InvalidText => sp_error_chunk(r, "Invalid UTF-8 in stream"@),
        SpecFrame::Malformed => sp_error_chunk(r, "Failed to parse stream chunk"@),
        SpecFrame::Chunk(c) => if sp_chunk_text_ok(c) {
            sp_response_of(c, r)
        } else {
            sp_error_chunk(r, "Invalid UTF-8 in stream"@)
        },
    }
}

/// Relies on String::from_utf8: it succeeds exactly on valid UTF-8 and
/// decodes those bytes.
#[verifier::external_body]
fn string_from_utf8(v: Vec<u8>) -> (r: Option<String>)
    ensures
        match r {
            Some(s) => valid_utf8(v@) && s@ == decode_utf8(v@),
            None => !valid_utf8(v@),
        },
{
    String::from_utf8(v).ok()
}

/// Relies on std::str::from_utf8: it succeeds exactly on valid UTF-8.
#[verifier::external_body]
fn utf8_ok(v: &[u8]) -> (r: bool)
    ensures
        r == valid_utf8(v@),
{
    std::str::from_utf8(v).is_ok()
}

/// Position of the line feed that ends the line starting at `i`.
fn line_end(s: &[u8], i: usize) -> (r: usize)
    requires
        i <= s@.len(),
    ensures
        r as nat == sp_line_end(s@, i as nat),
        i <= r <= s@.len(),
{
    let mut j = i;
    loop
        invariant
            i <= j <= s@.len(),
            sp_line_end(s@, i as nat) == sp_line_end(s@, j as nat),
        decreases s@.len() - j,
    {
        if j >= s.len() {
            return j;
        }
        if s[j] == 10 {
            return j;
        }
        j = j + 1;
    }
}

/// Bounds of the first data-line payload within the frame, if any.
fn find_data(s: &[u8]) -> (r: Option<(usize, usize)>)
    ensures
        match r {
            Some(p) => p.0 <= p.1 <= s@.len() && sp_find_data(s@, 0) == Some(
                s@.subrange(p.0 as int, p.1 as int),
            ),
            None => sp_find_data(s@, 0) is None,
        },
{
    let mut i: usize = 0;
    loop
        invariant
            i <= s@.len(),
            sp_find_data(s@, 0) == sp_find_data(s@, i as nat),
        decreases s@.len() - i,
    {
        if i >= s.len() {
            return None;
        }
        let e = line_end(s, i);
        // End of this line's content, with the carriage return stripped
        // when the line feed is present.
        let ce = if e < s.len() && e > i && s[e - 1] == 13 {
            e - 1
        } else {
            e
        };
        proof {
            assert(s@.subrange(i as int, e as int).len() == e - i);
            if e < s@.len() && e > i && s@[e as int - 1] == 13 {
                assert(s@.subrange(i as int, e as int).last() == s@[e as int - 1]);
                assert(s@.subrange(i as int, e as int).drop_last() =~= s@.subrange(
                    i as int,
                    e as int - 1,
                ));
            }
            assert(sp_line_content(s@, i as nat) =~= s@.subrange(i as int, ce as int));
        }
        let is_data = ce - i >= 6 && s[i] == 100 && s[i + 1] == 97 && s[i + 2] == 116
            && s[i + 3] == 97 && s[i + 4] == 58 && s[i + 5] == 32;
        if is_data {
            proof {
                assert(sp_is_data_line(sp_line_content(s@, i as nat)));
                assert(sp_line_content(s@, i as nat).subrange(
                    6,
                    sp_line_content(s@, i as nat).len() as int,
                ) =~= s@.subrange(i as int + 6, ce as int));
            }
            return Some((i + 6, ce));
        }
        proof {
            assert(!sp_is_data_line(sp_line_content(s@, i as nat)));
        }
        if e >= s.len() {
            return None;
        }
        i = e + 1;
    }
}

/// Decode one frame into what it means, with the strings still as bytes.
fn frame_outcome(frame: &[u8]) -> (r: FrameOutcome)
    ensures
        match r {
            FrameOutcome::InvalidText => sp_frame(frame@) is InvalidText,
            FrameOutcome::NoData => sp_frame(frame@) is NoData,
            FrameOutcome::Malformed => sp_frame(frame@) is Malformed,
            FrameOutcome::Chunk(c) => sp_frame(frame@) == SpecFrame::Chunk(c@),
        },
{
    if !utf8_ok(frame) {
        return FrameOutcome::InvalidText;
    }
    let (a, b) = match find_data(frame) {
        None => {
            return FrameOutcome::NoData;
        },
        Some(p) => p,
    };
    let payload = slice_subrange(frame, a, b);
    match parse_chunk(payload) {
        None => FrameOutcome::Malformed,
        Some(c) => FrameOutcome::Chunk(c),
    }
}

/// One decoded frame, with its chunk's strings still as unescaped bytes.
enum FrameOutcome {
    InvalidText,
    NoData,
    Malformed,
    Chunk(crate::chunk::ChunkBytes),
}

/// The streaming decoder: a lazy, finite, non-restartable sequence of
/// chunks over the frames of one streaming call. Once a terminal chunk has
/// been produced (completion, in-band error, or a decoding failure), every
/// later frame is ignored and yields nothing.
pub struct StreamDecoder {
    finished: bool,
}

impl StreamDecoder {
    /// Whether a terminal chunk has been produced, after which the decoder
    /// reads nothing more.
    pub closed spec fn spec_finished(&self) -> bool {
        self.finished
    }

    /// A fresh decoder, ready for the first frame.
    pub fn new() -> (r: Self)
        ensures
            !r.spec_finished(),
    {
        StreamDecoder { finished: false }
    }

    /// Whether the sequence has ended.
    pub fn finished(&self) -> (r: bool)
        ensures
            r == self.spec_finished(),
    {
        self.finished
    }

    /// Consume one transport frame and produce its chunk, if any.
    ///
    /// A finished decoder produces nothing and stays finished. Otherwise
    /// the frame yields a chunk exactly when [`sp_frame_emits`] says so,
    /// that chunk is fixed by [`sp_frame_chunk_matches`], and the sequence
    /// ends exactly when [`sp_frame_finishes`] says so.
    pub fn feed(&mut self, frame: &[u8]) -> (r: Option<StreamingResponse>)
        ensures
            old(self).spec_finished() ==> r is None && final(self).spec_finished(),
            !old(self).spec_finished() ==> final(self).spec_finished() == sp_frame_finishes(
                frame@,
            ),
            !old(self).spec_finished() ==> ((r is Some) <==> sp_frame_emits(frame@)),
            !old(self).spec_finished() ==> (r matches Some(c) ==> sp_frame_chunk_matches(
                frame@,
                c,
            )),
    {
        if self.finished {
            return None;
        }
        match frame_outcome(frame) {
            FrameOutcome::NoData => None,
            FrameOutcome::InvalidText => {
                self.finished = true;
                Some(
                    StreamingResponse {
                        token: String::new(),
                        is_complete: false,
                        model_id: None,
                        error: Some(String::from_str("Invalid UTF-8 in stream")),
                    },
                )
            },
            FrameOutcome::Malformed => {
                self.finished = true;
                Some(
                    StreamingResponse {
                        token: String::new(),
                        is_complete: false,
                        model_id: None,
                        error: Some(String::from_str("Failed to parse stream chunk")),
                    },
                )
            },
            FrameOutcome::Chunk(c) => {
                let token = match string_from_utf8(c.token) {
                    Some(s) => s,
                    None => {
                        self.finished = true;
                        return Some(
                            StreamingResponse {
                                token: String::new(),
                                is_complete: false,
                                model_id: None,
                                error: Some(String::from_str("Invalid UTF-8 in stream")),
                            },
                        );
                    },
                };
                let model_id = match c.model_id {
                    Some(v) => match string_from_utf8(v) {
                        Some(s) => Some(s),
                        None => {
                            self.finished = true;
                            return Some(
                                StreamingResponse {
                                    token: String::new(),
                                    is_complete: false,
                                    model_id: None,
                                    error: Some(String::from_str("Invalid UTF-8 in stream")),
                                },
                            );
                        },
                    },
                    None => None,
                };
                let error = match c.error {
                    Some(v) => match string_from_utf8(v) {
                        Some(s) => Some(s),
                        None => {
                            self.finished = true;
                            return Some(
                                StreamingResponse {
                                    token: String::new(),
                                    is_complete: false,
                                    model_id: None,
                                    error: Some(String::from_str("Invalid UTF-8 in stream")),
                                },
                            );
                        },
                    },
                    None => None,
                };
                self.finished = c.is_complete || error.is_some();
                Some(StreamingResponse { token, is_complete: c.is_complete, model_id, error })
            },
        }
    }
}

/// The frames at or after `i` that contribute a chunk, in order, up to and
/// including the first one that ends the sequence; frames without a data
/// line are left out, and frames after the first finishing one are never
/// read.
pub open spec fn sp_emitting_frames(frames: Seq<Vec<u8>>, i: nat) -> Seq<Seq<u8>>
    decreases frames.len() - i,
{
    if i >= frames.len() {
        Seq::empty()
    } else {
        let f = frames[i as int]@;
        let head: Seq<Seq<u8>> = if sp_frame_emits(f) {
            seq![f]
        } else {
            Seq::empty()
        };
        if sp_frame_finishes(f) {
            head
        } else {
            head + sp_emitting_frames(frames, i + 1)
        }
    }
}

/// Decode a whole sequence of frames: one chunk per emitting frame, in
/// frame order, cut at the first terminal chunk, each chunk fixed by its
/// frame through [`sp_frame_chunk_matches`].
///
/// Law: a terminal chunk is always the last one produced — every chunk
/// before the last neither carries `is_complete` nor an error, so once a
/// completed chunk has been produced, no further chunk follows.
pub fn decode_frames(frames: &Vec<Vec<u8>>) -> (r: Vec<StreamingResponse>)
    ensures
        r@.len() == sp_emitting_frames(frames@, 0).len(),
        forall|k: int| 0 <= k < r@.len() ==> sp_frame_chunk_matches(
            sp_emitting_frames(frames@, 0)[k],
            #[trigger] r@[k],
        ),
        forall|i: int| 0 <= i < r@.len() - 1 ==> !(#[trigger] r@[i]).is_complete
            && r@[i].error is None,
{
    let ghost target = sp_emitting_frames(frames@, 0);
    let mut out: Vec<StreamingResponse> = Vec::new();
    let ghost mut done: Seq<Seq<u8>> = Seq::empty();
    let mut decoder = StreamDecoder::new();
    let mut k: usize = 0;
    while k < frames.len()
        invariant
            k <= frames@.len(),
            target == sp_emitting_frames(frames@, 0),
            out@.len() == done.len(),
            forall|j: int| 0 <= j < out@.len() ==> sp_frame_chunk_matches(
                done[j],
                #[trigger] out@[j],
            ),
            !decoder.spec_finished() ==> target == done + sp_emitting_frames(frames@, k as nat),
            decoder.spec_finished() ==> target == done,
            forall|i: int| 0 <= i < out@.len() - 1 ==> !(#[trigger] out@[i]).is_complete
                && out@[i].error is None,
            !decoder.spec_finished() && out@.len() > 0 ==> !out@[out@.len() - 1].is_complete
                && out@[out@.len() - 1].error is None,
        decreases frames@.len() - k,
    {
        let ghost was_finished = decoder.spec_finished();
        let ghost done_pre = done;
        let ghost f = frames@[k as int]@;
        match decoder.feed(frames[k].as_slice()) {
            Some(c) => {
                out.push(c);
                proof {
                    done = done_pre.push(f);
                }
            },
            None => {},
        }
        proof {
            if !was_finished {
                if sp_frame_emits(f) {
                    if sp_frame_finishes(f) {
                        assert(done_pre + sp_emitting_frames(frames@, k as nat) =~= done_pre.push(
                            f,
                        ));
                    } else {
                        assert(done_pre + (seq![f] + sp_emitting_frames(frames@, k as nat + 1))
                            =~= done_pre.push(f) + sp_emitting_frames(frames@, k as nat + 1));
                    }
                } else {
                    assert(Seq::<Seq<u8>>::empty() + sp_emitting_frames(frames@, k as nat + 1)
                        =~= sp_emitting_frames(frames@, k as nat + 1));
                }
            }
        }
        k = k + 1;
    }
    proof {
        if !decoder.spec_finished() {
            assert(done + Seq::<Seq<u8>>::empty() =~= done);
        }
    }
    out
}

} // verus!
