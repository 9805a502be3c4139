use vstd::prelude::*;
use vstd::string::*;

verus! {

/// The byte that ends a line of the event stream.
pub const NEWLINE: u8 = 10;

/// What `serde_json::from_slice` makes of one line of the event stream when
/// read as `{"message": {"content": <string>}, "done": <bool>}`: the content
/// and the done flag, or nothing when the line does not have that shape.
pub uninterp spec fn stream_event_of(line: Seq<u8>) -> Option<(Seq<char>, bool)>;

/// Relies on `serde_json::from_slice` (into `serde_json::Value`) and on
/// `Value::get`, `Value::as_str` and `Value::as_bool`: the outcome depends on
/// the bytes alone, and an empty line is not JSON.
#[verifier::external_body]
fn parse_stream_line(line: &[u8]) -> (r: Option<(String, bool)>)
    ensures
        match r {
            Some((c, d)) => stream_event_of(line@) == Some((c@, d)),
            None => stream_event_of(line@) is None,
        },
        line@.len() == 0 ==> r is None,
{
    let v: serde_json::Value = serde_json::from_slice(line).ok()?;
    let content = v.get("message")?.get("content")?.as_str()?;
    let done = v.get("done")?.as_bool()?;
    Some((content.to_string(), done))
}

/// The tokens that one complete line yields, and whether it ends the stream:
/// a line that does not parse yields nothing, and an empty content is not a
/// token.
pub open spec fn line_output(line: Seq<u8>) -> (Seq<Seq<char>>, bool) {
    match stream_event_of(line) {
        Some((c, d)) => (if c.len() > 0 {
            seq![c]
        } else {
            Seq::empty()
        }, d),
        None => (Seq::empty(), false),
    }
}

/// The tokens that `rest` yields when `line` holds the bytes already read of
/// the current line, and whether a line marked done was reached (after which
/// nothing more is read).
pub open spec fn decode_from(line: Seq<u8>, rest: Seq<u8>) -> (Seq<Seq<char>>, bool)
    decreases rest.len(),
{
    if rest.len() == 0 {
        (Seq::empty(), false)
    } else if rest[0] == NEWLINE {
        let (t, d) = line_output(line);
        if d {
            (t, true)
        } else {
            let (t2, d2) = decode_from(Seq::empty(), rest.drop_first());
            (t + t2, d2)
        }
    } else {
        decode_from(line.push(rest[0]), rest.drop_first())
    }
}

/// The bytes of the unfinished last line once `rest` has been read after `line`.
pub open spec fn pending_after(line: Seq<u8>, rest: Seq<u8>) -> Seq<u8>
    decreases rest.len(),
{
    if rest.len() == 0 {
        line
    } else if rest[0] == NEWLINE {
        pending_after(Seq::empty(), rest.drop_first())
    } else {
        pending_after(line.push(rest[0]), rest.drop_first())
    }
}

/// The tokens of a whole stream, and whether it ended with a done line.
pub open spec fn decode(bytes: Seq<u8>) -> (Seq<Seq<char>>, bool) {
    decode_from(Seq::empty(), bytes)
}

/// Where a chunk ends does not matter: reading `a` and then `b` yields the
/// tokens of reading `a + b` at once, and nothing after a done line.
pub proof fn lemma_chunk_boundaries(line: Seq<u8>, a: Seq<u8>, b: Seq<u8>)
    ensures
        decode_from(line, a).1 ==> decode_from(line, a + b) == decode_from(line, a),
        !decode_from(line, a).1 ==> decode_from(line, a + b) == (
            decode_from(line, a).0 + decode_from(pending_after(line, a), b).0,
            decode_from(pending_after(line, a), b).1,
        ),
        !decode_from(line, a).1 ==> pending_after(line, a + b) == pending_after(
            pending_after(line, a),
            b,
        ),
    decreases a.len(),
{
    if a.len() == 0 {
        assert(a + b =~= b);
        let (t, d) = decode_from(line, b);
        assert(Seq::<Seq<char>>::empty() + t =~= t);
    } else {
        assert((a + b).drop_first() =~= a.drop_first() + b);
        assert((a + b)[0] == a[0]);
        if a[0] == NEWLINE {
            lemma_chunk_boundaries(Seq::empty(), a.drop_first(), b);
            let (t, d) = line_output(line);
            if !d {
                let (t1, d1) = decode_from(Seq::empty(), a.drop_first());
                let (t2, d2) = decode_from(pending_after(Seq::empty(), a.drop_first()), b);
                assert(t + (t1 + t2) =~= (t + t1) + t2);
            }
        } else {
            lemma_chunk_boundaries(line.push(a[0]), a.drop_first(), b);
        }
    }
}

pub open spec fn strings_view(v: Seq<String>) -> Seq<Seq<char>> {
    v.map_values(|s: String| s@)
}

/// Turns the chunks of a newline-delimited JSON event stream into tokens,
/// keeping a partial line until its end arrives.
pub struct StreamDecoder {
    buffer: Vec<u8>,
    finished: bool,
}

impl StreamDecoder {
    /// The bytes of the line read so far.
    pub closed spec fn pending(&self) -> Seq<u8> {
        self.buffer@
    }

    /// Whether a line marked done has been read.
    pub closed spec fn is_finished(&self) -> bool {
        self.finished
    }

    pub fn new() -> (r: StreamDecoder)
        ensures
            r.pending() == Seq::<u8>::empty(),
            !r.is_finished(),
    {
        StreamDecoder { buffer: Vec::new(), finished: false }
    }

    /// Whether the stream has ended with a done line.
    pub fn finished(&self) -> (r: bool)
        ensures
            r == self.is_finished(),
    {
        self.finished
    }

    /// Reads one chunk and returns the tokens of the lines that it completes.
    /// After a done line the rest is ignored.
    pub fn feed(&mut self, chunk: &[u8]) -> (r: Vec<String>)
        ensures
            old(self).is_finished() ==> *final(self) == *old(self) && r@.len() == 0,
            !old(self).is_finished() ==> (strings_view(r@), final(self).is_finished())
                == decode_from(old(self).pending(), chunk@),
            !final(self).is_finished() ==> final(self).pending() == pending_after(
                old(self).pending(),
                chunk@,
            ),
    {
        let mut out: Vec<String> = Vec::new();
        if self.finished {
            return out;
        }
        let mut i: usize = 0;
        proof {
            assert(chunk@.skip(0) =~= chunk@);
            let (t, _) = decode_from(self.buffer@, chunk@);
            assert(strings_view(out@) + t =~= t);
        }
        while i < chunk.len()
            invariant
                !self.finished,
                !old(self).is_finished(),
                i <= chunk@.len(),
                decode_from(old(self).pending(), chunk@) == ({
                    let (t, d) = decode_from(self.buffer@, chunk@.skip(i as int));
                    (strings_view(out@) + t, d)
                }),
                pending_after(old(self).pending(), chunk@) == pending_after(
                    self.buffer@,
                    chunk@.skip(i as int),
                ),
            decreases chunk@.len() - i,
        {
            let b = chunk[i];
            assert(chunk@.skip(i as int).drop_first() =~= chunk@.skip(i + 1));
            if b == NEWLINE {
                let parsed = parse_stream_line(self.buffer.as_slice());
                let ghost line = self.buffer@;
                let ghost before = strings_view(out@);
                let mut done = false;
                if let Some((content, d)) = parsed {
                    if !content.as_str().is_empty() {
                        out.push(content);
                    }
                    done = d;
                }
                proof {
                    let (t, _) = line_output(line);
                    assert(strings_view(out@) =~= before + t);
                }
                self.buffer = Vec::new();
                if done {
                    self.finished = true;
                    return out;
                }
                proof {
                    assert(self.buffer@ =~= Seq::<u8>::empty());
                    let (t, _) = line_output(line);
                    let (t2, _) = decode_from(Seq::empty(), chunk@.skip(i + 1));
                    assert(before + (t + t2) =~= strings_view(out@) + t2);
                }
            } else {
                self.buffer.push(b);
            }
            i += 1;
        }
        proof {
            assert(chunk@.skip(i as int) =~= Seq::<u8>::empty());
            assert(strings_view(out@) + Seq::<Seq<char>>::empty() =~= strings_view(out@));
        }
        out
    }
}

} // verus!
