//! The Completion Stream Consumer's logic: which text each streamed fragment
//! contributes to the output sink, in arrival order, and where consumption
//! halts when a fragment is an error. The network read loop itself lives
//! outside the library and feeds fragments in as plain values.

use vstd::prelude::*;

verus! {

/// The fixed output-token budget of every completion request.
pub const COMPLETION_TOKENS: u16 = 1024;

/// The model used when no explicit override is configured.
pub open spec fn default_model_name() -> Seq<char> {
    "gpt-4o-mini"@
}

/// Resolves the model identifier: an explicit override wins, else the fixed
/// built-in default.
pub fn resolve_model_name(explicit: Option<String>) -> (r: String)
    ensures
        match explicit {
            Some(m) => r@ == m@,
            None => r@ == default_model_name(),
        },
{
    match explicit {
        Some(m) => m,
        None => String::from_str("gpt-4o-mini"),
    }
}

/// A transport or protocol-level failure observed mid-stream, wrapping the
/// underlying description.
#[derive(Debug)]
pub struct StreamError(pub String);

impl StreamError {
    pub open spec fn message_spec(&self) -> Seq<char> {
        "Stream error: "@ + self.0@
    }

    /// The single-line diagnostic for this failure.
    pub fn message(&self) -> (r: String)
        ensures
            r@ == self.message_spec(),
    {
        let mut s = String::from_str("Stream error: ");
        s.append(self.0.as_str());
        s
    }
}

/// What one run of the consumer leaves behind: the text flushed to the sink
/// (preserved even when the run as a whole failed) and the failure, if the
/// stream broke mid-flight.
pub struct StreamOutcome {
    pub written: String,
    pub failure: Option<StreamError>,
}

/// The index of the first error fragment at or after `i`, or the length if
/// every fragment from `i` on is a success.
pub open spec fn halt_index_from(fs: Seq<Result<String, String>>, i: int) -> int
    decreases fs.len() - i,
{
    if i < 0 || i >= fs.len() {
        i
    } else if fs[i] is Err {
        i
    } else {
        halt_index_from(fs, i + 1)
    }
}

/// Where consumption halts: the index of the first error fragment, or the
/// length of the sequence if it has none.
pub open spec fn halt_index(fs: Seq<Result<String, String>>) -> int {
    halt_index_from(fs, 0)
}

/// The concatenation of the text of the success fragments among the first
/// `i`, in arrival order.
pub open spec fn flushed_upto(fs: Seq<Result<String, String>>, i: int) -> Seq<char>
    decreases i,
{
    if i <= 0 {
        Seq::empty()
    } else {
        flushed_upto(fs, i - 1) + (match fs[i - 1] {
            Ok(t) => t@,
            Err(_) => Seq::<char>::empty(),
        })
    }
}

/// What the sink holds after a run over `fs`: every success fragment's text
/// before the halt, in arrival order, and nothing else.
pub open spec fn flushed_text(fs: Seq<Result<String, String>>) -> Seq<char> {
    flushed_upto(fs, halt_index(fs))
}

/// Law: the halt point is sound — it never passes an error fragment, and
/// when it is inside the sequence it names an error fragment.
pub proof fn lemma_halt_index_properties(fs: Seq<Result<String, String>>)
    ensures
        0 <= halt_index(fs) <= fs.len(),
        halt_index(fs) < fs.len() ==> fs[halt_index(fs)] is Err,
        forall|j: int| 0 <= j < halt_index(fs) ==> fs[j] is Ok,
{
    lemma_halt_index_from_properties(fs, 0);
}

proof fn lemma_halt_index_from_properties(fs: Seq<Result<String, String>>, i: int)
    requires
        0 <= i <= fs.len(),
    ensures
        i <= halt_index_from(fs, i) <= fs.len(),
        halt_index_from(fs, i) < fs.len() ==> fs[halt_index_from(fs, i)] is Err,
        forall|j: int| i <= j < halt_index_from(fs, i) ==> fs[j] is Ok,
    decreases fs.len() - i,
{
    if i < fs.len() && !(fs[i] is Err) {
        lemma_halt_index_from_properties(fs, i + 1);
    }
}

/// Consumes a fragment sequence in arrival order: the text of each success
/// fragment is appended to the output, with no reordering and no buffering;
/// the first error fragment halts consumption and is reported as a
/// [`StreamError`], while the text already flushed is preserved. A sequence
/// with no error fragment is consumed whole and reports no failure.
pub fn consume_fragments(fragments: Vec<Result<String, String>>) -> (out: StreamOutcome)
    ensures
        out.written@ == flushed_text(fragments@),
        halt_index(fragments@) < fragments@.len() ==> (out.failure matches Some(f)
            && fragments@[halt_index(fragments@)] matches Err(d) && f.0@ == d@),
        halt_index(fragments@) == fragments@.len() ==> out.failure is None,
        out.failure is Some <==> (exists|j: int|
            0 <= j < fragments@.len() && #[trigger] fragments@[j] is Err),
{
    let ghost fs = fragments@;
    let mut written = String::new();
    let mut i: usize = 0;
    proof {
        assert(written@ =~= flushed_upto(fs, 0));
        lemma_halt_index_from_properties(fs, 0);
    }
    while i < fragments.len()
        invariant
            fs == fragments@,
            i <= fs.len(),
            written@ == flushed_upto(fs, i as int),
            halt_index(fs) == halt_index_from(fs, i as int),
            forall|j: int| 0 <= j < i ==> fs[j] is Ok,
        decreases fs.len() - i,
    {
        match &fragments[i] {
            Ok(t) => {
                written.append(t.as_str());
                proof {
                    assert(written@ =~= flushed_upto(fs, i + 1));
                }
            },
            Err(d) => {
                proof {
                    assert(halt_index(fs) == i);
                }
                return StreamOutcome { written, failure: Some(StreamError(d.clone())) };
            },
        }
        i = i + 1;
    }
    proof {
        assert(halt_index(fs) == fs.len());
    }
    StreamOutcome { written, failure: None }
}

/// The text carried by the first `i` choice slots of one streamed event,
/// in slot order: each filled slot contributes its content.
pub open spec fn present_texts_upto(cs: Seq<Option<String>>, i: int) -> Seq<Seq<char>>
    decreases i,
{
    if i <= 0 {
        Seq::empty()
    } else {
        present_texts_upto(cs, i - 1) + (match cs[i - 1] {
            Some(t) => seq![t@],
            None => Seq::<Seq<char>>::empty(),
        })
    }
}

/// Extracts, in slot order, the content of every filled choice slot of one
/// streamed event. Empty slots contribute nothing; order is preserved.
pub fn choice_texts(choices: Vec<Option<String>>) -> (r: Vec<String>)
    ensures
        r@.map_values(|s: String| s@) == present_texts_upto(choices@, choices@.len() as int),
{
    let mut r: Vec<String> = Vec::new();
    let mut i: usize = 0;
    proof {
        assert(r@.map_values(|s: String| s@) =~= present_texts_upto(choices@, 0));
    }
    while i < choices.len()
        invariant
            i <= choices@.len(),
            r@.map_values(|s: String| s@) == present_texts_upto(choices@, i as int),
        decreases choices@.len() - i,
    {
        match &choices[i] {
            Some(t) => {
                r.push(t.clone());
            },
            None => {},
        }
        proof {
            assert(r@.map_values(|s: String| s@) =~= present_texts_upto(choices@, i + 1));
        }
        i = i + 1;
    }
    r
}

} // verus!
