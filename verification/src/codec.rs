use vstd::prelude::*;

use crate::envelope::{trace_of, LocationError};
use crate::location::{LocView, Location};
use crate::opaque::{join_chain, opaque_from_message, render_opaque, source_chain, DisplayString};

verus! {

/// The mathematical value of a [`WireError`]: the rendered source text and
/// the sequence of call sites, creation site first.
pub ghost struct WireView {
    pub source: Seq<char>,
    pub trace: Seq<LocView>,
}

/// The transportable record an envelope is reduced to at a transport
/// boundary: the fully rendered context-and-cause chain as one string, and
/// the backtrace, whose fields are primitive and cross losslessly.
///
/// Field names and types are a compatibility surface: a consumer on the far
/// side needs no knowledge of the origin process's error types.
pub struct WireError {
    pub source: String,
    pub backtrace: Vec<Location>,
}

impl View for WireError {
    type V = WireView;

    open spec fn view(&self) -> WireView {
        WireView { source: self.source@, trace: trace_of(self.backtrace@) }
    }
}

/// Renders an envelope into its transportable record. The source string is
/// the whole context chain joined into one string (lossy: the layering and
/// any concrete failure type are gone, the text is kept); the backtrace
/// crosses unchanged.
pub fn encode(e: &LocationError) -> (r: WireError)
    ensures
        r@.source == join_chain(e@.chain),
        r@.trace == e@.trace,
{
    let source = render_opaque(&e.source);
    let backtrace = e.backtrace.clone();
    let r = WireError { source, backtrace };
    proof {
        assert forall|i: int| 0 <= i < backtrace@.len() implies backtrace@[i]@
            == e.backtrace@[i]@ by {
            assert(cloned(e.backtrace@[i], backtrace@[i]));
        }
        assert(r@.trace =~= e@.trace);
    }
    r
}

/// Reconstructs an envelope from a transportable record: the backtrace is
/// recovered losslessly, and the source becomes a single-layer rendered
/// failure whose text equals the record's source string exactly.
pub fn decode(w: WireError) -> (r: LocationError)
    ensures
        r@.chain == seq![w@.source],
        r@.trace == w@.trace,
{
    let WireError { source, backtrace } = w;
    LocationError { source: opaque_from_message(DisplayString(source)), backtrace }
}

/// Law: rendering a single-layer chain yields that layer's text verbatim.
/// This is why a decoded envelope re-encodes to the very record it came
/// from: decoding collapses the chain to one layer carrying the record's
/// source text, and encoding such an envelope writes that text unchanged.
pub proof fn lemma_single_layer_renders_verbatim(text: Seq<char>)
    ensures
        join_chain(seq![text]) == text,
{
}

/// Law: encoding is idempotent from the second pass onward. For any
/// envelope whose context chain is `chain`, `encode` writes
/// `join_chain(chain)` as the record's source text; decoding that record
/// and encoding again writes the same text, so
/// `encode(decode(encode(e))).source == encode(e).source` for every
/// envelope `e` — even though `decode(encode(e))` is not structurally equal
/// to `e`.
pub proof fn lemma_roundtrip_stable(chain: Seq<Seq<char>>)
    ensures
        join_chain(seq![join_chain(chain)]) == join_chain(chain),
{
    lemma_single_layer_renders_verbatim(join_chain(chain));
}

} // verus!
