use vstd::prelude::*;
use vstd::string::StringExecFns;

use crate::location::{loc_text, LocView, Location};
use crate::opaque::{join_chain, opaque_with_context, render_opaque, source_chain};

verus! {

/// The mathematical value of a [`LocationError`]: the chain of display
/// layers of its opaque failure (outermost first) and the chronological
/// sequence of call sites it has passed through (creation site first).
pub ghost struct EnvView {
    pub chain: Seq<Seq<char>>,
    pub trace: Seq<LocView>,
}

/// The trace a backtrace vector stands for: its locations' values, in order.
pub open spec fn trace_of(backtrace: Seq<Location>) -> Seq<LocView> {
    backtrace.map_values(|l: Location| l@)
}

/// An error envelope: an opaque underlying failure together with the
/// ordered chain of call sites recorded while the failure propagated.
///
/// `backtrace` is chronological: index 0 is the call site where the
/// envelope was created; each later entry is a caller frame appended as the
/// error travelled outward. It may be empty when frame capture was
/// explicitly opted out of. Appending never reorders or removes entries.
pub struct LocationError {
    pub source: anyhow::Error,
    pub backtrace: Vec<Location>,
}

impl View for LocationError {
    type V = EnvView;

    open spec fn view(&self) -> EnvView {
        EnvView { chain: source_chain(self.source), trace: trace_of(self.backtrace@) }
    }
}

impl LocationError {
    /// Wraps a failure into an envelope whose backtrace holds exactly one
    /// frame: the call site `at`. Never fails.
    pub fn new(source: anyhow::Error, at: Location) -> (r: Self)
        ensures
            r@.chain == source_chain(source),
            r@.trace == seq![at@],
    {
        let backtrace = vec![at];
        let r = LocationError { source, backtrace };
        proof {
            assert(r@.trace =~= seq![at@]);
        }
        r
    }

    /// Appends the call site `at` to the backtrace, leaving the failure and
    /// the existing frames untouched. Never fails.
    pub fn add_location(self, at: Location) -> (r: Self)
        ensures
            r@.chain == self@.chain,
            r@.trace == self@.trace.push(at@),
    {
        let LocationError { source, mut backtrace } = self;
        backtrace.push(at);
        let r = LocationError { source, backtrace };
        proof {
            assert(r@.trace =~= self@.trace.push(at@));
        }
        r
    }

    /// Wraps the failure in one more display layer carrying `message`; the
    /// new layer becomes the outermost (first-displayed) one. The backtrace
    /// is left unchanged, whatever the prior state. Never fails.
    pub fn context(self, message: String) -> (r: Self)
        ensures
            r@.chain == seq![message@] + self@.chain,
            r@.trace == self@.trace,
    {
        let LocationError { source, backtrace } = self;
        LocationError { source: opaque_with_context(source, message), backtrace }
    }

    /// Renders the envelope for human reading: the full context chain of
    /// the failure (outermost layer first, down to the root cause), then
    /// the backtrace, one `file:line:column` line per frame, creation site
    /// first.
    pub fn render(&self) -> (r: String)
        ensures
            r@ == env_text(self@),
    {
        let mut s = render_opaque(&self.source);
        let ghost whole = self@;
        proof {
            assert(whole.trace.skip(0) =~= whole.trace);
        }
        let mut i: usize = 0;
        while i < self.backtrace.len()
            invariant
                i <= self.backtrace.len(),
                whole == self@,
                s@ + trace_text(whole.trace.skip(i as int)) == env_text(whole),
            decreases self.backtrace.len() - i,
        {
            proof {
                assert(whole.trace.skip(i as int)[0] == self.backtrace@[i as int]@);
                assert(whole.trace.skip(i as int).drop_first() =~= whole.trace.skip(i as int + 1));
            }
            s.append("\n");
            let line = self.backtrace[i].render();
            s.append(line.as_str());
            i = i + 1;
        }
        proof {
            assert(whole.trace.skip(whole.trace.len() as int) =~= Seq::<LocView>::empty());
        }
        s
    }
}

/// The rendered form of a trace: a line break followed by one
/// `file:line:column` line per frame, in chain order.
pub open spec fn trace_text(trace: Seq<LocView>) -> Seq<char>
    decreases trace.len(),
{
    if trace.len() == 0 {
        Seq::empty()
    } else {
        "\n"@ + loc_text(trace[0]) + trace_text(trace.drop_first())
    }
}

/// The full rendering of an envelope: the context chain joined into one
/// string, followed by the rendered backtrace.
pub open spec fn env_text(v: EnvView) -> Seq<char> {
    join_chain(v.chain) + trace_text(v.trace)
}

/// Iterated frame appends: the trace reached by appending the given frames
/// one at a time, oldest first, to an existing trace.
pub open spec fn push_all(trace: Seq<LocView>, frames: Seq<LocView>) -> Seq<LocView>
    decreases frames.len(),
{
    if frames.len() == 0 {
        trace
    } else {
        push_all(trace.push(frames[0]), frames.drop_first())
    }
}

/// Law: appending frames one at a time only ever extends the backtrace at
/// its end — after any number of appends the trace is the old trace
/// followed by the new frames in call order; nothing is reordered or
/// removed.
pub proof fn lemma_frames_accumulate(trace: Seq<LocView>, frames: Seq<LocView>)
    ensures
        push_all(trace, frames) == trace + frames,
    decreases frames.len(),
{
    if frames.len() == 0 {
        assert(push_all(trace, frames) =~= trace + frames);
    } else {
        lemma_frames_accumulate(trace.push(frames[0]), frames.drop_first());
        assert(trace.push(frames[0]) + frames.drop_first() =~= trace + frames);
    }
}

/// Law: an envelope created with one initial frame and then extended by any
/// number of appended frames has a backtrace of length one more than the
/// number of appends, with the creation site first and the appended frames
/// after it in call order.
pub proof fn lemma_backtrace_in_call_order(first: LocView, frames: Seq<LocView>)
    ensures
        push_all(seq![first], frames).len() == 1 + frames.len(),
        push_all(seq![first], frames)[0] == first,
        forall|i: int| 0 <= i < frames.len() ==> push_all(seq![first], frames)[i + 1] == frames[i],
{
    lemma_frames_accumulate(seq![first], frames);
}

/// Law: an envelope whose backtrace started empty (silent capture) holds,
/// after any number of appended frames, exactly those frames in call order
/// — the silent start never resurfaces as an extra entry.
pub proof fn lemma_silent_capture_appends_only(frames: Seq<LocView>)
    ensures
        push_all(Seq::empty(), frames) == frames,
{
    lemma_frames_accumulate(Seq::empty(), frames);
    assert(Seq::<LocView>::empty() + frames =~= frames);
}

} // verus!
