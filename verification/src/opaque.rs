use vstd::prelude::*;

verus! {

/// A minimal failure value that holds exactly one preformatted message and
/// is rendered verbatim. It serves as the fallback for absence-style
/// failures and as the reconstruction target when a transported record is
/// turned back into an opaque failure.
pub struct DisplayString(pub String);

impl Clone for DisplayString {
    /// A clone carries the same message.
    fn clone(&self) -> (r: Self)
        ensures
            r@ == self@,
    {
        DisplayString(self.0.clone())
    }
}

impl View for DisplayString {
    type V = Seq<char>;

    open spec fn view(&self) -> Seq<char> {
        self.0@
    }
}

impl DisplayString {
    /// The message, verbatim.
    pub fn text(&self) -> (r: &str)
        ensures
            r@ == self@,
    {
        self.0.as_str()
    }
}

impl From<String> for DisplayString {
    fn from(value: String) -> (r: Self) {
        DisplayString(value)
    }
}

impl vstd::std_specs::convert::FromSpecImpl<String> for DisplayString {
    open spec fn obeys_from_spec() -> bool {
        true
    }

    open spec fn from_spec(v: String) -> Self {
        DisplayString(v)
    }
}

impl From<DisplayString> for String {
    fn from(value: DisplayString) -> (r: Self) {
        value.0
    }
}

impl vstd::std_specs::convert::FromSpecImpl<DisplayString> for String {
    open spec fn obeys_from_spec() -> bool {
        true
    }

    open spec fn from_spec(v: DisplayString) -> Self {
        v.0
    }
}

impl Default for DisplayString {
    /// The default value carries the empty message.
    fn default() -> (r: Self)
        ensures
            r@.len() == 0,
    {
        DisplayString(String::new())
    }
}

/// Declares `anyhow::Error`, the opaque chainable failure the envelope
/// carries: a value of it is opaque here, and all that the contracts say of
/// one is said through [`source_chain`].
#[verifier::external_type_specification]
#[verifier::external_body]
pub struct ExAnyhowError(anyhow::Error);

/// The chain of display layers of an opaque failure, outermost (most
/// recently attached) layer first, down to the root cause. Each element is
/// the text that the layer displays as.
pub uninterp spec fn source_chain(e: anyhow::Error) -> Seq<Seq<char>>;

/// How a chain of display layers is rendered into one string: the layers'
/// texts, outermost first, separated by `": "`.
pub open spec fn join_chain(chain: Seq<Seq<char>>) -> Seq<char>
    decreases chain.len(),
{
    if chain.len() == 0 {
        Seq::empty()
    } else if chain.len() == 1 {
        chain[0]
    } else {
        chain[0] + ": "@ + join_chain(chain.drop_first())
    }
}

/// Relies on `anyhow::Error::msg`: the resulting failure is a single layer
/// whose display text is the message itself, verbatim, with no cause below
/// it.
#[verifier::external_body]
pub(crate) fn opaque_from_message(message: DisplayString) -> (e: anyhow::Error)
    ensures
        source_chain(e) == seq![message@],
{
    anyhow::Error::msg(message.0)
}

/// Relies on `anyhow::Error::context`: it wraps the failure in one more
/// display layer carrying the message; the new layer becomes the outermost
/// one and the layers below are untouched.
#[verifier::external_body]
pub(crate) fn opaque_with_context(e: anyhow::Error, message: String) -> (r: anyhow::Error)
    ensures
        source_chain(r) == seq![message@] + source_chain(e),
{
    e.context(message)
}

/// Relies on anyhow's alternate display form (`{:#}`): it writes the
/// outermost layer's text, then `": "` followed by the next layer's text,
/// for every layer down to the root cause.
#[verifier::external_body]
pub(crate) fn render_opaque(e: &anyhow::Error) -> (r: String)
    ensures
        r@ == join_chain(source_chain(*e)),
{
    format!("{e:#}")
}

} // verus!
