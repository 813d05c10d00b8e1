mod codec;
mod convert;
mod envelope;
mod location;
mod opaque;
mod text;

pub use codec::WireError;
pub use codec::WireView;
pub use codec::decode;
pub use codec::encode;
pub use codec::lemma_roundtrip_stable;
pub use codec::lemma_single_layer_renders_verbatim;
pub use convert::AddLocation;
pub use convert::LocationResult;
pub use convert::ToLocation;
pub use envelope::EnvView;
pub use envelope::LocationError;
pub use envelope::env_text;
pub use envelope::trace_text;
pub use envelope::lemma_backtrace_in_call_order;
pub use envelope::lemma_frames_accumulate;
pub use envelope::lemma_silent_capture_appends_only;
pub use envelope::push_all;
pub use envelope::trace_of;
pub use location::LocView;
pub use location::Location;
pub use location::lemma_loc_order_total;
pub use location::lemma_str_lt_irreflexive;
pub use location::lemma_str_lt_total;
pub use location::lemma_str_lt_transitive;
pub use location::loc_lt;
pub use location::loc_text;
pub use location::str_lt;
pub use opaque::DisplayString;
pub use text::dec_digit;
pub use text::dec_seq;
pub use text::u32_dec;
pub use opaque::join_chain;
pub use opaque::source_chain;
