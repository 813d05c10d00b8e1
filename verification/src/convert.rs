use vstd::prelude::*;

use crate::envelope::{EnvView, LocationError};
use crate::location::{LocView, Location};
use crate::opaque::{opaque_from_message, source_chain, DisplayString};

verus! {

/// The result type the propagation operations produce: a success value, or
/// an error envelope.
pub type LocationResult<T> = Result<T, LocationError>;

/// Propagation along an existing chain: extends an envelope-carrying result
/// with another frame, or with a descriptive context layer.
pub trait AddLocation<T>: Sized {
    /// The success value, when the operand is a success.
    spec fn spec_success(self) -> Option<T>;

    /// The carried envelope's value, when the operand is a failure.
    spec fn spec_failure(self) -> EnvView;

    /// On failure, appends one more frame — the call site `at` — to the
    /// envelope's backtrace; on success, passes the value through unchanged.
    fn loc(self, at: Location) -> (r: LocationResult<T>)
        ensures
            match r {
                Ok(v) => self.spec_success() == Some(v),
                Err(e) => self.spec_success() is None && e@.chain == self.spec_failure().chain
                    && e@.trace == self.spec_failure().trace.push(at@),
            },
    ;

    /// On failure, wraps the envelope's failure in one more context layer
    /// carrying `message`, never changing the backtrace; on success, passes
    /// the value through unchanged.
    fn context(self, message: String) -> (r: LocationResult<T>)
        ensures
            match r {
                Ok(v) => self.spec_success() == Some(v),
                Err(e) => self.spec_success() is None && e@.chain == seq![message@]
                    + self.spec_failure().chain && e@.trace == self.spec_failure().trace,
            },
    ;
}

impl<T> AddLocation<T> for Result<T, LocationError> {
    open spec fn spec_success(self) -> Option<T> {
        match self {
            Ok(v) => Some(v),
            Err(_) => None,
        }
    }

    open spec fn spec_failure(self) -> EnvView {
        match self {
            Ok(_) => arbitrary(),
            Err(e) => e@,
        }
    }

    fn loc(self, at: Location) -> (r: LocationResult<T>) {
        match self {
            Ok(ok) => Ok(ok),
            Err(err) => Err(err.add_location(at)),
        }
    }

    fn context(self, message: String) -> (r: LocationResult<T>) {
        match self {
            Ok(ok) => Ok(ok),
            Err(err) => Err(err.context(message)),
        }
    }
}

/// Conversion into an envelope-carrying result: wraps the failure of a
/// fallible result, or the absence of an optional value, into an envelope —
/// capturing one frame (`loc`) or none (`no_loc`).
pub trait ToLocation<T>: Sized {
    /// The success value, when the operand is a success.
    spec fn spec_success(self) -> Option<T>;

    /// The context chain of the envelope the failure converts to.
    spec fn spec_chain(self) -> Seq<Seq<char>>;

    /// On failure, builds an envelope whose backtrace holds exactly one
    /// frame: the call site `at`; on success, passes the value through.
    fn loc(self, at: Location) -> (r: LocationResult<T>)
        ensures
            match r {
                Ok(v) => self.spec_success() == Some(v),
                Err(e) => self.spec_success() is None && e@.chain == self.spec_chain()
                    && e@.trace == seq![at@],
            },
    ;

    /// On failure, builds an envelope whose backtrace starts empty — no
    /// frame is captured; on success, passes the value through.
    fn no_loc(self) -> (r: LocationResult<T>)
        ensures
            match r {
                Ok(v) => self.spec_success() == Some(v),
                Err(e) => self.spec_success() is None && e@.chain == self.spec_chain()
                    && e@.trace == Seq::<LocView>::empty(),
            },
    ;
}

impl<T> ToLocation<T> for Result<T, anyhow::Error> {
    open spec fn spec_success(self) -> Option<T> {
        match self {
            Ok(v) => Some(v),
            Err(_) => None,
        }
    }

    open spec fn spec_chain(self) -> Seq<Seq<char>> {
        match self {
            Ok(_) => arbitrary(),
            Err(e) => source_chain(e),
        }
    }

    fn loc(self, at: Location) -> (r: LocationResult<T>) {
        match self {
            Ok(ok) => Ok(ok),
            Err(err) => Err(LocationError::new(err, at)),
        }
    }

    fn no_loc(self) -> (r: LocationResult<T>) {
        match self {
            Ok(ok) => Ok(ok),
            Err(err) => {
                let backtrace: Vec<Location> = Vec::new();
                let e = LocationError { source: err, backtrace };
                proof {
                    assert(e@.trace =~= Seq::<LocView>::empty());
                }
                Err(e)
            },
        }
    }
}

impl<T> ToLocation<T> for Option<T> {
    open spec fn spec_success(self) -> Option<T> {
        self
    }

    /// An absent optional value converts to the fixed sentinel message.
    open spec fn spec_chain(self) -> Seq<Seq<char>> {
        seq!["Option was None"@]
    }

    fn loc(self, at: Location) -> (r: LocationResult<T>) {
        match self {
            Some(some) => Ok(some),
            None => Err(LocationError::new(absence_failure(), at)),
        }
    }

    fn no_loc(self) -> (r: LocationResult<T>) {
        match self {
            Some(some) => Ok(some),
            None => {
                let backtrace: Vec<Location> = Vec::new();
                let e = LocationError { source: absence_failure(), backtrace };
                proof {
                    assert(e@.trace =~= Seq::<LocView>::empty());
                }
                Err(e)
            },
        }
    }
}

/// The single-layer failure an absent optional value converts to: its
/// message is exactly the sentinel text.
fn absence_failure() -> (e: anyhow::Error)
    ensures
        source_chain(e) == seq!["Option was None"@],
{
    let text = "Option was None";
    opaque_from_message(DisplayString(text.to_owned()))
}

} // verus!
