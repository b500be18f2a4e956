//! The propagation contracts: extension operations applied to a fallible
//! outcome at a call site to annotate failures with a location and an
//! optional message.
//!
//! All contracts pass a success through unchanged. On failure each builds
//! exactly one new chain node at the given call site:
//!
//! - [`ErrorExt`] on an optional value captures an absent value as a fresh
//!   single-node chain, and on this library's own outcome wraps the existing
//!   record as the new node's cause;
//! - [`ErrorExtTrait`] on an outcome with a structured foreign error wraps
//!   the bridged conversion of the foreign error's whole declared cause
//!   chain;
//! - [`ErrorExtCompat`] on an outcome with an arbitrary opaque error
//!   deliberately discards the error value, keeping only the caller-supplied
//!   type identity: the capture has no cause, whatever the foreign value
//!   may secretly have reported.
//!
//! Call sites pass their own source position as a [`Location`]; the compat
//! contract also passes the foreign type's identity, since no static type
//! identity facility is available to verified code.

use vstd::prelude::*;
use crate::error::Error;
use crate::error::Location;
use crate::error::LokerroResult;
use crate::error::Node;
use crate::error::absent_label;
use crate::error::made_node;
use crate::error::own_label;
use crate::foreign::ForeignError;
use crate::foreign::bridged_chain;

verus! {

/// Propagation over an optional value or over this library's own outcome.
pub trait ErrorExt<T>: Sized {
    /// What `loc` returns for this input at this call site.
    spec fn loc_spec(self, location: Location, r: LokerroResult<T>) -> bool;

    /// What `loc_msg` returns for this input, message and call site.
    spec fn loc_msg_spec(self, msg: Seq<char>, location: Location, r: LokerroResult<T>) -> bool;

    /// Annotates a failure with the call site alone.
    fn loc(self, location: Location) -> (r: LokerroResult<T>)
        ensures
            self.loc_spec(location, r),
    ;

    /// Annotates a failure with the call site and a message.
    fn loc_msg(self, msg: &str, location: Location) -> (r: LokerroResult<T>)
        ensures
            self.loc_msg_spec(msg@, location, r),
    ;
}

/// Propagation over an outcome whose failure is a structured foreign error.
pub trait ErrorExtTrait<T>: Sized {
    /// What `loc` returns for this input at this call site.
    spec fn loc_spec(self, location: Location, r: LokerroResult<T>) -> bool;

    /// What `loc_msg` returns for this input, message and call site.
    spec fn loc_msg_spec(self, msg: Seq<char>, location: Location, r: LokerroResult<T>) -> bool;

    /// Converts and wraps a failure, annotated with the call site alone.
    fn loc(self, location: Location) -> (r: LokerroResult<T>)
        ensures
            self.loc_spec(location, r),
    ;

    /// Converts and wraps a failure, annotated with the call site and a
    /// message.
    fn loc_msg(self, msg: &str, location: Location) -> (r: LokerroResult<T>)
        ensures
            self.loc_msg_spec(msg@, location, r),
    ;
}

/// Lossy propagation over an outcome with an arbitrary, opaque error.
pub trait ErrorExtCompat<T>: Sized {
    /// What `loc_compat` returns for this input at this call site.
    spec fn loc_compat_spec(self, name: Seq<char>, location: Location, r: LokerroResult<T>) -> bool;

    /// What `loc_compat_msg` returns for this input, message and call site.
    spec fn loc_compat_msg_spec(
        self,
        name: Seq<char>,
        msg: Seq<char>,
        location: Location,
        r: LokerroResult<T>,
    ) -> bool;

    /// Captures a failure as a single node carrying the given type identity
    /// and the call site, discarding the foreign value's internals.
    fn loc_compat(self, name: &'static str, location: Location) -> (r: LokerroResult<T>)
        ensures
            self.loc_compat_spec(name@, location, r),
    ;

    /// Captures a failure as a single node carrying the given type identity,
    /// the message and the call site, discarding the foreign value's
    /// internals.
    fn loc_compat_msg(self, name: &'static str, msg: &str, location: Location) -> (r:
        LokerroResult<T>)
        ensures
            self.loc_compat_msg_spec(name@, msg@, location, r),
    ;
}

impl<T> ErrorExt<T> for Option<T> {
    /// A present value passes through; an absent one becomes a fresh
    /// single-node chain under the absent-value label, with no message and
    /// no cause.
    open spec fn loc_spec(self, location: Location, r: LokerroResult<T>) -> bool {
        match self {
            Option::Some(t) => r == Result::Ok::<T, Error>(t),
            Option::None => r matches Result::Err(e) && e@ == seq![
                made_node(absent_label(), Option::None, location),
            ],
        }
    }

    /// A present value passes through; an absent one becomes a fresh
    /// single-node chain under the absent-value label, carrying the given
    /// message and no cause.
    open spec fn loc_msg_spec(self, msg: Seq<char>, location: Location, r: LokerroResult<T>) -> bool {
        match self {
            Option::Some(t) => r == Result::Ok::<T, Error>(t),
            Option::None => r matches Result::Err(e) && e@ == seq![
                made_node(absent_label(), Option::Some(msg), location),
            ],
        }
    }

    fn loc(self, location: Location) -> (r: LokerroResult<T>)
        ensures
            self.loc_spec(location, r),
    {
        match self {
            Option::Some(t) => Result::Ok(t),
            Option::None => {
                let e = Error::new("Option", Option::None, location, Option::None);
                proof {
                    assert(e@ =~= seq![made_node(absent_label(), Option::None, location)]);
                }
                Result::Err(e)
            },
        }
    }

    fn loc_msg(self, msg: &str, location: Location) -> (r: LokerroResult<T>)
        ensures
            self.loc_msg_spec(msg@, location, r),
    {
        match self {
            Option::Some(t) => Result::Ok(t),
            Option::None => {
                let e = Error::new("Option", Option::Some(msg.to_owned()), location, Option::None);
                proof {
                    assert(e@ =~= seq![made_node(absent_label(), Option::Some(msg@), location)]);
                }
                Result::Err(e)
            },
        }
    }
}

impl<T> ErrorExt<T> for LokerroResult<T> {
    /// A success passes through; a failure is wrapped as the cause of one
    /// new node under this library's own label, with no message.
    open spec fn loc_spec(self, location: Location, r: LokerroResult<T>) -> bool {
        match self {
            Result::Ok(t) => r == Result::Ok::<T, Error>(t),
            Result::Err(prior) => r matches Result::Err(e) && e@ == seq![
                made_node(own_label(), Option::None, location),
            ] + prior@,
        }
    }

    /// A success passes through; a failure is wrapped as the cause of one
    /// new node under this library's own label, carrying the given message.
    open spec fn loc_msg_spec(self, msg: Seq<char>, location: Location, r: LokerroResult<T>) -> bool {
        match self {
            Result::Ok(t) => r == Result::Ok::<T, Error>(t),
            Result::Err(prior) => r matches Result::Err(e) && e@ == seq![
                made_node(own_label(), Option::Some(msg), location),
            ] + prior@,
        }
    }

    fn loc(self, location: Location) -> (r: LokerroResult<T>)
        ensures
            self.loc_spec(location, r),
    {
        match self {
            Result::Ok(t) => Result::Ok(t),
            Result::Err(prior) => Result::Err(
                Error::new("lokerro::Error", Option::None, location, Option::Some(prior)),
            ),
        }
    }

    fn loc_msg(self, msg: &str, location: Location) -> (r: LokerroResult<T>)
        ensures
            self.loc_msg_spec(msg@, location, r),
    {
        match self {
            Result::Ok(t) => Result::Ok(t),
            Result::Err(prior) => Result::Err(
                Error::new(
                    "lokerro::Error",
                    Option::Some(msg.to_owned()),
                    location,
                    Option::Some(prior),
                ),
            ),
        }
    }
}

impl<T> ErrorExtTrait<T> for core::result::Result<T, ForeignError> {
    /// A success passes through; a failure becomes one new node under the
    /// foreign type's identity, with no message, whose cause is the bridged
    /// conversion of the foreign error's whole declared cause chain, all at
    /// this call site.
    open spec fn loc_spec(self, location: Location, r: LokerroResult<T>) -> bool {
        match self {
            Result::Ok(t) => r == Result::Ok::<T, Error>(t),
            Result::Err(f) => r matches Result::Err(e) && e@ == seq![
                made_node(f.name@, Option::None, location),
            ] + bridged_chain(f@, location),
        }
    }

    /// Same as `loc_spec`, with the given message set on the new top node;
    /// the name is still the foreign type's identity.
    open spec fn loc_msg_spec(self, msg: Seq<char>, location: Location, r: LokerroResult<T>) -> bool {
        match self {
            Result::Ok(t) => r == Result::Ok::<T, Error>(t),
            Result::Err(f) => r matches Result::Err(e) && e@ == seq![
                made_node(f.name@, Option::Some(msg), location),
            ] + bridged_chain(f@, location),
        }
    }

    fn loc(self, location: Location) -> (r: LokerroResult<T>)
        ensures
            self.loc_spec(location, r),
    {
        match self {
            Result::Ok(t) => Result::Ok(t),
            Result::Err(f) => {
                let cause = Error::from_foreign(&f, location);
                Result::Err(Error::new(f.name, Option::None, location, Option::Some(cause)))
            },
        }
    }

    fn loc_msg(self, msg: &str, location: Location) -> (r: LokerroResult<T>)
        ensures
            self.loc_msg_spec(msg@, location, r),
    {
        match self {
            Result::Ok(t) => Result::Ok(t),
            Result::Err(f) => {
                let cause = Error::from_foreign(&f, location);
                Result::Err(
                    Error::new(f.name, Option::Some(msg.to_owned()), location, Option::Some(cause)),
                )
            },
        }
    }
}

impl<T, E> ErrorExtCompat<T> for core::result::Result<T, E> {
    /// A success passes through; a failure becomes a fresh single-node chain
    /// under the given type identity, with no message and no cause: nothing
    /// of the discarded foreign value survives.
    open spec fn loc_compat_spec(self, name: Seq<char>, location: Location, r: LokerroResult<T>) -> bool {
        match self {
            Result::Ok(t) => r == Result::Ok::<T, Error>(t),
            Result::Err(_) => r matches Result::Err(e) && e@ == seq![
                made_node(name, Option::None, location),
            ],
        }
    }

    /// Same as `loc_compat_spec`, with the given message on the one node.
    open spec fn loc_compat_msg_spec(
        self,
        name: Seq<char>,
        msg: Seq<char>,
        location: Location,
        r: LokerroResult<T>,
    ) -> bool {
        match self {
            Result::Ok(t) => r == Result::Ok::<T, Error>(t),
            Result::Err(_) => r matches Result::Err(e) && e@ == seq![
                made_node(name, Option::Some(msg), location),
            ],
        }
    }

    fn loc_compat(self, name: &'static str, location: Location) -> (r: LokerroResult<T>)
        ensures
            self.loc_compat_spec(name@, location, r),
    {
        match self {
            Result::Ok(t) => Result::Ok(t),
            Result::Err(_) => {
                let e = Error::new(name, Option::None, location, Option::None);
                proof {
                    assert(e@ =~= seq![made_node(name@, Option::None, location)]);
                }
                Result::Err(e)
            },
        }
    }

    fn loc_compat_msg(self, name: &'static str, msg: &str, location: Location) -> (r:
        LokerroResult<T>)
        ensures
            self.loc_compat_msg_spec(name@, msg@, location, r),
    {
        match self {
            Result::Ok(t) => Result::Ok(t),
            Result::Err(_) => {
                let e = Error::new(name, Option::Some(msg.to_owned()), location, Option::None);
                proof {
                    assert(e@ =~= seq![made_node(name@, Option::Some(msg@), location)]);
                }
                Result::Err(e)
            },
        }
    }
}

} // verus!
