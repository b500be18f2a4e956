//! Structured foreign errors and the conversion bridge.
//!
//! A foreign error that can describe itself is carried into this library as
//! a [`ForeignError`]: the foreign type's identity, the foreign value's own
//! diagnostic text, and its optionally reported nested cause. Surrounding
//! code builds this description (for instance from a type's name, its debug
//! rendering and its reported source) and hands it over; the bridge then
//! converts the whole declared cause chain into an [`Error`] chain.
//!
//! All nodes synthesized by one bridge invocation carry the single location
//! given to that invocation: the bridge's own call site. Deeper nodes gain
//! new locations only through subsequent propagation calls.

use vstd::prelude::*;
use crate::error::Error;
use crate::error::Location;
use crate::error::Node;

verus! {

/// The model of one level of a structured foreign error: its type identity
/// and its own diagnostic text.
pub ghost struct ForeignNode {
    pub name: Seq<char>,
    pub text: Seq<char>,
}

/// A structured foreign error: a type identity, the value's own diagnostic
/// text, and the nested cause it reports, if any.
pub struct ForeignError {
    pub name: &'static str,
    pub text: String,
    pub source: Option<Box<ForeignError>>,
}

/// The declared cause chain of `f` as a sequence of levels, outermost first.
pub open spec fn foreign_chain_of(f: ForeignError) -> Seq<ForeignNode>
    decreases f,
{
    seq![ForeignNode { name: f.name@, text: f.text@ }] + match f.source {
        Option::Some(s) => foreign_chain_of(*s),
        Option::None => Seq::empty(),
    }
}

impl View for ForeignError {
    type V = Seq<ForeignNode>;

    open spec fn view(&self) -> Seq<ForeignNode> {
        foreign_chain_of(*self)
    }
}

/// The chain node a bridged foreign level becomes: the foreign name, the
/// foreign text as the message, and the bridge call site as the location.
pub open spec fn bridged_node(f: ForeignNode, location: Location) -> Node {
    Node {
        name: f.name,
        message: Option::Some(f.text),
        file: location.file@,
        line: location.line,
        col: location.col,
    }
}

/// The chain that bridging a whole foreign cause chain produces: one node
/// per foreign level, in the foreign order, all at the bridge call site.
pub open spec fn bridged_chain(fs: Seq<ForeignNode>, location: Location) -> Seq<Node> {
    fs.map(|i: int, f: ForeignNode| bridged_node(f, location))
}

impl ForeignError {
    /// Describes one foreign error level over the description of the nested
    /// cause it reports, if any.
    pub fn new(name: &'static str, text: String, source: Option<ForeignError>) -> (f:
        ForeignError)
        ensures
            f@ == seq![ForeignNode { name: name@, text: text@ }] + match source {
                Option::Some(s) => s@,
                Option::None => Seq::<ForeignNode>::empty(),
            },
    {
        let f = ForeignError {
            name: name,
            text: text,
            source: match source {
                Option::Some(s) => Option::Some(Box::new(s)),
                Option::None => Option::None,
            },
        };
        proof {
            assert(f@ =~= seq![ForeignNode { name: f.name@, text: f.text@ }] + match f.source {
                Option::Some(s) => foreign_chain_of(*s),
                Option::None => Seq::<ForeignNode>::empty(),
            });
        }
        f
    }
}

impl Error {
    /// The conversion bridge: converts a structured foreign error and its
    /// whole declared cause chain into an error chain, one node per foreign
    /// level, each carrying the foreign level's identity as its name and
    /// the foreign level's diagnostic text as its message. Every produced
    /// node carries the single given location, the bridge's own call site.
    pub fn from_foreign(f: &ForeignError, location: Location) -> (e: Error)
        ensures
            e@ == bridged_chain(f@, location),
        decreases *f,
    {
        let cause = match &f.source {
            Option::Some(s) => Option::Some(Error::from_foreign(s, location)),
            Option::None => Option::None,
        };
        let e = Error::new(f.name, Option::Some(f.text.clone()), location, cause);
        proof {
            assert(e@ =~= bridged_chain(f@, location));
        }
        e
    }
}

} // verus!
