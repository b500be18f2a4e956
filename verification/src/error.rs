//! The error-chain data model: call-site locations, chain nodes, and the
//! owned singly-linked cause chain.

use vstd::prelude::*;

verus! {

/// A captured call site: file, line and column of the propagation call.
///
/// Immutable after construction. Line and column are 1-based.
#[derive(Clone, Copy)]
pub struct Location {
    pub file: &'static str,
    pub line: u32,
    pub col: u32,
}

impl Location {
    /// A location is well formed when line and column are 1-based.
    pub open spec fn wf(self) -> bool {
        self.line >= 1 && self.col >= 1
    }

    /// Captures a call site from its three components.
    pub fn new(file: &'static str, line: u32, col: u32) -> (r: Location)
        requires
            line >= 1,
            col >= 1,
        ensures
            r.file@ == file@,
            r.line == line,
            r.col == col,
            r.wf(),
    {
        Location { file, line, col }
    }
}

/// The mathematical model of one chain node: its name, optional message,
/// and the components of its captured location.
pub ghost struct Node {
    pub name: Seq<char>,
    pub message: Option<Seq<char>>,
    pub file: Seq<char>,
    pub line: u32,
    pub col: u32,
}

/// One node of the cause chain: a human-facing name, an optional message,
/// the captured call site, and an optional exclusively-owned deeper cause.
pub struct ErrorImpl {
    pub name: &'static str,
    pub message: Option<String>,
    pub location: Location,
    pub cause: Option<Error>,
}

/// An error-chain record. Owns its whole cause chain; never mutated after
/// construction.
pub struct Error(pub Box<ErrorImpl>);

/// The label carried by nodes that wrap an existing record of this library.
pub open spec fn own_label() -> Seq<char> {
    "lokerro::Error"@
}

/// The label carried by nodes captured from an absent optional value.
pub open spec fn absent_label() -> Seq<char> {
    "Option"@
}

/// The model of the node that `e` itself contributes to the chain.
pub open spec fn node_of(e: ErrorImpl) -> Node {
    Node {
        name: e.name@,
        message: match e.message {
            Option::Some(m) => Option::Some(m@),
            Option::None => Option::None,
        },
        file: e.location.file@,
        line: e.location.line,
        col: e.location.col,
    }
}

/// The chain of `e` as a sequence of node models, outermost first.
pub open spec fn chain_of(e: Error) -> Seq<Node>
    decreases e,
{
    seq![node_of(*e.0)] + match e.0.cause {
        Option::Some(c) => chain_of(c),
        Option::None => Seq::empty(),
    }
}

impl View for Error {
    type V = Seq<Node>;

    open spec fn view(&self) -> Seq<Node> {
        chain_of(*self)
    }
}

/// The model of a node built from the given parts at the given location.
pub open spec fn made_node(
    name: Seq<char>,
    message: Option<Seq<char>>,
    location: Location,
) -> Node {
    Node {
        name: name,
        message: message,
        file: location.file@,
        line: location.line,
        col: location.col,
    }
}

/// Every chain holds at least its own node.
pub proof fn lemma_chain_nonempty(e: Error)
    ensures
        chain_of(e).len() >= 1,
{
}

impl Error {
    /// Builds one new chain node from its parts; the whole chain of the
    /// record is the new node followed by the chain of the given cause.
    pub fn new(
        name: &'static str,
        msg: Option<String>,
        location: Location,
        cause: Option<Error>,
    ) -> (e: Error)
        ensures
            e@ == seq![
                made_node(
                    name@,
                    match msg {
                        Option::Some(m) => Option::Some(m@),
                        Option::None => Option::None::<Seq<char>>,
                    },
                    location,
                ),
            ] + match cause {
                Option::Some(c) => c@,
                Option::None => Seq::<Node>::empty(),
            },
    {
        let e = Error(
            Box::new(
                ErrorImpl { name: name, message: msg, location: location, cause: cause },
            ),
        );
        proof {
            assert(e@ =~= seq![node_of(*e.0)] + match e.0.cause {
                Option::Some(c) => chain_of(c),
                Option::None => Seq::<Node>::empty(),
            });
        }
        e
    }
}

/// The outcome type of this library: success carries the payload, failure
/// carries exactly one error-chain record.
pub type LokerroResult<T> = core::result::Result<T, Error>;

} // verus!
