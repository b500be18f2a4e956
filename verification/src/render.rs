//! The chain formatter: a deterministic multi-line rendering of an error
//! chain, one line per node, outermost first.
//!
//! A node without a message renders as `<name> in <file>:<line>:<col>`; one
//! with a message as ``<name> -> `<message>` in <file>:<line>:<col>``. Every
//! line ends in a line break, and every line after the first carries the
//! prefix `Caused by: `.

use vstd::prelude::*;
use vstd::string::StringExecFns;
use crate::error::Error;
use crate::error::Node;
use crate::error::chain_of;
use crate::error::node_of;

verus! {

/// The decimal digit character for `d`.
pub open spec fn digit_spec(d: nat) -> char {
    if d == 0 {
        '0'
    } else if d == 1 {
        '1'
    } else if d == 2 {
        '2'
    } else if d == 3 {
        '3'
    } else if d == 4 {
        '4'
    } else if d == 5 {
        '5'
    } else if d == 6 {
        '6'
    } else if d == 7 {
        '7'
    } else if d == 8 {
        '8'
    } else {
        '9'
    }
}

/// The usual decimal rendering of `n`: no sign, no leading zero except for
/// zero itself.
pub open spec fn dec_str(n: nat) -> Seq<char>
    decreases n,
{
    if n < 10 {
        seq![digit_spec(n)]
    } else {
        dec_str(n / 10) + seq![digit_spec(n % 10)]
    }
}

/// The rendered line of one node, including its trailing line break and
/// excluding any `Caused by: ` prefix.
pub open spec fn line_of(n: Node) -> Seq<char> {
    n.name + match n.message {
        Option::None => " in "@,
        Option::Some(m) => " -> `"@ + m + "` in "@,
    } + n.file + ":"@ + dec_str(n.line as nat) + ":"@ + dec_str(n.col as nat) + "\n"@
}

/// The rendered text of a whole chain: the first node's line, then each
/// deeper node's line behind a `Caused by: ` prefix.
pub open spec fn render_chain(ns: Seq<Node>) -> Seq<char>
    decreases ns.len(),
{
    if ns.len() == 0 {
        Seq::empty()
    } else if ns.len() == 1 {
        line_of(ns[0])
    } else {
        line_of(ns[0]) + "Caused by: "@ + render_chain(ns.drop_first())
    }
}

/// The single decimal digit character for `d`.
fn digit_char(d: u32) -> (r: &'static str)
    requires
        d < 10,
    ensures
        r@ == seq![digit_spec(d as nat)],
{
    if d == 0 {
        proof {
            reveal_strlit("0");
            assert("0"@ =~= seq![digit_spec(d as nat)]);
        }
        "0"
    } else if d == 1 {
        proof {
            reveal_strlit("1");
            assert("1"@ =~= seq![digit_spec(d as nat)]);
        }
        "1"
    } else if d == 2 {
        proof {
            reveal_strlit("2");
            assert("2"@ =~= seq![digit_spec(d as nat)]);
        }
        "2"
    } else if d == 3 {
        proof {
            reveal_strlit("3");
            assert("3"@ =~= seq![digit_spec(d as nat)]);
        }
        "3"
    } else if d == 4 {
        proof {
            reveal_strlit("4");
            assert("4"@ =~= seq![digit_spec(d as nat)]);
        }
        "4"
    } else if d == 5 {
        proof {
            reveal_strlit("5");
            assert("5"@ =~= seq![digit_spec(d as nat)]);
        }
        "5"
    } else if d == 6 {
        proof {
            reveal_strlit("6");
            assert("6"@ =~= seq![digit_spec(d as nat)]);
        }
        "6"
    } else if d == 7 {
        proof {
            reveal_strlit("7");
            assert("7"@ =~= seq![digit_spec(d as nat)]);
        }
        "7"
    } else if d == 8 {
        proof {
            reveal_strlit("8");
            assert("8"@ =~= seq![digit_spec(d as nat)]);
        }
        "8"
    } else {
        proof {
            reveal_strlit("9");
            assert("9"@ =~= seq![digit_spec(d as nat)]);
        }
        "9"
    }
}

/// Appends the decimal rendering of `n` to `out`.
fn push_dec(n: u32, out: &mut String)
    ensures
        final(out)@ == old(out)@ + dec_str(n as nat),
    decreases n,
{
    if n < 10 {
        out.append(digit_char(n));
    } else {
        push_dec(n / 10, out);
        out.append(digit_char(n % 10));
        proof {
            assert(final(out)@ =~= old(out)@ + dec_str(n as nat));
        }
    }
}

impl Error {
    /// Appends the rendered chain of `self` to `out`.
    fn render_append(&self, out: &mut String)
        ensures
            final(out)@ == old(out)@ + render_chain(chain_of(*self)),
        decreases *self,
    {
        out.append(self.0.name);
        match &self.0.message {
            Option::None => {
                out.append(" in ");
            },
            Option::Some(m) => {
                out.append(" -> `");
                out.append(m.as_str());
                out.append("` in ");
            },
        }
        out.append(self.0.location.file);
        out.append(":");
        push_dec(self.0.location.line, out);
        out.append(":");
        push_dec(self.0.location.col, out);
        out.append("\n");
        proof {
            assert(out@ =~= old(out)@ + line_of(node_of(*self.0)));
        }
        match &self.0.cause {
            Option::None => {
                proof {
                    assert(chain_of(*self) =~= seq![node_of(*self.0)]);
                }
            },
            Option::Some(c) => {
                out.append("Caused by: ");
                c.render_append(out);
                proof {
                    crate::error::lemma_chain_nonempty(*c);
                    assert(chain_of(*self)[0] == node_of(*self.0));
                    assert(chain_of(*self).drop_first() =~= chain_of(*c));
                    assert(final(out)@ =~= old(out)@ + render_chain(chain_of(*self)));
                }
            },
        }
    }

    /// Renders the whole chain: one line per node, outermost first, each
    /// line after the first prefixed with `Caused by: `. A pure function of
    /// the record's contents.
    pub fn render(&self) -> (s: String)
        ensures
            s@ == render_chain(self@),
    {
        let mut s = String::new();
        self.render_append(&mut s);
        proof {
            assert(s@ =~= render_chain(chain_of(*self)));
        }
        s
    }
}

} // verus!
