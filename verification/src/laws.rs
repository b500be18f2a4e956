//! Laws of the chain formatter, stated over the chain and rendering models.

use vstd::prelude::*;
use crate::error::Node;
use crate::error::Location;
use crate::foreign::ForeignNode;
use crate::foreign::bridged_chain;
use crate::foreign::bridged_node;
use crate::render::dec_str;
use crate::render::digit_spec;
use crate::render::line_of;
use crate::render::render_chain;

verus! {

/// Holds when the text contains no line break.
pub open spec fn no_newline(s: Seq<char>) -> bool {
    forall|i: int| 0 <= i < s.len() ==> s[i] != '\n'
}

/// Holds when none of the node's own texts contains a line break, so that
/// the node's rendered line is exactly one line.
pub open spec fn node_plain(n: Node) -> bool {
    &&& no_newline(n.name)
    &&& no_newline(n.file)
    &&& match n.message {
        Option::Some(m) => no_newline(m),
        Option::None => true,
    }
}

/// The number of line breaks in the text.
pub open spec fn nl_count(s: Seq<char>) -> nat
    decreases s.len(),
{
    if s.len() == 0 {
        0
    } else {
        nl_count(s.drop_last()) + if s.last() == '\n' {
            1nat
        } else {
            0nat
        }
    }
}

/// Line breaks count across concatenation.
pub proof fn lemma_nl_count_app(a: Seq<char>, b: Seq<char>)
    ensures
        nl_count(a + b) == nl_count(a) + nl_count(b),
    decreases b.len(),
{
    if b.len() == 0 {
        assert(a + b =~= a);
    } else {
        assert((a + b).drop_last() =~= a + b.drop_last());
        assert((a + b).last() == b.last());
        lemma_nl_count_app(a, b.drop_last());
    }
}

/// A text without line breaks has none to count.
pub proof fn lemma_nl_count_zero(s: Seq<char>)
    requires
        no_newline(s),
    ensures
        nl_count(s) == 0,
    decreases s.len(),
{
    if s.len() > 0 {
        assert(no_newline(s.drop_last()));
        lemma_nl_count_zero(s.drop_last());
    }
}

/// Decimal digits hold no line break.
pub proof fn lemma_dec_str_no_newline(n: nat)
    ensures
        no_newline(dec_str(n)),
    decreases n,
{
    assert(digit_spec(n % 10) != '\n');
    assert(digit_spec(n) != '\n');
    if n >= 10 {
        lemma_dec_str_no_newline(n / 10);
        assert forall|i: int| 0 <= i < dec_str(n).len() implies dec_str(n)[i] != '\n' by {
            if i < dec_str(n / 10).len() {
                assert(dec_str(n)[i] == dec_str(n / 10)[i]);
            } else {
                assert(dec_str(n)[i] == digit_spec(n % 10));
            }
        }
    }
}

/// The formatter's own separators hold no line break, and its line
/// terminator is exactly one.
proof fn lemma_separators_plain()
    ensures
        no_newline(" in "@),
        no_newline(" -> `"@),
        no_newline("` in "@),
        no_newline(":"@),
        no_newline("Caused by: "@),
        nl_count("\n"@) == 1,
{
    reveal_strlit(" in ");
    reveal_strlit(" -> `");
    reveal_strlit("` in ");
    reveal_strlit(":");
    reveal_strlit("Caused by: ");
    reveal_strlit("\n");
    assert("\n"@.drop_last().len() == 0);
    assert(nl_count("\n"@.drop_last()) == 0);
    assert("\n"@.last() == '\n');
}

/// A node whose texts hold no line break renders as exactly one line.
pub proof fn lemma_line_newlines(n: Node)
    requires
        node_plain(n),
    ensures
        nl_count(line_of(n)) == 1,
{
    lemma_separators_plain();
    lemma_dec_str_no_newline(n.line as nat);
    lemma_dec_str_no_newline(n.col as nat);
    let mid = match n.message {
        Option::None => " in "@,
        Option::Some(m) => " -> `"@ + m + "` in "@,
    };
    match n.message {
        Option::None => {
            lemma_nl_count_zero(mid);
        },
        Option::Some(m) => {
            lemma_nl_count_app(" -> `"@, m);
            lemma_nl_count_app(" -> `"@ + m, "` in "@);
            lemma_nl_count_zero(" -> `"@);
            lemma_nl_count_zero(m);
            lemma_nl_count_zero("` in "@);
        },
    }
    lemma_nl_count_zero(n.name);
    lemma_nl_count_zero(n.file);
    lemma_nl_count_zero(":"@);
    lemma_nl_count_zero(dec_str(n.line as nat));
    lemma_nl_count_zero(dec_str(n.col as nat));
    lemma_nl_count_app(n.name, mid);
    lemma_nl_count_app(n.name + mid, n.file);
    lemma_nl_count_app(n.name + mid + n.file, ":"@);
    lemma_nl_count_app(n.name + mid + n.file + ":"@, dec_str(n.line as nat));
    lemma_nl_count_app(n.name + mid + n.file + ":"@ + dec_str(n.line as nat), ":"@);
    lemma_nl_count_app(
        n.name + mid + n.file + ":"@ + dec_str(n.line as nat) + ":"@,
        dec_str(n.col as nat),
    );
    lemma_nl_count_app(
        n.name + mid + n.file + ":"@ + dec_str(n.line as nat) + ":"@ + dec_str(n.col as nat),
        "\n"@,
    );
}

/// The rendered text of a chain of depth N has exactly N lines, provided no
/// node's own texts hold a line break; together with the formatter's
/// definition and the propagation contracts, the lines run from the
/// outermost (most recent) annotation down to the original failure.
pub proof fn lemma_rendered_line_count(ns: Seq<Node>)
    requires
        forall|i: int| 0 <= i < ns.len() ==> node_plain(#[trigger] ns[i]),
    ensures
        nl_count(render_chain(ns)) == ns.len(),
    decreases ns.len(),
{
    if ns.len() == 0 {
    } else if ns.len() == 1 {
        lemma_line_newlines(ns[0]);
    } else {
        lemma_line_newlines(ns[0]);
        lemma_separators_plain();
        lemma_nl_count_zero("Caused by: "@);
        assert(forall|i: int|
            0 <= i < ns.drop_first().len() ==> node_plain(#[trigger] ns.drop_first()[i]));
        lemma_rendered_line_count(ns.drop_first());
        lemma_nl_count_app(line_of(ns[0]), "Caused by: "@);
        lemma_nl_count_app(line_of(ns[0]) + "Caused by: "@, render_chain(ns.drop_first()));
    }
}

/// The rendered line of a node standing behind the first one.
pub open spec fn prefixed_line(n: Node) -> Seq<char> {
    "Caused by: "@ + line_of(n)
}

/// The prefixed lines of the given nodes, one per node, in their order.
pub open spec fn prefixed_lines(ns: Seq<Node>) -> Seq<Seq<char>> {
    ns.map(|i: int, n: Node| prefixed_line(n))
}

/// The rendered text of a chain is exactly the first node's line followed
/// by one prefixed line per deeper node, in chain order: outermost (most
/// recently added) annotation first, original failure last.
pub proof fn lemma_render_line_structure(ns: Seq<Node>)
    requires
        ns.len() >= 1,
    ensures
        render_chain(ns) == line_of(ns[0]) + prefixed_lines(ns.drop_first()).flatten(),
    decreases ns.len(),
{
    let tail = prefixed_lines(ns.drop_first());
    if ns.len() == 1 {
        assert(tail.len() == 0);
        assert(render_chain(ns) =~= line_of(ns[0]) + tail.flatten());
    } else {
        let rest = ns.drop_first();
        lemma_render_line_structure(rest);
        assert(tail.drop_first() =~= prefixed_lines(rest.drop_first()));
        assert(tail.first() == prefixed_line(rest[0]));
        assert(tail.flatten() == tail.first().add(tail.drop_first().flatten()));
        assert(render_chain(ns) =~= line_of(ns[0]) + tail.flatten());
    }
}

/// Rendering is a pure function of the record's contents: records with
/// equal chains render to equal text.
pub proof fn lemma_render_pure(a: Seq<Node>, b: Seq<Node>)
    requires
        a == b,
    ensures
        render_chain(a) == render_chain(b),
{
}

/// A single captured node renders as exactly its own line: no `Caused by: `
/// line follows, whatever the discarded foreign value may have reported; and
/// when the node's texts hold no line break, the text is one line.
pub proof fn lemma_single_capture_renders_alone(n: Node)
    ensures
        render_chain(seq![n]) == line_of(n),
        node_plain(n) ==> nl_count(render_chain(seq![n])) == 1,
{
    if node_plain(n) {
        lemma_line_newlines(n);
    }
}

/// Wrapping a bridged foreign chain yields one node per foreign level after
/// the new top node: the chain's depth is one more than the foreign error's
/// own, and the nodes follow the foreign order. In particular a foreign
/// error with a two-level cause chain yields a three-node chain.
pub proof fn lemma_structured_wrap_depth(top: Node, fs: Seq<ForeignNode>, location: Location)
    ensures
        (seq![top] + bridged_chain(fs, location)).len() == 1 + fs.len(),
        (seq![top] + bridged_chain(fs, location))[0] == top,
        forall|i: int|
            0 <= i < fs.len() ==> (seq![top] + bridged_chain(fs, location))[i + 1]
                == bridged_node(#[trigger] fs[i], location),
{
}

} // verus!
