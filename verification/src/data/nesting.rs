//! The nesting of a data set, and what a reader makes of a data set that is
//! properly nested.
//!
//! A reader does not hold its parser to any nesting: it turns replies into
//! tokens one by one. Here a data set is written down as a tree, and it is
//! shown that a reader turns the replies of a parser that walks the tree
//! into the tree's tokens, with every sequence and every item closed where
//! it belongs.

use crate::data::dataset::{DicomDataToken, ReaderState, Reply};
use crate::data::stream::{law_run_in_two_parts, spec_run};
use crate::data::value::PrimitiveValue;
use crate::data::{DataElementHeader, Length, SequenceItemHeader, Tag, VR};
use crate::error::{Error, IoError, IoErrorKind, Result};
use vstd::prelude::*;

verus! {

/// A part of a properly nested data set.
pub ghost enum Node {
    /// A primitive element: a header and its value.
    Primitive { header: DataElementHeader, value: PrimitiveValue },
    /// A sequence element: a header, items, and the sequence delimiter.
    Sequence { header: DataElementHeader, items: Seq<Node> },
    /// An item of a sequence: the item header, the elements of the item's
    /// data set, and the element header that delimits the item.
    Item { len: Length, elements: Seq<Node>, delimiter: DataElementHeader },
}

impl Node {
    /// Whether this part is a data element, primitive or sequence.
    pub open spec fn spec_is_element(self) -> bool {
        self is Primitive || self is Sequence
    }

    /// Whether this part is built as its kind demands, all the way down: a
    /// primitive element's header is neither a sequence header nor an item
    /// delimiter; a sequence header has the value representation `SQ` and
    /// holds items only; an item holds data elements only and ends with an
    /// item delimiter.
    pub open spec fn spec_well_formed(self) -> bool
        decreases self,
    {
        match self {
            Node::Primitive { header, .. } => header.vr != VR::SQ && header.tag
                != Tag::spec_item_delimiter(),
            Node::Sequence { header, items } => header.vr == VR::SQ && forall|i: int|
                0 <= i < items.len() ==> (#[trigger] items[i]) is Item
                    && items[i].spec_well_formed(),
            Node::Item { elements, delimiter, .. } => delimiter.vr != VR::SQ && delimiter.tag
                == Tag::spec_item_delimiter() && forall|i: int|
                0 <= i < elements.len() ==> (#[trigger] elements[i]).spec_is_element()
                    && elements[i].spec_well_formed(),
        }
    }

    /// What a parser replies while it walks this part.
    pub open spec fn spec_replies(self) -> Seq<Reply>
        decreases self, 0nat,
    {
        match self {
            Node::Primitive { header, value } => seq![
                Reply::ElementHeader(Ok(header)),
                Reply::Value(Ok(value)),
            ],
            Node::Sequence { header, items } => seq![Reply::ElementHeader(Ok(header))]
                + spec_replies_of(items) + seq![
                Reply::ItemHeader(Ok(SequenceItemHeader::SequenceDelimiter)),
            ],
            Node::Item { len, elements, delimiter } => seq![
                Reply::ItemHeader(Ok(SequenceItemHeader::Item { len })),
            ] + spec_replies_of(elements) + seq![Reply::ElementHeader(Ok(delimiter))],
        }
    }

    /// The tokens of this part: those of what it holds, between a token that
    /// opens it and a token that closes it.
    pub open spec fn spec_tokens(self) -> Seq<DicomDataToken>
        decreases self, 0nat,
    {
        match self {
            Node::Primitive { header, value } => seq![
                DicomDataToken::ElementHeader(header),
                DicomDataToken::PrimitiveValue(value),
            ],
            Node::Sequence { header, items } => seq![
                DicomDataToken::SequenceStart { tag: header.tag, len: header.len },
            ] + spec_tokens_of(items) + seq![DicomDataToken::SequenceEnd],
            Node::Item { len, elements, .. } => seq![DicomDataToken::ItemStart { len }]
                + spec_tokens_of(elements) + seq![DicomDataToken::ItemEnd],
        }
    }
}

/// What a parser replies while it walks the given parts, one after the other.
pub open spec fn spec_replies_of(nodes: Seq<Node>) -> Seq<Reply>
    decreases nodes, nodes.len(),
{
    if nodes.len() == 0 {
        Seq::empty()
    } else {
        spec_replies_of(nodes.drop_last()) + nodes.last().spec_replies()
    }
}

/// The tokens of the given parts, one after the other.
pub open spec fn spec_tokens_of(nodes: Seq<Node>) -> Seq<DicomDataToken>
    decreases nodes, nodes.len(),
{
    if nodes.len() == 0 {
        Seq::empty()
    } else {
        spec_tokens_of(nodes.drop_last()) + nodes.last().spec_tokens()
    }
}

/// The tokens as a reader puts them out when nothing fails.
pub open spec fn spec_all_ok(tokens: Seq<DicomDataToken>) -> Seq<Result<DicomDataToken>> {
    tokens.map_values(|token: DicomDataToken| Ok::<DicomDataToken, Error>(token))
}

/// The two kinds of brackets in a token stream.
pub ghost enum Bracket {
    /// A sequence, from its start to its end.
    Sequence,
    /// An item, from its start to its end.
    Item,
}

/// Whether a token opens a bracket of the given kind.
pub open spec fn spec_opens(token: DicomDataToken, kind: Bracket) -> bool {
    match kind {
        Bracket::Sequence => token is SequenceStart,
        Bracket::Item => token is ItemStart,
    }
}

/// Whether a token closes a bracket of the given kind.
pub open spec fn spec_closes(token: DicomDataToken, kind: Bracket) -> bool {
    match kind {
        Bracket::Sequence => token is SequenceEnd,
        Bracket::Item => token is ItemEnd,
    }
}

/// How many brackets of the given kind are open behind the tokens, if the
/// given number were open before them; `None` if one of the tokens closes a
/// bracket where none is open.
pub open spec fn spec_level(tokens: Seq<DicomDataToken>, kind: Bracket, level: int) -> Option<int>
    decreases tokens.len(),
{
    if tokens.len() == 0 {
        Some(level)
    } else {
        match spec_level(tokens.drop_last(), kind, level) {
            Some(before) => if spec_opens(tokens.last(), kind) {
                Some(before + 1)
            } else if spec_closes(tokens.last(), kind) {
                if before > 0 {
                    Some(before - 1)
                } else {
                    None
                }
            } else {
                Some(before)
            },
            None => None,
        }
    }
}

/// How many of the tokens open a bracket of the given kind.
pub open spec fn spec_count_opening(tokens: Seq<DicomDataToken>, kind: Bracket) -> int
    decreases tokens.len(),
{
    if tokens.len() == 0 {
        0
    } else {
        spec_count_opening(tokens.drop_last(), kind) + if spec_opens(tokens.last(), kind) {
            1int
        } else {
            0int
        }
    }
}

/// How many of the tokens close a bracket of the given kind.
pub open spec fn spec_count_closing(tokens: Seq<DicomDataToken>, kind: Bracket) -> int
    decreases tokens.len(),
{
    if tokens.len() == 0 {
        0
    } else {
        spec_count_closing(tokens.drop_last(), kind) + if spec_closes(tokens.last(), kind) {
            1int
        } else {
            0int
        }
    }
}

/// Whether the brackets of both kinds are balanced in the tokens: no token
/// closes a sequence or an item where none is open, and none is left open
/// at the end.
pub open spec fn spec_balanced(tokens: Seq<DicomDataToken>) -> bool {
    spec_level(tokens, Bracket::Sequence, 0) == Some(0int) && spec_level(
        tokens,
        Bracket::Item,
        0,
    ) == Some(0int)
}

/// The level behind two runs of tokens is the level behind the second,
/// taken from the level behind the first.
pub proof fn law_level_in_two_parts(
    first: Seq<DicomDataToken>,
    second: Seq<DicomDataToken>,
    kind: Bracket,
    level: int,
)
    ensures
        spec_level(first + second, kind, level) == match spec_level(first, kind, level) {
            Some(between) => spec_level(second, kind, between),
            None => None,
        },
    decreases second.len(),
{
    if second.len() == 0 {
        assert(first + second =~= first);
    } else {
        assert((first + second).drop_last() =~= first + second.drop_last());
        assert((first + second).last() == second.last());
        law_level_in_two_parts(first, second.drop_last(), kind, level);
    }
}

/// Where the level is defined, it has moved by as much as the tokens open
/// more brackets than they close; so tokens that are balanced open as many
/// brackets of a kind as they close.
pub proof fn law_level_counts(tokens: Seq<DicomDataToken>, kind: Bracket, level: int)
    requires
        spec_level(tokens, kind, level) is Some,
    ensures
        spec_level(tokens, kind, level)->Some_0 - level == spec_count_opening(tokens, kind)
            - spec_count_closing(tokens, kind),
    decreases tokens.len(),
{
    if tokens.len() > 0 {
        law_level_counts(tokens.drop_last(), kind, level);
    }
}

/// The tokens of a well-formed part leave every level as they found it.
pub proof fn law_part_is_balanced(node: Node, kind: Bracket, level: int)
    requires
        node.spec_well_formed(),
        level >= 0,
    ensures
        spec_level(node.spec_tokens(), kind, level) == Some(level),
    decreases node, 0nat,
{
    reveal_with_fuel(spec_level, 3);
    match node {
        Node::Primitive { header, value } => {
            let tokens = node.spec_tokens();
            assert(tokens.drop_last() =~= seq![DicomDataToken::ElementHeader(header)]);
            assert(tokens.drop_last().drop_last() =~= Seq::<DicomDataToken>::empty());
        },
        Node::Sequence { header, items } => {
            let open = seq![DicomDataToken::SequenceStart { tag: header.tag, len: header.len }];
            let close = seq![DicomDataToken::SequenceEnd];
            let inner = if kind is Sequence {
                level + 1
            } else {
                level
            };
            assert(open.drop_last() =~= Seq::<DicomDataToken>::empty());
            assert(close.drop_last() =~= Seq::<DicomDataToken>::empty());
            assert(spec_level(open, kind, level) == Some(inner));
            law_parts_are_balanced(items, kind, inner);
            law_level_in_two_parts(open, spec_tokens_of(items), kind, level);
            assert(spec_level(close, kind, inner) == Some(level));
            law_level_in_two_parts(open + spec_tokens_of(items), close, kind, level);
        },
        Node::Item { len, elements, delimiter } => {
            let open = seq![DicomDataToken::ItemStart { len }];
            let close = seq![DicomDataToken::ItemEnd];
            let inner = if kind is Item {
                level + 1
            } else {
                level
            };
            assert(open.drop_last() =~= Seq::<DicomDataToken>::empty());
            assert(close.drop_last() =~= Seq::<DicomDataToken>::empty());
            assert(spec_level(open, kind, level) == Some(inner));
            law_parts_are_balanced(elements, kind, inner);
            law_level_in_two_parts(open, spec_tokens_of(elements), kind, level);
            assert(spec_level(close, kind, inner) == Some(level));
            law_level_in_two_parts(open + spec_tokens_of(elements), close, kind, level);
        },
    }
}

/// The tokens of well-formed parts, one after the other, leave every level
/// as they found it.
pub proof fn law_parts_are_balanced(nodes: Seq<Node>, kind: Bracket, level: int)
    requires
        forall|i: int| 0 <= i < nodes.len() ==> (#[trigger] nodes[i]).spec_well_formed(),
        level >= 0,
    ensures
        spec_level(spec_tokens_of(nodes), kind, level) == Some(level),
    decreases nodes, nodes.len(),
{
    if nodes.len() > 0 {
        law_parts_are_balanced(nodes.drop_last(), kind, level);
        law_part_is_balanced(nodes.last(), kind, level);
        law_level_in_two_parts(
            spec_tokens_of(nodes.drop_last()),
            nodes.last().spec_tokens(),
            kind,
            level,
        );
    }
}

/// Whether a reader in this state is where the given kind of part begins:
/// live, with no value pending, and expecting an item header for an item,
/// an element header for an element.
pub open spec fn spec_ready_for(state: ReaderState, item: bool) -> bool {
    !state.hard_break && state.last_header is None && state.in_sequence == item
}

/// A reader turns the replies of a walk over a well-formed part into the
/// tokens of that part, and is afterwards where it was before, at the same
/// depth.
pub proof fn law_part_is_mirrored(state: ReaderState, node: Node)
    requires
        node.spec_well_formed(),
        spec_ready_for(state, node is Item),
    ensures
        spec_run(state, node.spec_replies()) == (state, spec_all_ok(node.spec_tokens())),
    decreases node, 0nat,
{
    reveal_with_fuel(spec_run, 3);
    match node {
        Node::Primitive { header, value } => {
            let replies = node.spec_replies();
            assert(replies.drop_first() =~= seq![Reply::Value(Ok(value))]);
            assert(replies.drop_first().drop_first() =~= Seq::<Reply>::empty());
            assert(spec_run(state, replies).1 =~= spec_all_ok(node.spec_tokens()));
        },
        Node::Sequence { header, items } => {
            let open = seq![Reply::ElementHeader(Ok(header))];
            let close = seq![Reply::ItemHeader(Ok(SequenceItemHeader::SequenceDelimiter))];
            let inside = state.spec_on_header(Ok(header)).0;
            assert(open.drop_first() =~= Seq::<Reply>::empty());
            assert(close.drop_first() =~= Seq::<Reply>::empty());
            law_parts_are_mirrored(inside, items, true);
            law_run_in_two_parts(state, open, spec_replies_of(items));
            law_run_in_two_parts(state, open + spec_replies_of(items), close);
            assert(spec_run(state, node.spec_replies()).0 == state);
            assert(spec_run(state, node.spec_replies()).1 =~= spec_all_ok(node.spec_tokens()));
        },
        Node::Item { len, elements, delimiter } => {
            let open = seq![Reply::ItemHeader(Ok(SequenceItemHeader::Item { len }))];
            let close = seq![Reply::ElementHeader(Ok(delimiter))];
            let inside = state.spec_on_item_header(Ok(SequenceItemHeader::Item { len })).0;
            assert(open.drop_first() =~= Seq::<Reply>::empty());
            assert(close.drop_first() =~= Seq::<Reply>::empty());
            law_parts_are_mirrored(inside, elements, false);
            law_run_in_two_parts(state, open, spec_replies_of(elements));
            law_run_in_two_parts(state, open + spec_replies_of(elements), close);
            assert(spec_run(state, node.spec_replies()).0 == state);
            assert(spec_run(state, node.spec_replies()).1 =~= spec_all_ok(node.spec_tokens()));
        },
    }
}

/// A reader turns the replies of a walk over well-formed parts of one kind,
/// one after the other, into the tokens of those parts, and is afterwards
/// where it was before, at the same depth.
pub proof fn law_parts_are_mirrored(state: ReaderState, nodes: Seq<Node>, items: bool)
    requires
        forall|i: int|
            0 <= i < nodes.len() ==> (#[trigger] nodes[i]).spec_well_formed() && (nodes[i]
                is Item) == items,
        spec_ready_for(state, items),
    ensures
        spec_run(state, spec_replies_of(nodes)) == (state, spec_all_ok(spec_tokens_of(nodes))),
    decreases nodes, nodes.len(),
{
    if nodes.len() == 0 {
        assert(spec_run(state, spec_replies_of(nodes)).1 =~= spec_all_ok(spec_tokens_of(nodes)));
    } else {
        law_parts_are_mirrored(state, nodes.drop_last(), items);
        law_part_is_mirrored(state, nodes.last());
        law_run_in_two_parts(
            state,
            spec_replies_of(nodes.drop_last()),
            nodes.last().spec_replies(),
        );
        assert(spec_run(state, spec_replies_of(nodes)).1 =~= spec_all_ok(spec_tokens_of(nodes)));
    }
}

/// Balanced brackets: a new reader whose parser walks a properly nested data
/// set and then meets the end of the source puts out the tokens of the data
/// set and no error, and ends exhausted at depth zero. In these tokens no
/// sequence or item is closed that was not opened, none is left open, and as
/// many are opened as are closed.
pub proof fn law_nested_data_set_gives_balanced_tokens(elements: Seq<Node>, end: IoError)
    requires
        forall|i: int|
            0 <= i < elements.len() ==> (#[trigger] elements[i]).spec_well_formed()
                && elements[i].spec_is_element(),
        end.kind == IoErrorKind::UnexpectedEof,
    ensures
        ({
            let replies = spec_replies_of(elements).push(Reply::ElementHeader(Err(Error::Io(end))));
            let run = spec_run(ReaderState::spec_new(), replies);
            let tokens = spec_tokens_of(elements);
            &&& run.1 == spec_all_ok(tokens)
            &&& run.0 == ReaderState::spec_new().spec_fused()
            &&& spec_balanced(tokens)
            &&& spec_count_opening(tokens, Bracket::Sequence) == spec_count_closing(
                tokens,
                Bracket::Sequence,
            )
            &&& spec_count_opening(tokens, Bracket::Item) == spec_count_closing(
                tokens,
                Bracket::Item,
            )
        }),
{
    let state = ReaderState::spec_new();
    let last = seq![Reply::ElementHeader(Err(Error::Io(end)))];
    let tokens = spec_tokens_of(elements);
    assert(spec_replies_of(elements).push(Reply::ElementHeader(Err(Error::Io(end))))
        =~= spec_replies_of(elements) + last);
    assert forall|i: int| 0 <= i < elements.len() implies (#[trigger] elements[i]).spec_well_formed()
        && (elements[i] is Item) == false by {
        assert(elements[i].spec_is_element());
    }
    law_parts_are_mirrored(state, elements, false);
    law_run_in_two_parts(state, spec_replies_of(elements), last);
    reveal_with_fuel(spec_run, 2);
    assert(last.drop_first() =~= Seq::<Reply>::empty());
    assert(spec_run(state, last).1 =~= Seq::<Result<DicomDataToken>>::empty());
    assert(spec_all_ok(tokens) + Seq::<Result<DicomDataToken>>::empty() =~= spec_all_ok(tokens));
    law_parts_are_balanced(elements, Bracket::Sequence, 0);
    law_parts_are_balanced(elements, Bracket::Item, 0);
    law_level_counts(tokens, Bracket::Sequence, 0);
    law_level_counts(tokens, Bracket::Item, 0);
}

} // verus!
