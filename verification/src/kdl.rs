//! KDL documents as plain trees.
//!
//! The grammar is knuffel's. What it parsed is copied, node by node, into trees that hold no
//! more than the configuration reads: names, arguments, whether there are properties, children.

use knuffel::ast::{Node, Value};
use knuffel::span::{Span, Spanned};

use vstd::prelude::*;

verus! {

/// A position in the source text, as knuffel keeps it beside each parsed item.
#[verifier::external_type_specification]
#[verifier::external_body]
pub struct ExSpan(knuffel::span::Span);

/// A parsed item with its position.
#[verifier::external_type_specification]
#[verifier::external_body]
#[verifier::reject_recursive_types(T)]
#[verifier::reject_recursive_types(S)]
pub struct ExSpanned<T, S>(knuffel::span::Spanned<T, S>);

/// A node as knuffel parsed it.
#[verifier::external_type_specification]
#[verifier::external_body]
#[verifier::reject_recursive_types(S)]
pub struct ExNode<S>(knuffel::ast::Node<S>);

/// An argument as knuffel parsed it.
#[verifier::external_type_specification]
#[verifier::external_body]
#[verifier::reject_recursive_types(S)]
pub struct ExValue<S>(knuffel::ast::Value<S>);

/// What knuffel returns for a text that is no KDL document.
#[verifier::external_type_specification]
#[verifier::external_body]
pub struct ExKnuffelError(knuffel::Error);

/// A scalar as it is written. Numbers are told apart from the rest, but not read.
#[derive(Debug)]
pub enum Literal {
    Null,
    Bool(bool),
    Integer,
    Decimal,
    Text(String),
}

/// A scalar with or without a type annotation.
#[derive(Debug)]
pub struct Argument {
    /// Whether a type stands in parentheses before the value.
    pub typed: bool,
    pub literal: Literal,
}

/// A node with its whole subtree.
#[derive(Debug)]
pub struct KdlNode {
    pub name: String,
    /// Whether a type stands in parentheses before the name.
    pub typed: bool,
    pub arguments: Vec<Argument>,
    /// The number of distinct properties.
    pub properties: usize,
    pub children: Vec<KdlNode>,
}

/// The content of a scalar.
pub enum LiteralView {
    Null,
    Bool(bool),
    Integer,
    Decimal,
    Text(Seq<char>),
}

/// The content of an argument.
pub struct ArgumentView {
    pub typed: bool,
    pub literal: LiteralView,
}

/// The content of a node.
#[verifier::ext_equal]
pub struct KdlTree {
    pub name: Seq<char>,
    pub typed: bool,
    pub arguments: Seq<ArgumentView>,
    pub properties: nat,
    pub children: Seq<KdlTree>,
}

impl View for Literal {
    type V = LiteralView;

    open spec fn view(&self) -> LiteralView {
        match self {
            Literal::Null => LiteralView::Null,
            Literal::Bool(value) => LiteralView::Bool(*value),
            Literal::Integer => LiteralView::Integer,
            Literal::Decimal => LiteralView::Decimal,
            Literal::Text(text) => LiteralView::Text(text@),
        }
    }
}

impl View for Argument {
    type V = ArgumentView;

    open spec fn view(&self) -> ArgumentView {
        ArgumentView { typed: self.typed, literal: self.literal@ }
    }
}

impl KdlNode {
    /// The content of the node and of all below it.
    pub open spec fn tree(self) -> KdlTree
        decreases self,
    {
        KdlTree {
            name: self.name@,
            typed: self.typed,
            arguments: argument_views(self.arguments@),
            properties: self.properties as nat,
            children: Seq::new(
                self.children@.len(),
                |i: int|
                    if 0 <= i < self.children@.len() {
                        self.children@[i].tree()
                    } else {
                        arbitrary()
                    },
            ),
        }
    }
}

/// The contents of several arguments.
pub open spec fn argument_views(arguments: Seq<Argument>) -> Seq<ArgumentView> {
    arguments.map_values(|argument: Argument| argument@)
}

/// The contents of several nodes.
pub open spec fn trees(nodes: Seq<KdlNode>) -> Seq<KdlTree> {
    nodes.map_values(|node: KdlNode| node.tree())
}

/// An argument as knuffel parsed it: the literal, and the byte at which it starts.
pub struct OpenArgument {
    pub start: usize,
    pub literal: Literal,
}

/// A node as knuffel parsed it, without its subtree.
pub struct OpenNode {
    /// The byte at which the node starts.
    pub start: usize,
    /// The byte at which its name starts.
    pub name_start: usize,
    pub name: String,
    pub arguments: Vec<Value<Span>>,
    pub properties: usize,
    pub children: Vec<Spanned<Node<Span>, Span>>,
}

/// The content of an argument as knuffel parsed it.
pub struct ParsedArgument {
    pub start: nat,
    pub literal: LiteralView,
}

/// The content of a node as knuffel parsed it.
#[verifier::ext_equal]
pub struct ParsedTree {
    pub start: nat,
    pub name_start: nat,
    pub name: Seq<char>,
    pub arguments: Seq<ParsedArgument>,
    pub properties: nat,
    pub children: Seq<ParsedTree>,
}

/// The content of an argument that knuffel parsed.
pub uninterp spec fn parsed_argument(value: Value<Span>) -> ParsedArgument;

/// The contents of several arguments that knuffel parsed.
pub open spec fn parsed_arguments(values: Seq<Value<Span>>) -> Seq<ParsedArgument> {
    values.map_values(|value: Value<Span>| parsed_argument(value))
}

/// The content of a node that knuffel parsed.
pub uninterp spec fn parsed_tree(node: Spanned<Node<Span>, Span>) -> ParsedTree;

/// The contents of several nodes that knuffel parsed.
pub open spec fn parsed_trees(nodes: Seq<Spanned<Node<Span>, Span>>) -> Seq<ParsedTree> {
    nodes.map_values(|node: Spanned<Node<Span>, Span>| parsed_tree(node))
}

/// The top-level nodes that `knuffel::parse_ast` finds in a text; `None` where it reports an
/// error.
pub uninterp spec fn parsed_document(text: Seq<char>) -> Option<Seq<ParsedTree>>;

/// `knuffel::parse_ast`: the top-level nodes of a KDL document, in their order, or an error. The
/// result depends on the text alone. The file name given here only labels error reports. The
/// depth of its stack grows with the nesting of the nodes.
#[verifier::external_body]
fn parse_ast(text: &str) -> (nodes: Result<Vec<Spanned<Node<Span>, Span>>, knuffel::Error>)
    ensures
        match nodes {
            Ok(nodes) => parsed_document(text@) == Some(parsed_trees(nodes@)),
            Err(_) => parsed_document(text@) is None,
        },
{
    knuffel::parse_ast::<Span>("config.kdl", text).map(|document| document.nodes)
}

/// The fields of a `knuffel::ast::Node`, with `Node::children` for its children and
/// `Spanned::span` for the positions: it names the content of the node, and says that these make
/// it up, one for one.
#[verifier::external_body]
fn open_node(node: &Spanned<Node<Span>, Span>) -> (open: OpenNode)
    ensures
        parsed_tree(*node) == (ParsedTree {
            start: open.start as nat,
            name_start: open.name_start as nat,
            name: open.name@,
            arguments: parsed_arguments(open.arguments@),
            properties: open.properties as nat,
            children: parsed_trees(open.children@),
        }),
{
    OpenNode {
        start: node.span().0,
        name_start: node.node_name.span().0,
        name: String::from(&**node.node_name),
        arguments: node.arguments.clone(),
        properties: node.properties.len(),
        children: node.children().cloned().collect(),
    }
}

/// The literal of a `knuffel::ast::Value`, with `Spanned::span` for its position: it names the
/// content of the argument, and says that these make it up, one for one.
#[verifier::external_body]
fn open_argument(value: &Value<Span>) -> (open: OpenArgument)
    ensures
        parsed_argument(*value) == (ParsedArgument {
            start: open.start as nat,
            literal: open.literal@,
        }),
{
    OpenArgument {
        start: value.literal.span().0,
        literal: match &*value.literal {
            knuffel::ast::Literal::Null => Literal::Null,
            knuffel::ast::Literal::Bool(value) => Literal::Bool(*value),
            knuffel::ast::Literal::Int(_) => Literal::Integer,
            knuffel::ast::Literal::Decimal(_) => Literal::Decimal,
            knuffel::ast::Literal::String(text) => Literal::Text(String::from(&**text)),
        },
    }
}

/// The content of an argument in its text. A type annotation ends right before the literal, with
/// its closing parenthesis; no other argument follows one.
pub open spec fn plain_argument(source: Seq<u8>, argument: ParsedArgument) -> ArgumentView {
    ArgumentView {
        typed: 0 < argument.start <= source.len() && source[argument.start - 1] == 0x29,
        literal: argument.literal,
    }
}

/// The content of a node in its text. A node starts with its type annotation where it has one,
/// else with its name.
pub open spec fn plain_tree(source: Seq<u8>, parsed: ParsedTree) -> KdlTree
    decreases parsed,
{
    KdlTree {
        name: parsed.name,
        typed: parsed.start != parsed.name_start,
        arguments: parsed.arguments.map_values(
            |argument: ParsedArgument| plain_argument(source, argument),
        ),
        properties: parsed.properties,
        children: Seq::new(
            parsed.children.len(),
            |i: int|
                if 0 <= i < parsed.children.len() {
                    plain_tree(source, parsed.children[i])
                } else {
                    arbitrary()
                },
        ),
    }
}

/// The top-level nodes of a KDL document; `None` for a text that is none.
pub open spec fn kdl_document(text: Seq<char>) -> Option<Seq<KdlTree>> {
    match parsed_document(text) {
        Some(nodes) => Some(
            nodes.map_values(|node: ParsedTree| plain_tree(vstd::utf8::encode_utf8(text), node)),
        ),
        None => None,
    }
}

/// Copies the arguments of a parsed node.
fn copy_arguments(source: &[u8], values: &Vec<Value<Span>>) -> (arguments: Vec<Argument>)
    ensures
        argument_views(arguments@) == parsed_arguments(values@).map_values(
            |argument: ParsedArgument| plain_argument(source@, argument),
        ),
{
    let mut arguments: Vec<Argument> = Vec::new();
    let mut i: usize = 0;
    while i < values.len()
        invariant
            i <= values@.len(),
            arguments@.len() == i,
            forall|j: int|
                0 <= j < i ==> (#[trigger] arguments@[j])@ == plain_argument(
                    source@,
                    parsed_argument(values@[j]),
                ),
        decreases values@.len() - i,
    {
        let open = open_argument(&values[i]);
        let typed = 0 < open.start && open.start <= source.len() && source[open.start - 1] == 0x29;
        arguments.push(Argument { typed, literal: open.literal });
        i = i + 1;
    }
    assert(argument_views(arguments@) =~= parsed_arguments(values@).map_values(
        |argument: ParsedArgument| plain_argument(source@, argument),
    ));
    arguments
}

/// Copies a parsed node with its whole subtree.
fn copy_node(source: &[u8], node: &Spanned<Node<Span>, Span>) -> (copy: KdlNode)
    ensures
        copy.tree() == plain_tree(source@, parsed_tree(*node)),
    decreases parsed_tree(*node),
{
    let open = open_node(node);
    let arguments = copy_arguments(source, &open.arguments);
    let mut children: Vec<KdlNode> = Vec::new();
    let mut i: usize = 0;
    while i < open.children.len()
        invariant
            i <= open.children@.len(),
            children@.len() == i,
            forall|j: int|
                0 <= j < i ==> (#[trigger] children@[j]).tree() == plain_tree(
                    source@,
                    parsed_tree(open.children@[j]),
                ),
            parsed_tree(*node).children == parsed_trees(open.children@),
        decreases open.children@.len() - i,
    {
        assert(parsed_tree(open.children@[i as int]) == parsed_tree(*node).children[i as int]);
        children.push(copy_node(source, &open.children[i]));
        i = i + 1;
    }
    let copy = KdlNode {
        name: open.name,
        typed: open.start != open.name_start,
        arguments,
        properties: open.properties,
        children,
    };
    assert(copy.tree().children =~= plain_tree(source@, parsed_tree(*node)).children);
    copy
}

/// Parses a KDL document into plain trees; `None` where the text is none.
pub fn parse_document(text: &str) -> (nodes: Option<Vec<KdlNode>>)
    ensures
        match nodes {
            Some(nodes) => kdl_document(text@) == Some(trees(nodes@)),
            None => kdl_document(text@) is None,
        },
{
    let parsed = match parse_ast(text) {
        Ok(parsed) => parsed,
        Err(_) => {
            return None;
        },
    };
    let source = text.as_bytes();
    let mut nodes: Vec<KdlNode> = Vec::new();
    let mut i: usize = 0;
    while i < parsed.len()
        invariant
            i <= parsed@.len(),
            nodes@.len() == i,
            forall|j: int|
                0 <= j < i ==> (#[trigger] nodes@[j]).tree() == plain_tree(
                    source@,
                    parsed_tree(parsed@[j]),
                ),
        decreases parsed@.len() - i,
    {
        nodes.push(copy_node(source, &parsed[i]));
        i = i + 1;
    }
    assert(trees(nodes@) =~= kdl_document(text@)->0);
    Some(nodes)
}

/// A plain tree keeps what was parsed: the name, every argument and every child in its place, and
/// whether there are properties. A node is typed where it does not start with its name, and an
/// argument where a closing parenthesis stands right before it.
pub proof fn law_plain_trees_keep_what_was_parsed(source: Seq<u8>, parsed: ParsedTree, i: int)
    ensures
        ({
            let tree = plain_tree(source, parsed);
            &&& tree.name == parsed.name
            &&& tree.typed <==> parsed.start != parsed.name_start
            &&& tree.properties == parsed.properties
            &&& tree.arguments.len() == parsed.arguments.len()
            &&& 0 <= i < parsed.arguments.len() ==> tree.arguments[i].literal
                == parsed.arguments[i].literal
            &&& 0 <= i < parsed.arguments.len() && 0 < parsed.arguments[i].start <= source.len() ==> (
            tree.arguments[i].typed <==> source[parsed.arguments[i].start - 1] == 0x29)
            &&& tree.children.len() == parsed.children.len()
            &&& 0 <= i < parsed.children.len() ==> tree.children[i] == plain_tree(
                source,
                parsed.children[i],
            )
        }),
{
}

/// A document has the nodes that were parsed, each in its place.
pub proof fn law_documents_keep_their_nodes(text: Seq<char>, i: int)
    ensures
        kdl_document(text) is Some <==> parsed_document(text) is Some,
        kdl_document(text) matches Some(nodes) ==> {
            let parsed = parsed_document(text)->0;
            &&& nodes.len() == parsed.len()
            &&& 0 <= i < parsed.len() ==> nodes[i] == plain_tree(vstd::utf8::encode_utf8(text), parsed[i])
        },
{
}

/// A tree shows everything that its node holds.
pub proof fn law_trees_show_their_nodes(node: KdlNode, i: int)
    ensures
        ({
            let tree = node.tree();
            &&& tree.name == node.name@
            &&& tree.typed == node.typed
            &&& tree.properties == node.properties
            &&& tree.arguments.len() == node.arguments@.len()
            &&& 0 <= i < node.arguments@.len() ==> tree.arguments[i] == node.arguments@[i]@
            &&& tree.children.len() == node.children@.len()
            &&& 0 <= i < node.children@.len() ==> tree.children[i] == node.children@[i].tree()
        }),
{
}

} // verus!
