//! The markup tree that the compiler consumes.
//!
//! A tree of `MarkupNode`s is produced by an external markup parser and is a
//! read-only input here.  Host-language expressions embedded in the markup are
//! carried as `Expr` values: the compiler only ever reads whether an
//! expression is a bare identifier (and its first character), or a
//! parenthesized tuple of sub-expressions; every other expression is opaque
//! and is referenced by an id that the caller assigned, so that the caller can
//! recover the original expression when it lowers the compiled plan.
//!
//! Source positions are likewise carried as plain `span` ids into a caller
//! side table; the compiler only threads them into the operations and errors
//! it emits.

use vstd::prelude::*;

verus! {

broadcast use vstd::seq::group_seq_axioms, vstd::std_specs::vec::group_vec_axioms;

/// A host-language expression, as far as the compiler reads it.
#[derive(Debug, PartialEq, Eq)]
pub enum Expr {
    /// A bare identifier such as `Foo` or `foo`.
    Ident { name: String, span: usize },
    /// A parenthesized tuple `(a, B, c)` of sub-expressions.
    Tuple { elems: Vec<Expr>, span: usize },
    /// Any other expression, referenced by an id into the caller's table.
    Opaque { id: usize, span: usize },
}

/// The mathematical model of an `Expr`.
pub enum ExprV {
    Ident { name: Seq<char>, span: usize },
    Tuple { elems: Seq<ExprV>, span: usize },
    Opaque { id: usize, span: usize },
}

/// An attribute of an element: `key`, or `key=value`.
#[derive(Debug, PartialEq, Eq)]
pub struct AttributeNode {
    pub key: String,
    pub key_span: usize,
    pub value: Option<Expr>,
}

/// The mathematical model of an `AttributeNode`.
pub struct AttrNodeV {
    pub key: Seq<char>,
    pub key_span: usize,
    pub value: Option<ExprV>,
}

/// An element of the markup: a tag name, its attribute list (which may also
/// hold braced-block entries), and its children.
#[derive(Debug, PartialEq, Eq)]
pub struct ElementNode {
    pub name: String,
    pub name_span: usize,
    pub attributes: Vec<MarkupNode>,
    pub children: Vec<MarkupNode>,
}

/// The mathematical model of an `ElementNode`.
pub struct ElemV {
    pub name: Seq<char>,
    pub name_span: usize,
    pub attributes: Seq<NodeV>,
    pub children: Seq<NodeV>,
}

/// One node of the parsed markup tree.
#[derive(Debug, PartialEq, Eq)]
#[allow(inconsistent_fields)]
pub enum MarkupNode {
    /// An element, `<name attr..>children..</name>`.
    Element(ElementNode),
    /// An attribute entry of an element's attribute list.
    Attribute(AttributeNode),
    /// A braced host-language expression `{expr}`: among the attributes it
    /// overrides the parent entity, among the children it expands to
    /// dynamic content.
    Block { value: Expr },
    /// A literal text child.
    Text { value: String, span: usize },
    /// Any other node kind the parser may produce (a comment, a doctype, a
    /// fragment); the compiler ignores these.
    Other { span: usize },
}

/// The mathematical model of a `MarkupNode`.
#[allow(inconsistent_fields)]
pub enum NodeV {
    Element(ElemV),
    Attribute(AttrNodeV),
    Block { value: ExprV },
    Text { value: Seq<char>, span: usize },
    Other { span: usize },
}

pub open spec fn expr_view(e: Expr) -> ExprV
    decreases e, 1int,
{
    match e {
        Expr::Ident { name, span } => ExprV::Ident { name: name@, span },
        Expr::Tuple { elems, span } => {
            proof {
                assert(decreases_to!(e => elems));
                assert(decreases_to!(elems => elems@));
            }
            ExprV::Tuple { elems: exprs_view(elems@), span }
        },
        Expr::Opaque { id, span } => ExprV::Opaque { id, span },
    }
}

pub open spec fn exprs_view(s: Seq<Expr>) -> Seq<ExprV>
    decreases s, 0int,
{
    if s.len() == 0 {
        Seq::empty()
    } else {
        seq![expr_view(s[0])] + exprs_view(s.subrange(1, s.len() as int))
    }
}

/// The span carried by an expression.
pub open spec fn expr_span(e: ExprV) -> usize {
    match e {
        ExprV::Ident { span, .. } => span,
        ExprV::Tuple { span, .. } => span,
        ExprV::Opaque { span, .. } => span,
    }
}

pub open spec fn attr_node_view(a: AttributeNode) -> AttrNodeV {
    AttrNodeV {
        key: a.key@,
        key_span: a.key_span,
        value: match a.value {
            Some(e) => Some(expr_view(e)),
            None => None,
        },
    }
}

pub open spec fn elem_view(e: ElementNode) -> ElemV
    decreases e, 2int,
{
    proof {
        assert(decreases_to!(e => e.attributes));
        assert(decreases_to!(e.attributes => e.attributes@));
        assert(decreases_to!(e => e.children));
        assert(decreases_to!(e.children => e.children@));
    }
    ElemV {
        name: e.name@,
        name_span: e.name_span,
        attributes: nodes_view(e.attributes@),
        children: nodes_view(e.children@),
    }
}

pub open spec fn node_view(n: MarkupNode) -> NodeV
    decreases n, 1int,
{
    match n {
        MarkupNode::Element(el) => {
            proof {
                assert(decreases_to!(n => el));
            }
            NodeV::Element(elem_view(el))
        },
        MarkupNode::Attribute(a) => NodeV::Attribute(attr_node_view(a)),
        MarkupNode::Block { value } => NodeV::Block { value: expr_view(value) },
        MarkupNode::Text { value, span } => NodeV::Text { value: value@, span },
        MarkupNode::Other { span } => NodeV::Other { span },
    }
}

pub open spec fn nodes_view(s: Seq<MarkupNode>) -> Seq<NodeV>
    decreases s, 0int,
{
    if s.len() == 0 {
        Seq::empty()
    } else {
        seq![node_view(s[0])] + nodes_view(s.subrange(1, s.len() as int))
    }
}

impl View for Expr {
    type V = ExprV;

    open spec fn view(&self) -> ExprV {
        expr_view(*self)
    }
}

impl View for AttributeNode {
    type V = AttrNodeV;

    open spec fn view(&self) -> AttrNodeV {
        attr_node_view(*self)
    }
}

impl View for ElementNode {
    type V = ElemV;

    open spec fn view(&self) -> ElemV {
        elem_view(*self)
    }
}

impl View for MarkupNode {
    type V = NodeV;

    open spec fn view(&self) -> NodeV {
        node_view(*self)
    }
}

/// `exprs_view` maps `expr_view` over a sequence, element by element.
pub proof fn lemma_exprs_view(s: Seq<Expr>)
    ensures
        exprs_view(s).len() == s.len(),
        forall|i: int| 0 <= i < s.len() ==> exprs_view(s)[i] == expr_view(s[i]),
    decreases s.len(),
{
    if s.len() > 0 {
        let rest = s.subrange(1, s.len() as int);
        lemma_exprs_view(rest);
        assert forall|i: int| 0 <= i < s.len() implies exprs_view(s)[i] == expr_view(s[i]) by {
            if i > 0 {
                assert(rest[i - 1] == s[i]);
            }
        }
    }
}

/// `nodes_view` maps `node_view` over a sequence, element by element.
pub proof fn lemma_nodes_view(s: Seq<MarkupNode>)
    ensures
        nodes_view(s).len() == s.len(),
        forall|i: int| 0 <= i < s.len() ==> nodes_view(s)[i] == node_view(s[i]),
    decreases s.len(),
{
    if s.len() > 0 {
        let rest = s.subrange(1, s.len() as int);
        lemma_nodes_view(rest);
        assert forall|i: int| 0 <= i < s.len() implies nodes_view(s)[i] == node_view(s[i]) by {
            if i > 0 {
                assert(rest[i - 1] == s[i]);
            }
        }
    }
}

impl Expr {
    /// The span this expression carries.
    pub fn span(&self) -> (r: usize)
        ensures
            r == expr_span(self@),
    {
        match self {
            Expr::Ident { span, .. } => *span,
            Expr::Tuple { span, .. } => *span,
            Expr::Opaque { span, .. } => *span,
        }
    }
}

impl Clone for Expr {
    /// A deep copy whose model is the model of the original.
    #[verifier::loop_isolation(false)]
    fn clone(&self) -> (res: Self)
        ensures
            res@ == self@,
        decreases self,
    {
        match self {
            Expr::Ident { name, span } => (Expr::Ident { name: name.clone(), span: *span }),
            Expr::Opaque { id, span } => (Expr::Opaque { id: *id, span: *span }),
            Expr::Tuple { elems, span } => {
                let mut copies: Vec<Expr> = Vec::new();
                let mut i: usize = 0;
                while i < elems.len()
                    invariant
                        i <= elems.len(),
                        copies@.len() == i,
                        forall|j: int| 0 <= j < i ==> expr_view(copies@[j]) == expr_view(
                            elems@[j],
                        ),
                    decreases elems@.len() - i,
                {
                    proof {
                        assert(decreases_to!(*self => self->Tuple_elems));
                        assert(self->Tuple_elems == *elems);
                        assert(decreases_to!(*elems => elems@));
                        assert(decreases_to!(elems@ => elems@[i as int]));
                    }
                    copies.push(elems[i].clone());
                    i = i + 1;
                }
                proof {
                    lemma_exprs_view(copies@);
                    lemma_exprs_view(elems@);
                    assert(exprs_view(copies@) =~= exprs_view(elems@));
                }
                (Expr::Tuple { elems: copies, span: *span })
            },
        }
    }
}

} // verus!
