//! The build plan that the compiler emits, and the compile errors.
//!
//! A plan is an ordered tree of `BuildOp`s.  The runtime that consumes a plan
//! must execute the operations of each build in exactly the order they stand
//! in, since later operations depend on entity identities produced by earlier
//! ones.

use vstd::prelude::*;

use crate::ast::expr_view;
use crate::ast::Expr;
use crate::ast::ExprV;

verus! {

broadcast use vstd::seq::group_seq_axioms, vstd::std_specs::vec::group_vec_axioms;

/// The value recorded for a named attribute.
#[derive(Debug, PartialEq, Eq)]
pub enum AttrValue {
    /// The attribute was written without a value.
    Empty,
    /// The attribute's value expression, passed through unevaluated.
    Expr(Expr),
}

/// The mathematical model of an `AttrValue`.
pub enum AttrValueV {
    Empty,
    Expr(ExprV),
}

/// One component-construction entry of a `with` clause.
#[derive(Debug, PartialEq, Eq)]
pub enum ComponentInsert {
    /// A type name: insert its default-constructed value.
    DefaultOf { name: String, span: usize },
    /// A value identifier: insert the value it names.
    Value { name: String, span: usize },
}

/// The mathematical model of a `ComponentInsert`.
pub enum InsertV {
    DefaultOf { name: Seq<char>, span: usize },
    Value { name: Seq<char>, span: usize },
}

/// The entity a child-append operation links to the current entity.
#[derive(Debug, PartialEq, Eq)]
pub enum ChildSource {
    /// The entity produced by a nested build.
    Built(Box<BuildOp>),
    /// An implicit inline leaf entity carrying literal text and an "inline"
    /// structural marker, synthesized for a text child.
    InlineText { text: String, span: usize },
}

/// The mathematical model of a `ChildSource`.  A nested build is carried as
/// its tag and operation sequence.
pub enum ChildV {
    Built { tag: Seq<char>, tag_span: usize, ops: Seq<OpV> },
    InlineText { text: Seq<char>, span: usize },
}

/// One operation of a build plan.
#[derive(Debug, PartialEq, Eq)]
pub enum BuildOp {
    /// Determine the entity being built: spawn a fresh one, or, when an
    /// explicit parent expression is given, use the entity it evaluates to.
    /// When an element is compiled without an implicit spawn and without an
    /// override, no such operation is emitted and the caller supplies the
    /// entity.
    SpawnEntity { explicit_parent: Option<Expr> },
    /// Record a named attribute on the entity being built.
    SetAttribute { name: String, value: AttrValue },
    /// Insert the listed components on the entity being built; one `with`
    /// clause, applied as a single deferred attribute.
    InsertComponents { inserts: Vec<ComponentInsert> },
    /// Link a produced entity as the next child of the entity being built.
    AppendChild { child: ChildSource },
    /// Evaluate the block at runtime and append each entity it yields, in
    /// the order yielded; it occupies one fixed position in the child order.
    ExpandDynamicChildren { block: Expr },
    /// The compiled form of one element: its tag (with the tag's span),
    /// whose registered builder finishes the element, and the operations
    /// above in emission order.
    Build { tag: String, tag_span: usize, ops: Vec<BuildOp> },
}

/// The mathematical model of a `BuildOp`.
pub enum OpV {
    SpawnEntity { explicit_parent: Option<ExprV> },
    SetAttribute { name: Seq<char>, value: AttrValueV },
    InsertComponents { inserts: Seq<InsertV> },
    AppendChild { child: ChildV },
    ExpandDynamicChildren { block: ExprV },
    Build { tag: Seq<char>, tag_span: usize, ops: Seq<OpV> },
}

/// A compile-time failure; each carries the span of the offending source.
///
/// A failure of the markup parse itself is reported by the external parser
/// at the boundary and never reaches this compiler.
#[derive(Debug, Clone, Copy, PartialEq, Eq, Structural)]
pub enum CompileError {
    /// A `with` value is not a bare identifier or a tuple of bare
    /// identifiers, or a bare identifier whose first character is neither an
    /// uppercase nor a lowercase letter.
    InvalidComponentDeclaration { span: usize },
    /// Both a braced block and an `entity` attribute (or two of either)
    /// attempt to set the parent of the same element.
    DuplicateEntityDeclaration { span: usize },
    /// An `entity` attribute is present without a value.
    MissingEntityValue { span: usize },
}

/// The source span a compile error refers to.
pub open spec fn error_span(e: CompileError) -> usize {
    match e {
        CompileError::InvalidComponentDeclaration { span } => span,
        CompileError::DuplicateEntityDeclaration { span } => span,
        CompileError::MissingEntityValue { span } => span,
    }
}

impl CompileError {
    /// The source span this error refers to.
    pub fn span(&self) -> (r: usize)
        ensures
            r == error_span(*self),
    {
        match self {
            CompileError::InvalidComponentDeclaration { span } => *span,
            CompileError::DuplicateEntityDeclaration { span } => *span,
            CompileError::MissingEntityValue { span } => *span,
        }
    }

    /// A human-readable description of the error.
    pub fn message(&self) -> (r: String)
        ensures
            (self matches CompileError::InvalidComponentDeclaration { .. }) ==> r@
                == "Invalid components declaration"@,
            (self matches CompileError::DuplicateEntityDeclaration { .. }) ==> r@
                == "Entity already provided"@,
            (self matches CompileError::MissingEntityValue { .. }) ==> r@
                == "Attribute entity should have a value"@,
    {
        match self {
            CompileError::InvalidComponentDeclaration { .. } => String::from_str(
                "Invalid components declaration",
            ),
            CompileError::DuplicateEntityDeclaration { .. } => String::from_str(
                "Entity already provided",
            ),
            CompileError::MissingEntityValue { .. } => String::from_str(
                "Attribute entity should have a value",
            ),
        }
    }
}

pub open spec fn attr_value_view(v: AttrValue) -> AttrValueV {
    match v {
        AttrValue::Empty => AttrValueV::Empty,
        AttrValue::Expr(e) => AttrValueV::Expr(expr_view(e)),
    }
}

pub open spec fn insert_view(c: ComponentInsert) -> InsertV {
    match c {
        ComponentInsert::DefaultOf { name, span } => InsertV::DefaultOf { name: name@, span },
        ComponentInsert::Value { name, span } => InsertV::Value { name: name@, span },
    }
}

/// The model of a nested build carried by a child-append operation.  Only
/// `Build` operations ever stand there; the fallback arm keeps the function
/// total.
pub open spec fn built_child_view(b: OpV) -> ChildV {
    match b {
        OpV::Build { tag, tag_span, ops } => ChildV::Built { tag, tag_span, ops },
        _ => ChildV::Built { tag: Seq::empty(), tag_span: 0, ops: seq![b] },
    }
}

pub open spec fn op_view(op: BuildOp) -> OpV
    decreases op, 1int,
{
    match op {
        BuildOp::SpawnEntity { explicit_parent } => OpV::SpawnEntity {
            explicit_parent: match explicit_parent {
                Some(e) => Some(expr_view(e)),
                None => None,
            },
        },
        BuildOp::SetAttribute { name, value } => OpV::SetAttribute {
            name: name@,
            value: attr_value_view(value),
        },
        BuildOp::InsertComponents { inserts } => OpV::InsertComponents {
            inserts: inserts_view(inserts@),
        },
        BuildOp::AppendChild { child } => OpV::AppendChild {
            child: match child {
                ChildSource::Built(b) => {
                    proof {
                        assert(decreases_to!(op => child));
                        assert(decreases_to!(child => b));
                    }
                    built_child_view(op_view(*b))
                },
                ChildSource::InlineText { text, span } => ChildV::InlineText {
                    text: text@,
                    span,
                },
            },
        },
        BuildOp::ExpandDynamicChildren { block } => OpV::ExpandDynamicChildren {
            block: expr_view(block),
        },
        BuildOp::Build { tag, tag_span, ops } => {
            proof {
                assert(decreases_to!(op => ops));
                assert(decreases_to!(ops => ops@));
            }
            OpV::Build { tag: tag@, tag_span, ops: ops_view(ops@) }
        },
    }
}

pub open spec fn inserts_view(s: Seq<ComponentInsert>) -> Seq<InsertV>
    decreases s.len(),
{
    if s.len() == 0 {
        Seq::empty()
    } else {
        seq![insert_view(s[0])] + inserts_view(s.subrange(1, s.len() as int))
    }
}

pub open spec fn ops_view(s: Seq<BuildOp>) -> Seq<OpV>
    decreases s, 0int,
{
    if s.len() == 0 {
        Seq::empty()
    } else {
        seq![op_view(s[0])] + ops_view(s.subrange(1, s.len() as int))
    }
}

impl View for AttrValue {
    type V = AttrValueV;

    open spec fn view(&self) -> AttrValueV {
        attr_value_view(*self)
    }
}

impl View for ComponentInsert {
    type V = InsertV;

    open spec fn view(&self) -> InsertV {
        insert_view(*self)
    }
}

impl View for BuildOp {
    type V = OpV;

    open spec fn view(&self) -> OpV {
        op_view(*self)
    }
}

/// `inserts_view` maps `insert_view` over a sequence, element by element.
pub proof fn lemma_inserts_view(s: Seq<ComponentInsert>)
    ensures
        inserts_view(s).len() == s.len(),
        forall|i: int| 0 <= i < s.len() ==> inserts_view(s)[i] == insert_view(s[i]),
    decreases s.len(),
{
    if s.len() > 0 {
        let rest = s.subrange(1, s.len() as int);
        lemma_inserts_view(rest);
        assert forall|i: int| 0 <= i < s.len() implies inserts_view(s)[i] == insert_view(s[i]) by {
            if i > 0 {
                assert(rest[i - 1] == s[i]);
            }
        }
    }
}

/// `ops_view` maps `op_view` over a sequence, element by element.
pub proof fn lemma_ops_view(s: Seq<BuildOp>)
    ensures
        ops_view(s).len() == s.len(),
        forall|i: int| 0 <= i < s.len() ==> ops_view(s)[i] == op_view(s[i]),
    decreases s.len(),
{
    if s.len() > 0 {
        let rest = s.subrange(1, s.len() as int);
        lemma_ops_view(rest);
        assert forall|i: int| 0 <= i < s.len() implies ops_view(s)[i] == op_view(s[i]) by {
            if i > 0 {
                assert(rest[i - 1] == s[i]);
            }
        }
    }
}

} // verus!
