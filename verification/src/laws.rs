//! Laws of the compiler, stated and proved over the spec-level compilation
//! functions that the executable functions are verified against.

use vstd::prelude::*;

use crate::ast::ElemV;
use crate::ast::ExprV;
use crate::ast::NodeV;
use crate::attrs::attr_ops;
use crate::plan::BuildOp;
use crate::plan::ChildV;
use crate::plan::CompileError;
use crate::plan::OpV;
use crate::tree::build_parts;
use crate::tree::child_ops;
use crate::tree::compile_elem_spec;
use crate::tree::compiles_to;
use crate::tree::parent_ops;
use crate::tree::scan_attrs;
use crate::tree::ParentV;

verus! {

broadcast use vstd::seq::group_seq_axioms;

/// Whether an attribute-list entry overrides the parent entity: a braced
/// block, or an attribute named `entity`.
pub open spec fn is_parent_override(n: NodeV) -> bool {
    match n {
        NodeV::Block { .. } => true,
        NodeV::Attribute(a) => a.key == "entity"@,
        _ => false,
    }
}

/// Whether every plain attribute of the list from position `i` on compiles.
pub open spec fn plain_attrs_ok(attrs: Seq<NodeV>, i: int) -> bool {
    forall|j: int|
        i <= j < attrs.len() ==> match #[trigger] attrs[j] {
            NodeV::Attribute(a) => a.key == "entity"@ || attr_ops(a) is Ok,
            _ => true,
        }
}

/// Whether every `entity` attribute of the list from position `i` on
/// carries a value.
pub open spec fn entity_values_present(attrs: Seq<NodeV>, i: int) -> bool {
    forall|j: int|
        i <= j < attrs.len() ==> match #[trigger] attrs[j] {
            NodeV::Attribute(a) => a.key == "entity"@ ==> a.value is Some,
            _ => true,
        }
}

/// A scan over attributes none of which override the parent leaves the
/// parent source as it began.
proof fn lemma_scan_keeps_parent(attrs: Seq<NodeV>, i: int, parent: ParentV, defined: bool)
    requires
        0 <= i,
        forall|j: int| i <= j < attrs.len() ==> !is_parent_override(#[trigger] attrs[j]),
    ensures
        scan_attrs(attrs, i, parent, defined) matches Ok(pr) ==> pr.0 == parent,
    decreases attrs.len() - i,
{
    if i < attrs.len() {
        lemma_scan_keeps_parent(attrs, i + 1, parent, defined);
    }
}

/// Law: an element with neither a braced block nor an `entity` attribute,
/// compiled with an implicit spawn, begins its plan with an unconditional
/// spawn operation carrying no explicit parent expression.
pub proof fn lemma_spawn_first(n: ElemV)
    requires
        forall|j: int|
            0 <= j < n.attributes.len() ==> !is_parent_override(#[trigger] n.attributes[j]),
    ensures
        compile_elem_spec(n, true) matches Ok(op) ==> {
            &&& op matches OpV::Build { tag, ops, .. }
            &&& op->Build_ops.len() > 0
            &&& op->Build_ops[0] == (OpV::SpawnEntity { explicit_parent: None::<ExprV> })
        },
{
    lemma_scan_keeps_parent(n.attributes, 0, ParentV::Spawn, false);
    if compile_elem_spec(n, true) is Ok {
        let pa = scan_attrs(n.attributes, 0, ParentV::Spawn, false)->Ok_0;
        let cops = child_ops(n.children, 0)->Ok_0;
        assert((parent_ops(pa.0) + pa.1 + cops)[0] == parent_ops(ParentV::Spawn)[0]);
    }
}

/// A scan that still faces two parent overrides (or one, with one already
/// recorded) fails with a duplicate-entity error, provided the plain
/// attributes it passes compile and its `entity` attributes carry values.
proof fn lemma_scan_two_overrides(
    attrs: Seq<NodeV>,
    i: int,
    parent: ParentV,
    defined: bool,
    p1: int,
    p2: int,
)
    requires
        0 <= i <= p1 <= p2 < attrs.len(),
        is_parent_override(attrs[p1]),
        is_parent_override(attrs[p2]),
        p1 == p2 ==> defined,
        plain_attrs_ok(attrs, i),
        entity_values_present(attrs, i),
    ensures
        scan_attrs(attrs, i, parent, defined) matches Err(e) && e matches
            CompileError::DuplicateEntityDeclaration { .. },
    decreases attrs.len() - i,
{
    let node = attrs[i];
    if i < p1 {
        match node {
            NodeV::Block { value } => {
                if !defined {
                    lemma_scan_two_overrides(
                        attrs,
                        i + 1,
                        ParentV::Explicit(value),
                        true,
                        p1,
                        p2,
                    );
                }
            },
            NodeV::Attribute(a) => {
                if a.key == "entity"@ {
                    if !defined {
                        if let Some(v) = a.value {
                            lemma_scan_two_overrides(
                                attrs,
                                i + 1,
                                ParentV::Explicit(v),
                                true,
                                p1,
                                p2,
                            );
                        }
                    }
                } else {
                    lemma_scan_two_overrides(attrs, i + 1, parent, defined, p1, p2);
                }
            },
            _ => {
                lemma_scan_two_overrides(attrs, i + 1, parent, defined, p1, p2);
            },
        }
    } else {
        if !defined {
            match node {
                NodeV::Block { value } => {
                    lemma_scan_two_overrides(
                        attrs,
                        i + 1,
                        ParentV::Explicit(value),
                        true,
                        p2,
                        p2,
                    );
                },
                NodeV::Attribute(a) => {
                    if let Some(v) = a.value {
                        lemma_scan_two_overrides(
                            attrs,
                            i + 1,
                            ParentV::Explicit(v),
                            true,
                            p2,
                            p2,
                        );
                    }
                },
                _ => {},
            }
        }
    }
}

/// Law: an element whose attribute list holds both a braced block and an
/// `entity` attribute fails with a duplicate-entity error, whatever the
/// order of the two, provided its other attributes compile and its `entity`
/// attributes carry values.
pub proof fn lemma_duplicate_entity(n: ElemV, create_entity: bool, bi: int, ai: int)
    requires
        0 <= bi < n.attributes.len(),
        n.attributes[bi] matches NodeV::Block { .. },
        0 <= ai < n.attributes.len(),
        n.attributes[ai] matches NodeV::Attribute(a) && a.key == "entity"@,
        bi != ai,
        plain_attrs_ok(n.attributes, 0),
        entity_values_present(n.attributes, 0),
    ensures
        compile_elem_spec(n, create_entity) matches Err(e) && e matches
            CompileError::DuplicateEntityDeclaration { .. },
{
    let init = if create_entity {
        ParentV::Spawn
    } else {
        ParentV::Caller
    };
    if bi < ai {
        lemma_scan_two_overrides(n.attributes, 0, init, false, bi, ai);
    } else {
        lemma_scan_two_overrides(n.attributes, 0, init, false, ai, bi);
    }
}

/// Law: compilation is deterministic and stateless: any two results that
/// meet the compiler's contract for the same tree agree — both succeed with
/// builds of the same model, or both fail with the same error.  Compiling a
/// tree twice therefore yields structurally identical plans.
pub proof fn lemma_compile_deterministic(
    n: ElemV,
    create_entity: bool,
    r1: Result<BuildOp, CompileError>,
    r2: Result<BuildOp, CompileError>,
)
    requires
        compiles_to(n, create_entity, r1),
        compiles_to(n, create_entity, r2),
    ensures
        r1 is Ok <==> r2 is Ok,
        r1 is Ok ==> r1->Ok_0@ == r2->Ok_0@,
        r1 is Err ==> r1 == r2,
{
}

/// Law: for an element whose children are a text node, an element child, a
/// block, and a second text node, in that order, the compiled child
/// operations are exactly the corresponding two appends around one
/// dynamic-expansion operation, in declaration order; the block holds one
/// fixed position however many entities it yields at runtime.
pub proof fn lemma_child_order(
    cs: Seq<NodeV>,
    ta: Seq<char>,
    sa: usize,
    el: ElemV,
    blk: ExprV,
    tb: Seq<char>,
    sb: usize,
)
    requires
        cs == seq![
            NodeV::Text { value: ta, span: sa },
            NodeV::Element(el),
            NodeV::Block { value: blk },
            NodeV::Text { value: tb, span: sb },
        ],
        build_parts(el, true) is Ok,
    ensures
        child_ops(cs, 0) matches Ok(items) && items == seq![
            OpV::AppendChild { child: (ChildV::InlineText { text: ta, span: sa }) },
            OpV::AppendChild {
                child: (ChildV::Built {
                    tag: build_parts(el, true)->Ok_0.0,
                    tag_span: build_parts(el, true)->Ok_0.1,
                    ops: build_parts(el, true)->Ok_0.2,
                }),
            },
            OpV::ExpandDynamicChildren { block: blk },
            OpV::AppendChild { child: (ChildV::InlineText { text: tb, span: sb }) },
        ],
{
    let p = build_parts(el, true)->Ok_0;
    assert(child_ops(cs, 4) == Ok::<Seq<OpV>, CompileError>(Seq::empty()));
    assert(cs[3] == (NodeV::Text { value: tb, span: sb }));
    assert(cs[2] == (NodeV::Block { value: blk }));
    assert(cs[1] == NodeV::Element(el));
    assert(cs[0] == (NodeV::Text { value: ta, span: sa }));
    let i3 = seq![OpV::AppendChild { child: (ChildV::InlineText { text: tb, span: sb }) }];
    let i2 = seq![OpV::ExpandDynamicChildren { block: blk }];
    let i1 = seq![
        OpV::AppendChild { child: (ChildV::Built { tag: p.0, tag_span: p.1, ops: p.2 }) },
    ];
    let i0 = seq![OpV::AppendChild { child: (ChildV::InlineText { text: ta, span: sa }) }];
    assert(child_ops(cs, 3) == Ok::<Seq<OpV>, CompileError>(i3 + Seq::empty()));
    assert(child_ops(cs, 2) == Ok::<Seq<OpV>, CompileError>(i2 + (i3 + Seq::empty())));
    assert(child_ops(cs, 1) == Ok::<Seq<OpV>, CompileError>(i1 + (i2 + (i3 + Seq::empty()))));
    assert(child_ops(cs, 0) == Ok::<Seq<OpV>, CompileError>(i0 + (i1 + (i2 + (i3
        + Seq::empty())))));
    assert(i0 + (i1 + (i2 + (i3 + Seq::empty()))) =~= i0 + i1 + i2 + i3);
}

} // verus!
