//! The tree compiler: one markup element becomes one build operation.
//!
//! Compiling an element first determines its parent entity.  By default the
//! parent is a freshly spawned entity when the caller asks for an implicit
//! spawn, and the caller-supplied entity otherwise; a braced block among the
//! attributes, or an attribute literally named `entity`, overrides it with an
//! explicit parent expression, and a second override of either kind is a
//! compile error.  Every other attribute is handed to the attribute compiler
//! in encounter order.  Children then compile in declaration order: an
//! element child recurses (with an implicit spawn) and is appended, a text
//! child is appended as an implicit inline text entity, and a block child
//! becomes a dynamic-expansion operation holding one position in the child
//! order.  The element's operations — parent determination first, then
//! attribute operations, then child operations — form a build bound to the
//! element's tag.

use vstd::prelude::*;

use crate::ast::expr_span;
use crate::ast::expr_view;
use crate::ast::lemma_nodes_view;
use crate::ast::nodes_view;
use crate::ast::ElemV;
use crate::ast::ElementNode;
use crate::ast::Expr;
use crate::ast::ExprV;
use crate::ast::MarkupNode;
use crate::ast::NodeV;
use crate::attrs::attr_ops;
use crate::attrs::compile_attr;
use crate::attrs::is_named;
use crate::plan::lemma_ops_view;
use crate::plan::ops_view;
use crate::plan::BuildOp;
use crate::plan::ChildSource;
use crate::plan::ChildV;
use crate::plan::CompileError;
use crate::plan::OpV;

verus! {

broadcast use vstd::seq::group_seq_axioms, vstd::std_specs::vec::group_vec_axioms;

/// Where the entity an element builds into comes from.
#[derive(Debug, PartialEq, Eq)]
pub enum ParentSource {
    /// The caller supplies the entity.
    Caller,
    /// A fresh entity is spawned.
    Spawn,
    /// An override gave an explicit parent expression.
    Explicit(Expr),
}

/// The mathematical model of a `ParentSource`.
pub enum ParentV {
    Caller,
    Spawn,
    Explicit(ExprV),
}

pub open spec fn parent_view(p: ParentSource) -> ParentV {
    match p {
        ParentSource::Caller => ParentV::Caller,
        ParentSource::Spawn => ParentV::Spawn,
        ParentSource::Explicit(e) => ParentV::Explicit(expr_view(e)),
    }
}

impl View for ParentSource {
    type V = ParentV;

    open spec fn view(&self) -> ParentV {
        parent_view(*self)
    }
}

/// The parent-determination operations a parent source emits: none when the
/// caller supplies the entity, one spawn otherwise.
pub open spec fn parent_ops(p: ParentV) -> Seq<OpV> {
    match p {
        ParentV::Caller => Seq::empty(),
        ParentV::Spawn => seq![OpV::SpawnEntity { explicit_parent: None }],
        ParentV::Explicit(e) => seq![OpV::SpawnEntity { explicit_parent: Some(e) }],
    }
}

/// How the attribute list of an element scans, from position `i` on, given
/// the parent source so far and whether an override already set it: braced
/// blocks and `entity` attributes move the parent source (a second one of
/// either kind is a duplicate-declaration error, and an `entity` attribute
/// without a value is a missing-value error), every other attribute
/// contributes its compiled operations in encounter order, and non-attribute
/// entries are ignored.
pub open spec fn scan_attrs(attrs: Seq<NodeV>, i: int, parent: ParentV, defined: bool) -> Result<
    (ParentV, Seq<OpV>),
    CompileError,
>
    decreases attrs.len() - i,
{
    if i < 0 || i >= attrs.len() {
        Ok((parent, Seq::empty()))
    } else {
        match attrs[i] {
            NodeV::Block { value } => if defined {
                Err(CompileError::DuplicateEntityDeclaration { span: expr_span(value) })
            } else {
                scan_attrs(attrs, i + 1, ParentV::Explicit(value), true)
            },
            NodeV::Attribute(a) => if a.key == "entity"@ {
                if defined {
                    Err(CompileError::DuplicateEntityDeclaration { span: a.key_span })
                } else {
                    match a.value {
                        None => Err(CompileError::MissingEntityValue { span: a.key_span }),
                        Some(v) => scan_attrs(attrs, i + 1, ParentV::Explicit(v), true),
                    }
                }
            } else {
                match attr_ops(a) {
                    Err(e) => Err(e),
                    Ok(ops) => match scan_attrs(attrs, i + 1, parent, defined) {
                        Err(e) => Err(e),
                        Ok(pr) => Ok((pr.0, ops + pr.1)),
                    },
                }
            },
            _ => scan_attrs(attrs, i + 1, parent, defined),
        }
    }
}

/// How the child list of an element compiles, from position `i` on: an
/// element child contributes an append of its own build, a text child an
/// append of an implicit inline text entity, a block child a
/// dynamic-expansion operation, and any other entry nothing; order is kept,
/// and the first failing child decides the error.
pub open spec fn child_ops(cs: Seq<NodeV>, i: int) -> Result<Seq<OpV>, CompileError>
    decreases cs, cs.len() - i, 1int,
{
    if i < 0 || i >= cs.len() {
        Ok(Seq::empty())
    } else {
        let node = cs[i];
        let head: Result<Seq<OpV>, CompileError> = match node {
            NodeV::Element(el) => {
                proof {
                    assert(decreases_to!(cs => cs[i]));
                    assert(decreases_to!(node => el));
                }
                match build_parts(el, true) {
                    Ok(p) => Ok(
                        seq![
                            OpV::AppendChild {
                                child: ChildV::Built { tag: p.0, tag_span: p.1, ops: p.2 },
                            },
                        ],
                    ),
                    Err(e) => Err(e),
                }
            },
            NodeV::Text { value, span } => Ok(
                seq![OpV::AppendChild { child: ChildV::InlineText { text: value, span } }],
            ),
            NodeV::Block { value } => Ok(seq![OpV::ExpandDynamicChildren { block: value }]),
            _ => Ok(Seq::empty()),
        };
        match head {
            Err(e) => Err(e),
            Ok(h) => match child_ops(cs, i + 1) {
                Err(e) => Err(e),
                Ok(t) => Ok(h + t),
            },
        }
    }
}

/// How one element compiles, as its tag and operation sequence: the
/// parent-determination operations first, then the attribute operations in
/// encounter order, then the child operations in declaration order.
pub open spec fn build_parts(n: ElemV, create_entity: bool) -> Result<
    (Seq<char>, usize, Seq<OpV>),
    CompileError,
>
    decreases n, 0int, 0int,
{
    let init = if create_entity {
        ParentV::Spawn
    } else {
        ParentV::Caller
    };
    match scan_attrs(n.attributes, 0, init, false) {
        Err(e) => Err(e),
        Ok(pa) => {
            proof {
                assert(decreases_to!(n => n.children));
            }
            match child_ops(n.children, 0) {
                Err(e) => Err(e),
                Ok(cops) => Ok((n.name, n.name_span, parent_ops(pa.0) + pa.1 + cops)),
            }
        },
    }
}

/// How one element compiles into a build operation.
pub open spec fn compile_elem_spec(n: ElemV, create_entity: bool) -> Result<OpV, CompileError> {
    match build_parts(n, create_entity) {
        Ok(p) => Ok(OpV::Build { tag: p.0, tag_span: p.1, ops: p.2 }),
        Err(e) => Err(e),
    }
}

/// What compiling the element `n` must return: the build whose model
/// `compile_elem_spec` gives, or exactly the error it gives.
pub open spec fn compiles_to(n: ElemV, create_entity: bool, r: Result<
    BuildOp,
    CompileError,
>) -> bool {
    match compile_elem_spec(n, create_entity) {
        Ok(op) => r matches Ok(b) && b@ == op,
        Err(e) => r == Err::<BuildOp, CompileError>(e),
    }
}

/// Move every operation of `src` onto the end of `dst`, keeping order.
#[verifier::loop_isolation(false)]
fn append_ops(dst: &mut Vec<BuildOp>, src: Vec<BuildOp>)
    ensures
        final(dst)@ == old(dst)@ + src@,
{
    let mut rest = src;
    let ghost all = rest@;
    while rest.len() > 0
        invariant
            rest@.len() <= all.len(),
            dst@ == old(dst)@ + all.subrange(0, all.len() - rest@.len()),
            rest@ == all.subrange(all.len() - rest@.len(), all.len() as int),
        decreases rest@.len(),
    {
        let ghost k: int = all.len() - rest@.len();
        let x = rest.remove(0);
        dst.push(x);
        proof {
            assert(x == all[k]);
            assert(dst@ =~= old(dst)@ + all.subrange(0, k + 1));
            assert(rest@ =~= all.subrange(k + 1, all.len() as int));
        }
    }
    proof {
        assert(all.subrange(0, all.len() as int) =~= all);
    }
}

fn scan_attrs_from(
    attrs: &Vec<MarkupNode>,
    i: usize,
    parent: ParentSource,
    defined: bool,
    ops: &mut Vec<BuildOp>,
) -> (r: Result<ParentSource, CompileError>)
    requires
        i <= attrs.len(),
    ensures
        (match scan_attrs(nodes_view(attrs@), i as int, parent@, defined) {
            Ok(pr) => r matches Ok(p) && p@ == pr.0 && ops_view(final(ops)@) == ops_view(
                old(ops)@,
            ) + pr.1,
            Err(e) => r == Err::<ParentSource, CompileError>(e),
        }),
    decreases attrs.len() - i,
{
    proof {
        lemma_nodes_view(attrs@);
    }
    if i >= attrs.len() {
        proof {
            assert(ops_view(ops@) =~= ops_view(ops@) + Seq::<OpV>::empty());
        }
        return Ok(parent);
    }
    match &attrs[i] {
        MarkupNode::Block { value } => {
            if defined {
                Err(CompileError::DuplicateEntityDeclaration { span: value.span() })
            } else {
                scan_attrs_from(attrs, i + 1, ParentSource::Explicit(value.clone()), true, ops)
            }
        },
        MarkupNode::Attribute(a) => {
            if is_named(&a.key, "entity") {
                if defined {
                    Err(CompileError::DuplicateEntityDeclaration { span: a.key_span })
                } else {
                    match &a.value {
                        None => Err(CompileError::MissingEntityValue { span: a.key_span }),
                        Some(v) => scan_attrs_from(
                            attrs,
                            i + 1,
                            ParentSource::Explicit(v.clone()),
                            true,
                            ops,
                        ),
                    }
                }
            } else {
                match compile_attr(a) {
                    Err(e) => Err(e),
                    Ok(chunk) => {
                        let ghost prev = ops@;
                        let ghost chunkv = chunk@;
                        append_ops(ops, chunk);
                        proof {
                            lemma_ops_view(prev);
                            lemma_ops_view(chunkv);
                            lemma_ops_view(ops@);
                            assert(ops_view(ops@) =~= ops_view(prev) + ops_view(chunkv));
                        }
                        let r = scan_attrs_from(attrs, i + 1, parent, defined, ops);
                        proof {
                            let a_ops = attr_ops(a@)->Ok_0;
                            let tail = scan_attrs(
                                nodes_view(attrs@),
                                i + 1,
                                parent@,
                                defined,
                            );
                            if tail is Ok {
                                assert((ops_view(old(ops)@) + a_ops) + tail->Ok_0.1
                                    =~= ops_view(old(ops)@) + (a_ops + tail->Ok_0.1));
                            }
                        }
                        r
                    },
                }
            }
        },
        _ => scan_attrs_from(attrs, i + 1, parent, defined, ops),
    }
}

fn children_from(children: &Vec<MarkupNode>, i: usize, acc: &mut Vec<BuildOp>) -> (r: Result<
    (),
    CompileError,
>)
    requires
        i <= children.len(),
    ensures
        (match child_ops(nodes_view(children@), i as int) {
            Ok(items) => r matches Ok(u) && ops_view(final(acc)@) == ops_view(old(acc)@) + items,
            Err(e) => r == Err::<(), CompileError>(e),
        }),
    decreases children, children@.len() - i, 1int,
{
    proof {
        lemma_nodes_view(children@);
    }
    if i >= children.len() {
        proof {
            assert(ops_view(acc@) =~= ops_view(acc@) + Seq::<OpV>::empty());
        }
        return Ok(());
    }
    let ghost csv = nodes_view(children@);
    let ghost mut hseq: Seq<OpV> = Seq::empty();
    let head_r: Result<(), CompileError> = match &children[i] {
        MarkupNode::Element(el) => {
            proof {
                assert(decreases_to!(*children => children@));
                assert(decreases_to!(children@ => children@[i as int]));
                assert(decreases_to!(children@[i as int] => children@[i as int]->Element_0));
                assert(children@[i as int]->Element_0 == *el);
            }
            match compile_element(el, true) {
                Err(e) => Err(e),
                Ok(b) => {
                    let ghost prev = acc@;
                    acc.push(BuildOp::AppendChild { child: ChildSource::Built(Box::new(b)) });
                    proof {
                        lemma_ops_view(prev);
                        lemma_ops_view(acc@);
                        hseq = seq![acc@.last()@];
                        assert(ops_view(acc@) =~= ops_view(prev) + hseq);
                    }
                    Ok(())
                },
            }
        },
        MarkupNode::Text { value, span } => {
            let ghost prev = acc@;
            acc.push(
                BuildOp::AppendChild {
                    child: ChildSource::InlineText { text: value.clone(), span: *span },
                },
            );
            proof {
                lemma_ops_view(prev);
                lemma_ops_view(acc@);
                hseq = seq![acc@.last()@];
                assert(ops_view(acc@) =~= ops_view(prev) + hseq);
            }
            Ok(())
        },
        MarkupNode::Block { value } => {
            let ghost prev = acc@;
            acc.push(BuildOp::ExpandDynamicChildren { block: value.clone() });
            proof {
                lemma_ops_view(prev);
                lemma_ops_view(acc@);
                hseq = seq![acc@.last()@];
                assert(ops_view(acc@) =~= ops_view(prev) + hseq);
            }
            Ok(())
        },
        _ => Ok(()),
    };
    match head_r {
        Err(e) => Err(e),
        Ok(u) => {
            let ghost mid = acc@;
            let r = children_from(children, i + 1, acc);
            proof {
                let tail = child_ops(csv, i + 1);
                if tail is Ok {
                    assert((ops_view(old(acc)@) + hseq) + tail->Ok_0 =~= ops_view(old(acc)@) + (
                    hseq + tail->Ok_0));
                }
            }
            r
        },
    }
}

/// Compile one element into its build operation.  `create_entity` says
/// whether the element must spawn its own entity (true for every element
/// that stands as a child; false for the root, whose entity the caller
/// supplies).
pub fn compile_element(node: &ElementNode, create_entity: bool) -> (r: Result<
    BuildOp,
    CompileError,
>)
    ensures
        compiles_to(node@, create_entity, r),
    decreases node, 0int, 0int,
{
    let init = if create_entity {
        ParentSource::Spawn
    } else {
        ParentSource::Caller
    };
    let ghost initv = parent_view(init);
    let mut body: Vec<BuildOp> = Vec::new();
    let parent = match scan_attrs_from(&node.attributes, 0, init, false, &mut body) {
        Err(e) => {
            return Err(e);
        },
        Ok(p) => p,
    };
    let ghost pv = parent_view(parent);
    let ghost attrseq = ops_view(body@);
    let mut full: Vec<BuildOp> = Vec::new();
    match parent {
        ParentSource::Caller => {},
        ParentSource::Spawn => {
            full.push(BuildOp::SpawnEntity { explicit_parent: None });
        },
        ParentSource::Explicit(e) => {
            full.push(BuildOp::SpawnEntity { explicit_parent: Some(e) });
        },
    }
    proof {
        lemma_ops_view(full@);
        assert(ops_view(full@) =~= parent_ops(pv));
    }
    let ghost pseq = ops_view(full@);
    let ghost pvec = full@;
    let ghost bodyvec = body@;
    append_ops(&mut full, body);
    proof {
        lemma_ops_view(pvec);
        lemma_ops_view(bodyvec);
        lemma_ops_view(full@);
        assert(ops_view(full@) =~= pseq + attrseq);
    }
    match children_from(&node.children, 0, &mut full) {
        Err(e) => Err(e),
        Ok(u) => {
            let res = BuildOp::Build {
                tag: node.name.clone(),
                tag_span: node.name_span,
                ops: full,
            };
            Ok(res)
        },
    }
}

/// Compile the root element of a markup tree.  The root never spawns
/// implicitly: the caller of the finished plan supplies its entity.
pub fn compile_tree(root: &ElementNode) -> (r: Result<BuildOp, CompileError>)
    ensures
        compiles_to(root@, false, r),
{
    compile_element(root, false)
}

} // verus!
