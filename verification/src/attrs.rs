//! The attribute compiler: one markup attribute becomes build-plan
//! operations.
//!
//! An attribute without a value becomes an empty-valued attribute operation.
//! An attribute named `with` is the component-injection shorthand: its value
//! must be a bare identifier or a parenthesized tuple of bare identifiers,
//! and each identifier is classified by its first character — an
//! uppercase-initial identifier names a component type to insert
//! default-constructed, a lowercase-initial identifier names a component
//! value to insert directly.  Any other attribute passes its value expression
//! through unevaluated.

use vstd::prelude::*;

use crate::ast::expr_span;
use crate::ast::exprs_view;
use crate::ast::lemma_exprs_view;
use crate::ast::AttrNodeV;
use crate::ast::AttributeNode;
use crate::ast::Expr;
use crate::ast::ExprV;
use crate::plan::inserts_view;
use crate::plan::lemma_inserts_view;
use crate::plan::lemma_ops_view;
use crate::plan::ops_view;
use crate::plan::AttrValue;
use crate::plan::AttrValueV;
use crate::plan::BuildOp;
use crate::plan::CompileError;
use crate::plan::ComponentInsert;
use crate::plan::InsertV;
use crate::plan::OpV;

verus! {

broadcast use vstd::seq::group_seq_axioms, vstd::std_specs::vec::group_vec_axioms;

/// The identifier starts with an ASCII uppercase letter: it names a type.
pub open spec fn spec_upper_init(name: Seq<char>) -> bool {
    name.len() > 0 && 'A' <= name[0] && name[0] <= 'Z'
}

/// The identifier starts with an ASCII lowercase letter: it names a value.
pub open spec fn spec_lower_init(name: Seq<char>) -> bool {
    name.len() > 0 && 'a' <= name[0] && name[0] <= 'z'
}

/// How one bare identifier of a `with` clause compiles: a default-construction
/// insert for a type name, a direct insert for a value name, and a compile
/// error for an identifier that starts with neither kind of letter.
pub open spec fn insert_of_ident(name: Seq<char>, span: usize) -> Result<InsertV, CompileError> {
    if spec_upper_init(name) {
        Ok(InsertV::DefaultOf { name, span })
    } else if spec_lower_init(name) {
        Ok(InsertV::Value { name, span })
    } else {
        Err(CompileError::InvalidComponentDeclaration { span })
    }
}

/// How the elements of a tuple-shaped `with` value compile, from position `i`
/// on: each element must be a bare identifier, classified as above, and the
/// inserts keep the left-to-right order; the first offending element decides
/// the error.
pub open spec fn tuple_inserts(elems: Seq<ExprV>, i: int) -> Result<Seq<InsertV>, CompileError>
    decreases elems.len() - i,
{
    if i < 0 || i >= elems.len() {
        Ok(Seq::empty())
    } else {
        match elems[i] {
            ExprV::Ident { name, span } => match insert_of_ident(name, span) {
                Ok(ins) => match tuple_inserts(elems, i + 1) {
                    Ok(rest) => Ok(seq![ins] + rest),
                    Err(e) => Err(e),
                },
                Err(e) => Err(e),
            },
            _ => Err(
                CompileError::InvalidComponentDeclaration { span: expr_span(elems[i]) },
            ),
        }
    }
}

/// How a whole `with` value compiles: a bare identifier gives one insert, a
/// tuple gives one insert per element, and any other expression shape is a
/// compile error at its span.
pub open spec fn with_inserts(e: ExprV) -> Result<Seq<InsertV>, CompileError> {
    match e {
        ExprV::Ident { name, span } => match insert_of_ident(name, span) {
            Ok(ins) => Ok(seq![ins]),
            Err(er) => Err(er),
        },
        ExprV::Tuple { elems, .. } => tuple_inserts(elems, 0),
        ExprV::Opaque { span, .. } => Err(CompileError::InvalidComponentDeclaration { span }),
    }
}

/// How one attribute compiles: without a value, an empty-valued attribute
/// operation; named `with` and valued, a single component-insertion
/// operation; otherwise, an attribute operation carrying the value expression
/// unevaluated.
pub open spec fn attr_ops(a: AttrNodeV) -> Result<Seq<OpV>, CompileError> {
    match a.value {
        None => Ok(seq![OpV::SetAttribute { name: a.key, value: AttrValueV::Empty }]),
        Some(v) => if a.key == "with"@ {
            match with_inserts(v) {
                Ok(items) => Ok(seq![OpV::InsertComponents { inserts: items }]),
                Err(e) => Err(e),
            }
        } else {
            Ok(seq![OpV::SetAttribute { name: a.key, value: AttrValueV::Expr(v) }])
        },
    }
}

/// Whether `key` spells exactly the literal `name`.
pub fn is_named(key: &String, name: &str) -> (r: bool)
    ensures
        r == (key@ == name@),
{
    let lit: String = String::from_str(name);
    lit == *key
}

fn upper_init(name: &String) -> (r: bool)
    ensures
        r == spec_upper_init(name@),
{
    let s: &str = name.as_str();
    if s.unicode_len() == 0 {
        return false;
    }
    let c: char = s.get_char(0);
    'A' <= c && c <= 'Z'
}

fn lower_init(name: &String) -> (r: bool)
    ensures
        r == spec_lower_init(name@),
{
    let s: &str = name.as_str();
    if s.unicode_len() == 0 {
        return false;
    }
    let c: char = s.get_char(0);
    'a' <= c && c <= 'z'
}

/// Classify one bare identifier of a `with` clause.
pub fn classify_component(name: &String, span: usize) -> (r: Result<ComponentInsert, CompileError>)
    ensures
        (match insert_of_ident(name@, span) {
            Ok(ins) => r matches Ok(c) && c@ == ins,
            Err(e) => r == Err::<ComponentInsert, CompileError>(e),
        }),
{
    if upper_init(name) {
        Ok(ComponentInsert::DefaultOf { name: name.clone(), span })
    } else if lower_init(name) {
        Ok(ComponentInsert::Value { name: name.clone(), span })
    } else {
        Err(CompileError::InvalidComponentDeclaration { span })
    }
}

fn tuple_from(elems: &Vec<Expr>, i: usize, acc: &mut Vec<ComponentInsert>) -> (r: Result<
    (),
    CompileError,
>)
    requires
        i <= elems.len(),
    ensures
        (match tuple_inserts(exprs_view(elems@), i as int) {
            Ok(items) => r matches Ok(u) && inserts_view(final(acc)@) == inserts_view(old(acc)@)
                + items,
            Err(e) => r == Err::<(), CompileError>(e),
        }),
    decreases elems.len() - i,
{
    proof {
        lemma_exprs_view(elems@);
    }
    if i >= elems.len() {
        proof {
            assert(inserts_view(acc@) =~= inserts_view(acc@) + Seq::<InsertV>::empty());
        }
        return Ok(());
    }
    match &elems[i] {
        Expr::Ident { name, span } => {
            match classify_component(name, *span) {
                Err(e) => Err(e),
                Ok(c) => {
                    let ghost prev = acc@;
                    acc.push(c);
                    proof {
                        lemma_inserts_view(prev);
                        lemma_inserts_view(acc@);
                        assert(inserts_view(acc@) =~= inserts_view(prev) + seq![c@]);
                    }
                    let ghost mid = acc@;
                    match tuple_from(elems, i + 1, acc) {
                        Err(e) => Err(e),
                        Ok(u) => {
                            proof {
                                let ins = insert_of_ident(name@, *span)->Ok_0;
                                let rest = tuple_inserts(exprs_view(elems@), i + 1)->Ok_0;
                                assert(inserts_view(prev) + seq![ins] + rest =~= inserts_view(
                                    prev,
                                ) + (seq![ins] + rest));
                            }
                            Ok(())
                        },
                    }
                },
            }
        },
        Expr::Tuple { span, .. } => Err(
            CompileError::InvalidComponentDeclaration { span: *span },
        ),
        Expr::Opaque { span, .. } => Err(
            CompileError::InvalidComponentDeclaration { span: *span },
        ),
    }
}

/// Compile a `with` value into its component inserts, in declaration order.
pub fn compile_with_commands(value: &Expr) -> (r: Result<Vec<ComponentInsert>, CompileError>)
    ensures
        (match with_inserts(value@) {
            Ok(items) => r matches Ok(v) && inserts_view(v@) == items,
            Err(e) => r == Err::<Vec<ComponentInsert>, CompileError>(e),
        }),
{
    match value {
        Expr::Ident { name, span } => match classify_component(name, *span) {
            Ok(c) => {
                let mut v: Vec<ComponentInsert> = Vec::new();
                v.push(c);
                proof {
                    lemma_inserts_view(v@);
                    assert(inserts_view(v@) =~= seq![c@]);
                }
                Ok(v)
            },
            Err(e) => Err(e),
        },
        Expr::Tuple { elems, .. } => {
            let mut acc: Vec<ComponentInsert> = Vec::new();
            let r = tuple_from(elems, 0, &mut acc);
            match r {
                Ok(u) => {
                    proof {
                        let items = tuple_inserts(exprs_view(elems@), 0)->Ok_0;
                        assert(Seq::<InsertV>::empty() + items =~= items);
                    }
                    Ok(acc)
                },
                Err(e) => Err(e),
            }
        },
        Expr::Opaque { span, .. } => Err(
            CompileError::InvalidComponentDeclaration { span: *span },
        ),
    }
}

/// Compile one attribute into its build-plan operations.
pub fn compile_attr(attr: &AttributeNode) -> (r: Result<Vec<BuildOp>, CompileError>)
    ensures
        (match attr_ops(attr@) {
            Ok(ops) => r matches Ok(v) && ops_view(v@) == ops,
            Err(e) => r == Err::<Vec<BuildOp>, CompileError>(e),
        }),
{
    match &attr.value {
        None => {
            let mut v: Vec<BuildOp> = Vec::new();
            v.push(BuildOp::SetAttribute { name: attr.key.clone(), value: AttrValue::Empty });
            proof {
                lemma_ops_view(v@);
                assert(ops_view(v@) =~= seq![v@[0]@]);
            }
            Ok(v)
        },
        Some(val) => {
            if is_named(&attr.key, "with") {
                match compile_with_commands(val) {
                    Ok(cs) => {
                        let mut v: Vec<BuildOp> = Vec::new();
                        v.push(BuildOp::InsertComponents { inserts: cs });
                        proof {
                            lemma_ops_view(v@);
                            assert(ops_view(v@) =~= seq![v@[0]@]);
                        }
                        Ok(v)
                    },
                    Err(e) => Err(e),
                }
            } else {
                let mut v: Vec<BuildOp> = Vec::new();
                v.push(
                    BuildOp::SetAttribute {
                        name: attr.key.clone(),
                        value: AttrValue::Expr(val.clone()),
                    },
                );
                proof {
                    lemma_ops_view(v@);
                    assert(ops_view(v@) =~= seq![v@[0]@]);
                }
                Ok(v)
            }
        },
    }
}

} // verus!
