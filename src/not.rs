use vstd::prelude::*;

use crate::diagnostic::{func_docs_url, label_view, Label, Note, Urls};
use crate::expression::{
    eval, negate, slots_done, text, type_def, unary, unary_slots, valid_selection,
    BatchContext, Context, Expr, ExternalEnv, Node, Span, Unary,
};
use crate::kind::{boolean_kind, kind_text, Kind, TypeDef};
use crate::value::{Resolved, Value};

verus! {

/// Boolean negation, `!inner`.
#[derive(Debug, PartialEq)]
pub struct Not {
    pub inner: Box<Expr>,
}

/// Why a negation could not be built.
#[derive(Clone, Copy, Debug, PartialEq, Eq, Structural)]
pub enum ErrorVariant {
    /// The operand may be something else than a boolean; it has this kind.
    NonBoolean(Kind),
}

/// A refused negation, with the spans of the operator and of its operand.
#[derive(Clone, Copy, Debug, PartialEq, Eq, Structural)]
pub struct Error {
    pub variant: ErrorVariant,
    pub not_span: Span,
    pub expr_span: Span,
}

/// The stable code of each error.
pub open spec fn error_code(e: Error) -> usize {
    match e.variant {
        ErrorVariant::NonBoolean(_) => 660,
    }
}

/// The labels of each error, as text, span and whether primary.
pub open spec fn error_labels(e: Error) -> Seq<(Seq<char>, Span, bool)> {
    match e.variant {
        ErrorVariant::NonBoolean(kind) => seq![
            ("negation only works on boolean values"@, e.not_span, true),
            ("this expression resolves to "@ + kind_text(kind), e.expr_span, false),
        ],
    }
}

/// The notes of each error, as text.
pub open spec fn error_notes(e: Error) -> Seq<Seq<char>> {
    match e.variant {
        ErrorVariant::NonBoolean(_) => seq![
            crate::diagnostic::note_text(Note::CoerceValue),
            "see documentation about "@ + "type coercion"@ + " at "@ + func_docs_url(
                "#coerce-functions"@,
            ),
        ],
    }
}

/// What building a negation of `node` gives: the negation where the
/// operand is exactly boolean, else the error with both spans.
pub open spec fn new_outcome(
    node: Node<Expr>,
    not_span: Span,
    env: Seq<(String, Kind)>,
    r: Result<Not, Error>,
) -> bool {
    let kind = type_def(node.inner, env).kind;
    if kind == boolean_kind() {
        r is Ok && *r->Ok_0.inner == node.inner
    } else {
        r == Err::<Not, Error>(
            Error { variant: ErrorVariant::NonBoolean(kind), not_span, expr_span: node.span },
        )
    }
}

impl Not {
    /// Builds `!operand`; refuses an operand that may be something else
    /// than a boolean.
    pub fn new(node: Node<Expr>, not_span: Span, state: &ExternalEnv) -> (r: Result<Not, Error>)
        ensures
            new_outcome(node, not_span, state.fields@, r),
    {
        let (expr_span, expr) = node.take();
        let type_def = expr.type_def(state);
        if !type_def.is_boolean() {
            return Err(
                Error { variant: ErrorVariant::NonBoolean(type_def.kind), not_span, expr_span },
            );
        }
        Ok(Not { inner: Box::new(expr) })
    }

    /// Negates the operand's value on the record of `ctx`.
    pub fn resolve(&self, ctx: &Context) -> (r: Resolved)
        ensures
            r == negate(eval(*self.inner, ctx.record.fields@)),
    {
        let c = self.inner.resolve(ctx);
        unary(Unary::Negate, &c)
    }

    /// Works out the operand on the selected records, then negates each
    /// selected slot in place.
    pub fn resolve_batch(&self, ctx: &mut BatchContext, selection_vector: &[usize])
        requires
            old(ctx).wf(),
            valid_selection(selection_vector@, old(ctx).records@.len() as int),
        ensures
            slots_done(
                *old(ctx),
                *final(ctx),
                selection_vector@,
                |f: Seq<(String, Value)>, r: Resolved| negate(eval(*self.inner, f)),
            ),
    {
        self.inner.resolve_batch(ctx, selection_vector);
        unary_slots(ctx, selection_vector, Unary::Negate);
    }

    /// A boolean, fallible exactly where the operand is.
    pub fn type_def(&self, state: &ExternalEnv) -> (r: TypeDef)
        ensures
            r == (TypeDef {
                kind: boolean_kind(),
                fallible: type_def(*self.inner, state.fields@).fallible,
            }),
    {
        let fallible = self.inner.type_def(state).is_fallible();
        TypeDef::boolean().with_fallibility(fallible)
    }

    /// `!` followed by the operand's text.
    pub fn to_text(&self) -> (r: String)
        ensures
            r@ == "!"@ + text(*self.inner),
    {
        let mut out = String::from_str("!");
        let inner = self.inner.to_text();
        out.append(inner.as_str());
        out
    }
}

impl Error {
    /// The short description of the error.
    pub fn message(&self) -> (r: String)
        ensures
            r@ == "non-boolean negation"@,
    {
        String::from_str("non-boolean negation")
    }

    /// The stable code of the error.
    pub fn code(&self) -> (r: usize)
        ensures
            r == error_code(*self),
    {
        match self.variant {
            ErrorVariant::NonBoolean(_) => 660,
        }
    }

    /// The operator's span as primary label, the operand's as context.
    pub fn labels(&self) -> (r: Vec<Label>)
        ensures
            r@.map_values(|l: Label| label_view(l)) == error_labels(*self),
    {
        match self.variant {
            ErrorVariant::NonBoolean(kind) => {
                let mut context = String::from_str("this expression resolves to ");
                let shown = kind.to_text();
                context.append(shown.as_str());
                let r = vec![
                    Label::primary(
                        String::from_str("negation only works on boolean values"),
                        self.not_span,
                    ),
                    Label::context(context, self.expr_span),
                ];
                assert(r@.map_values(|l: Label| label_view(l)) =~= error_labels(*self));
                r
            },
        }
    }

    /// Hints on coercing the operand to a boolean.
    pub fn notes(&self) -> (r: Vec<Note>)
        ensures
            r@.map_values(|n: Note| crate::diagnostic::note_text(n)) == error_notes(*self),
    {
        match self.variant {
            ErrorVariant::NonBoolean(_) => {
                let r = vec![
                    Note::CoerceValue,
                    Note::SeeDocs(
                        String::from_str("type coercion"),
                        Urls::func_docs("#coerce-functions"),
                    ),
                ];
                assert(r@.map_values(|n: Note| crate::diagnostic::note_text(n)) =~= error_notes(
                    *self,
                ));
                r
            },
        }
    }
}

/// Building a negation over an operand whose kind is not exactly boolean
/// fails with code 660, a primary label at the operator's span and a context
/// label at the operand's span.
pub proof fn lemma_non_boolean_refused(
    node: Node<Expr>,
    not_span: Span,
    env: Seq<(String, Kind)>,
    r: Result<Not, Error>,
)
    requires
        new_outcome(node, not_span, env, r),
        type_def(node.inner, env).kind != boolean_kind(),
    ensures
        r is Err,
        error_code(r->Err_0) == 660,
        error_labels(r->Err_0).len() == 2,
        error_labels(r->Err_0)[0].1 == not_span,
        error_labels(r->Err_0)[0].2,
        error_labels(r->Err_0)[1].1 == node.span,
        !error_labels(r->Err_0)[1].2,
{
}

/// Negation flips a boolean operand and passes an operand's failure on
/// unchanged.
pub proof fn lemma_negation_outcome(n: Not, rec: Seq<(String, Value)>)
    ensures
        eval(*n.inner, rec) is Err ==> eval(Expr::Not(n), rec) == eval(*n.inner, rec),
        eval(*n.inner, rec) is Ok && eval(*n.inner, rec)->Ok_0 is Boolean ==> eval(
            Expr::Not(n),
            rec,
        ) == Ok::<Value, crate::value::ExpressionError>(
            Value::Boolean(!eval(*n.inner, rec)->Ok_0->Boolean_0),
        ),
{
}

/// A negation that was built reads as `!` followed by its operand, and
/// types as a boolean that is fallible exactly where the operand is.
pub proof fn lemma_negation_text(
    node: Node<Expr>,
    not_span: Span,
    env: Seq<(String, Kind)>,
    r: Result<Not, Error>,
)
    requires
        new_outcome(node, not_span, env, r),
        r is Ok,
    ensures
        text(Expr::Not(r->Ok_0)) == "!"@ + text(node.inner),
        type_def(Expr::Not(r->Ok_0), env) == (TypeDef {
            kind: boolean_kind(),
            fallible: type_def(node.inner, env).fallible,
        }),
{
}

} // verus!
