use vstd::prelude::*;

use crate::kind::{boolean_kind, integer_kind, Kind, TypeDef, any_kind};
use crate::not::Not;
use crate::value::{
    value_text, duplicate_resolved, field_value, kind_of, same_value, ExpressionError, Record, Resolved, Value,
};

verus! {

/// A half-open range of bytes in the source text.
#[derive(Clone, Copy, Debug, PartialEq, Eq, Structural)]
pub struct Span {
    pub start: usize,
    pub end: usize,
}

impl Span {
    pub fn new(start: usize, end: usize) -> (r: Span)
        ensures
            r == (Span { start, end }),
    {
        Span { start, end }
    }
}

/// A parsed item together with where it stands in the source.
#[derive(Clone, Debug, PartialEq)]
pub struct Node<T> {
    pub span: Span,
    pub inner: T,
}

impl<T> Node<T> {
    pub fn new(span: Span, inner: T) -> (r: Node<T>)
        ensures
            r.span == span,
            r.inner == inner,
    {
        Node { span, inner }
    }

    pub fn take(self) -> (r: (Span, T))
        ensures
            r == (self.span, self.inner),
    {
        (self.span, self.inner)
    }
}

/// The binary operators.
#[derive(Clone, Copy, Debug, PartialEq, Eq, Structural)]
pub enum Opcode {
    And,
    Or,
    Eq,
    Ne,
    Lt,
    Gt,
    Add,
    Sub,
}

/// A binary operation; `&&` and `||` work out their right side only where
/// the left one leaves the result open.
#[derive(Debug, PartialEq)]
pub struct Op {
    pub lhs: Box<Expr>,
    pub rhs: Box<Expr>,
    pub opcode: Opcode,
}

/// A read of one field of the record.
#[derive(Clone, Debug, PartialEq)]
pub struct Query {
    pub field: String,
}

/// The coercion call `to_bool(value)`.
#[derive(Debug, PartialEq)]
pub struct ToBool {
    pub value: Box<Expr>,
}

/// An expression tree; each node owns its children.
#[derive(Debug, PartialEq)]
pub enum Expr {
    Literal(Value),
    Query(Query),
    Not(Not),
    Op(Op),
    ToBool(ToBool),
}

/// The operations that take the outcome of one child.
#[derive(Clone, Copy, Debug, PartialEq, Eq, Structural)]
pub enum Unary {
    Negate,
    Coerce,
}

/// The words that `to_bool` reads as true.
pub open spec fn true_word(s: Seq<char>) -> bool {
    s == "true"@ || s == "t"@ || s == "yes"@ || s == "y"@ || s == "1"@
}

/// The words that `to_bool` reads as false.
pub open spec fn false_word(s: Seq<char>) -> bool {
    s == "false"@ || s == "f"@ || s == "no"@ || s == "n"@ || s == "0"@
}

/// Negation of a child's outcome: a failure passes through unchanged.
pub open spec fn negate(r: Resolved) -> Resolved {
    match r {
        Err(e) => Err(e),
        Ok(Value::Boolean(b)) => Ok(Value::Boolean(!b)),
        Ok(v) => Err(ExpressionError::ValueType { expected: boolean_kind(), got: kind_of(v) }),
    }
}

/// `to_bool` of a child's outcome: a failure passes through unchanged.
pub open spec fn coerce_bool(r: Resolved) -> Resolved {
    match r {
        Err(e) => Err(e),
        Ok(Value::Boolean(b)) => Ok(Value::Boolean(b)),
        Ok(Value::Integer(i)) => Ok(Value::Boolean(i != 0)),
        Ok(Value::Null) => Ok(Value::Boolean(false)),
        Ok(Value::Bytes(s)) => if true_word(s@) {
            Ok(Value::Boolean(true))
        } else if false_word(s@) {
            Ok(Value::Boolean(false))
        } else {
            Err(ExpressionError::InvalidBoolean(s))
        },
    }
}

pub open spec fn apply_unary(u: Unary, r: Resolved) -> Resolved {
    match u {
        Unary::Negate => negate(r),
        Unary::Coerce => coerce_bool(r),
    }
}

/// Whether the right side is worked out, given the outcome of the left one.
pub open spec fn needs_rhs(op: Opcode, l: Resolved) -> bool {
    match l {
        Err(_) => false,
        Ok(v) => match op {
            Opcode::And => v == Value::Boolean(true),
            Opcode::Or => v == Value::Boolean(false),
            _ => true,
        },
    }
}

/// The outcome where the left side alone decides it.
pub open spec fn settle(op: Opcode, l: Resolved) -> Resolved {
    match l {
        Err(e) => Err(e),
        Ok(Value::Boolean(b)) => Ok(Value::Boolean(b)),
        Ok(v) => Err(ExpressionError::ValueType { expected: boolean_kind(), got: kind_of(v) }),
    }
}

/// The operation on two values.
pub open spec fn apply_op(op: Opcode, l: Value, r: Value) -> Resolved {
    match op {
        Opcode::And | Opcode::Or => match r {
            Value::Boolean(b) => Ok(Value::Boolean(b)),
            _ => Err(ExpressionError::ValueType { expected: boolean_kind(), got: kind_of(r) }),
        },
        Opcode::Eq => Ok(Value::Boolean(same_value(l, r))),
        Opcode::Ne => Ok(Value::Boolean(!same_value(l, r))),
        _ => match (l, r) {
            (Value::Integer(a), Value::Integer(b)) => match op {
                Opcode::Lt => Ok(Value::Boolean(a < b)),
                Opcode::Gt => Ok(Value::Boolean(a > b)),
                _ => {
                    let n = if op == Opcode::Add {
                        a + b
                    } else {
                        a - b
                    };
                    if i64::MIN <= n <= i64::MAX {
                        Ok(Value::Integer(n as i64))
                    } else {
                        Err(ExpressionError::Overflow)
                    }
                },
            },
            (Value::Integer(_), _) => Err(
                ExpressionError::ValueType { expected: integer_kind(), got: kind_of(r) },
            ),
            _ => Err(ExpressionError::ValueType { expected: integer_kind(), got: kind_of(l) }),
        },
    }
}

/// The operation, once the right side has been worked out.
pub open spec fn combine(op: Opcode, l: Value, r: Resolved) -> Resolved {
    match r {
        Err(e) => Err(e),
        Ok(rv) => apply_op(op, l, rv),
    }
}

/// What an expression resolves to on a record with the given fields.
pub open spec fn eval(e: Expr, rec: Seq<(String, Value)>) -> Resolved
    decreases e,
{
    match e {
        Expr::Literal(v) => Ok(v),
        Expr::Query(q) => match field_value(rec, q.field@) {
            Some(v) => Ok(v),
            None => Err(ExpressionError::MissingField(q.field)),
        },
        Expr::Not(n) => negate(eval(*n.inner, rec)),
        Expr::ToBool(t) => coerce_bool(eval(*t.value, rec)),
        Expr::Op(o) => {
            let l = eval(*o.lhs, rec);
            if needs_rhs(o.opcode, l) {
                combine(o.opcode, l->Ok_0, eval(*o.rhs, rec))
            } else {
                settle(o.opcode, l)
            }
        },
    }
}

/// The kind bound to a field name, `any` where none is.
pub open spec fn env_kind(env: Seq<(String, Kind)>, name: Seq<char>) -> Kind
    decreases env.len(),
{
    if env.len() == 0 {
        any_kind()
    } else if env[0].0@ == name {
        env[0].1
    } else {
        env_kind(env.drop_first(), name)
    }
}

/// The static type of an expression under the given field types.
pub open spec fn type_def(e: Expr, env: Seq<(String, Kind)>) -> TypeDef
    decreases e,
{
    match e {
        Expr::Literal(v) => TypeDef { kind: kind_of(v), fallible: false },
        Expr::Query(q) => TypeDef { kind: env_kind(env, q.field@), fallible: true },
        Expr::Not(n) => TypeDef { kind: boolean_kind(), fallible: type_def(*n.inner, env).fallible },
        Expr::ToBool(t) => TypeDef { kind: boolean_kind(), fallible: true },
        Expr::Op(o) => {
            let l = type_def(*o.lhs, env);
            let r = type_def(*o.rhs, env);
            match o.opcode {
                Opcode::And | Opcode::Or => TypeDef {
                    kind: boolean_kind(),
                    fallible: l.fallible || r.fallible || l.kind != boolean_kind() || r.kind
                        != boolean_kind(),
                },
                Opcode::Eq | Opcode::Ne => TypeDef {
                    kind: boolean_kind(),
                    fallible: l.fallible || r.fallible,
                },
                Opcode::Lt | Opcode::Gt => TypeDef {
                    kind: boolean_kind(),
                    fallible: l.fallible || r.fallible || l.kind != integer_kind() || r.kind
                        != integer_kind(),
                },
                _ => TypeDef { kind: integer_kind(), fallible: true },
            }
        },
    }
}

/// Whether the characters of `s` are those of `word`.
fn text_is(s: &String, word: &str) -> (r: bool)
    ensures
        r == (s@ == word@),
{
    *s == String::from_str(word)
}

/// One unary operation on a child's outcome.
pub fn unary(u: Unary, r: &Resolved) -> (out: Resolved)
    ensures
        out == apply_unary(u, *r),
{
    match r {
        Err(e) => Err(e.duplicate()),
        Ok(v) => match u {
            Unary::Negate => match v.try_boolean() {
                Ok(b) => Ok(Value::Boolean(!b)),
                Err(e) => Err(e),
            },
            Unary::Coerce => match v {
                Value::Boolean(b) => Ok(Value::Boolean(*b)),
                Value::Integer(i) => Ok(Value::Boolean(*i != 0)),
                Value::Null => Ok(Value::Boolean(false)),
                Value::Bytes(s) => {
                    if text_is(s, "true") || text_is(s, "t") || text_is(s, "yes") || text_is(
                        s,
                        "y",
                    ) || text_is(s, "1") {
                        Ok(Value::Boolean(true))
                    } else if text_is(s, "false") || text_is(s, "f") || text_is(s, "no")
                        || text_is(s, "n") || text_is(s, "0") {
                        Ok(Value::Boolean(false))
                    } else {
                        Err(ExpressionError::InvalidBoolean(s.clone()))
                    }
                },
            },
        },
    }
}

fn rhs_needed(op: Opcode, l: &Resolved) -> (r: bool)
    ensures
        r == needs_rhs(op, *l),
{
    match l {
        Err(_) => false,
        Ok(v) => match op {
            Opcode::And => match v {
                Value::Boolean(b) => *b,
                _ => false,
            },
            Opcode::Or => match v {
                Value::Boolean(b) => !*b,
                _ => false,
            },
            _ => true,
        },
    }
}

fn settle_exec(op: Opcode, l: &Resolved) -> (r: Resolved)
    ensures
        r == settle(op, *l),
{
    match l {
        Err(e) => Err(e.duplicate()),
        Ok(v) => match v.try_boolean() {
            Ok(b) => Ok(Value::Boolean(b)),
            Err(e) => Err(e),
        },
    }
}

fn apply_op_exec(op: Opcode, l: &Value, r: &Value) -> (out: Resolved)
    ensures
        out == apply_op(op, *l, *r),
{
    match op {
        Opcode::And | Opcode::Or => match r.try_boolean() {
            Ok(b) => Ok(Value::Boolean(b)),
            Err(e) => Err(e),
        },
        Opcode::Eq => Ok(Value::Boolean(l.same_as(r))),
        Opcode::Ne => Ok(Value::Boolean(!l.same_as(r))),
        _ => match (l, r) {
            (Value::Integer(a), Value::Integer(b)) => match op {
                Opcode::Lt => Ok(Value::Boolean(*a < *b)),
                Opcode::Gt => Ok(Value::Boolean(*a > *b)),
                Opcode::Add => match a.checked_add(*b) {
                    Some(n) => Ok(Value::Integer(n)),
                    None => Err(ExpressionError::Overflow),
                },
                _ => match a.checked_sub(*b) {
                    Some(n) => Ok(Value::Integer(n)),
                    None => Err(ExpressionError::Overflow),
                },
            },
            (Value::Integer(_), _) => Err(
                ExpressionError::ValueType { expected: Kind::integer(), got: r.kind() },
            ),
            _ => Err(ExpressionError::ValueType { expected: Kind::integer(), got: l.kind() }),
        },
    }
}

fn combine_exec(op: Opcode, l: &Value, r: &Resolved) -> (out: Resolved)
    ensures
        out == combine(op, *l, *r),
{
    match r {
        Err(e) => Err(e.duplicate()),
        Ok(rv) => apply_op_exec(op, l, rv),
    }
}

/// The record that a single evaluation reads.
#[derive(Clone, Debug, PartialEq)]
pub struct Context {
    pub record: Record,
}

/// A batch of records with one outcome slot for each.
#[derive(Clone, Debug, PartialEq)]
pub struct BatchContext {
    pub records: Vec<Record>,
    pub resolved_values: Vec<Resolved>,
}

impl BatchContext {
    /// Records and slots line up one for one.
    pub open spec fn wf(&self) -> bool {
        self.records@.len() == self.resolved_values@.len()
    }

    /// The fields of record `i`.
    pub open spec fn fields(&self, i: int) -> Seq<(String, Value)> {
        self.records@[i].fields@
    }
}

/// Indices below `n`, none twice.
pub open spec fn valid_selection(sel: Seq<usize>, n: int) -> bool {
    &&& forall|k: int| 0 <= k < sel.len() ==> sel[k] < n
    &&& forall|a: int, b: int| 0 <= a < b < sel.len() ==> sel[a] != sel[b]
}

/// What a batch step leaves: records kept, each selected slot holding
/// `f` of its record and old content, every other slot as it was.
pub open spec fn slots_done(
    before: BatchContext,
    after: BatchContext,
    sel: Seq<usize>,
    done: spec_fn(Seq<(String, Value)>, Resolved) -> Resolved,
) -> bool {
    &&& after.records == before.records
    &&& after.resolved_values@.len() == before.resolved_values@.len()
    &&& forall|k: int|
        0 <= k < sel.len() ==> #[trigger] after.resolved_values@[sel[k] as int] == done(
            before.fields(sel[k] as int),
            before.resolved_values@[sel[k] as int],
        )
    &&& forall|i: int|
        0 <= i < before.resolved_values@.len() && !sel.contains(i as usize)
            ==> #[trigger] after.resolved_values@[i] == before.resolved_values@[i]
}

/// Applies a unary operation to each selected slot in place.
pub(crate) fn unary_slots(ctx: &mut BatchContext, sel: &[usize], u: Unary)
    requires
        old(ctx).wf(),
        valid_selection(sel@, old(ctx).records@.len() as int),
    ensures
        slots_done(
            *old(ctx),
            *final(ctx),
            sel@,
            |f: Seq<(String, Value)>, r: Resolved| apply_unary(u, r),
        ),
{
    let ghost before = *ctx;
    let n = sel.len();
    let mut j: usize = 0;
    while j < n
        invariant
            n == sel@.len(),
            j <= n,
            before.wf(),
            valid_selection(sel@, before.records@.len() as int),
            ctx.records == before.records,
            ctx.resolved_values@.len() == before.resolved_values@.len(),
            forall|k: int|
                0 <= k < j ==> #[trigger] ctx.resolved_values@[sel@[k] as int] == apply_unary(
                    u,
                    before.resolved_values@[sel@[k] as int],
                ),
            forall|k: int|
                j <= k < n ==> #[trigger] ctx.resolved_values@[sel@[k] as int]
                    == before.resolved_values@[sel@[k] as int],
            forall|i: int|
                0 <= i < before.resolved_values@.len() && !sel@.contains(i as usize)
                    ==> #[trigger] ctx.resolved_values@[i] == before.resolved_values@[i],
        decreases n - j,
    {
        let idx = sel[j];
        let r = unary(u, &ctx.resolved_values[idx]);
        ctx.resolved_values.set(idx, r);
        proof {
            assert forall|i: int|
                0 <= i < before.resolved_values@.len() && !sel@.contains(i as usize) implies
                #[trigger] ctx.resolved_values@[i] == before.resolved_values@[i] by {
                assert(sel@[j as int] == idx);
                if i == idx as int {
                    assert(sel@.contains(i as usize));
                }
            }
        }
        j = j + 1;
    }
}

impl Expr {
    /// Works out this expression on one record.
    pub fn resolve_record(&self, rec: &Record) -> (r: Resolved)
        ensures
            r == eval(*self, rec.fields@),
        decreases self,
    {
        match self {
            Expr::Literal(v) => Ok(v.duplicate()),
            Expr::Query(q) => match rec.get(&q.field) {
                Some(v) => Ok(v),
                None => Err(ExpressionError::MissingField(q.field.clone())),
            },
            Expr::Not(n) => {
                let c = n.inner.resolve_record(rec);
                unary(Unary::Negate, &c)
            },
            Expr::ToBool(t) => {
                let c = t.value.resolve_record(rec);
                unary(Unary::Coerce, &c)
            },
            Expr::Op(o) => {
                let l = o.lhs.resolve_record(rec);
                if rhs_needed(o.opcode, &l) {
                    let r = o.rhs.resolve_record(rec);
                    match &l {
                        Ok(lv) => combine_exec(o.opcode, lv, &r),
                        Err(e) => Err(e.duplicate()),
                    }
                } else {
                    settle_exec(o.opcode, &l)
                }
            },
        }
    }

    /// Works out this expression on the record of `ctx`.
    pub fn resolve(&self, ctx: &Context) -> (r: Resolved)
        ensures
            r == eval(*self, ctx.record.fields@),
    {
        self.resolve_record(&ctx.record)
    }

    /// Works out this expression on each selected record of the batch,
    /// writing each outcome into that record's slot and leaving every other
    /// slot as it was.
    pub fn resolve_batch(&self, ctx: &mut BatchContext, selection_vector: &[usize])
        requires
            old(ctx).wf(),
            valid_selection(selection_vector@, old(ctx).records@.len() as int),
        ensures
            slots_done(
                *old(ctx),
                *final(ctx),
                selection_vector@,
                |f: Seq<(String, Value)>, r: Resolved| eval(*self, f),
            ),
        decreases self,
    {
        match self {
            Expr::Literal(_) | Expr::Query(_) => self.resolve_leaves(ctx, selection_vector),
            Expr::Not(n) => {
                n.inner.resolve_batch(ctx, selection_vector);
                unary_slots(ctx, selection_vector, Unary::Negate);
            },
            Expr::ToBool(t) => {
                t.value.resolve_batch(ctx, selection_vector);
                unary_slots(ctx, selection_vector, Unary::Coerce);
            },
            Expr::Op(o) => self.resolve_op_batch(ctx, selection_vector),
        }
    }

    fn resolve_leaves(&self, ctx: &mut BatchContext, sel: &[usize])
        requires
            old(ctx).wf(),
            valid_selection(sel@, old(ctx).records@.len() as int),
        ensures
            slots_done(
                *old(ctx),
                *final(ctx),
                sel@,
                |f: Seq<(String, Value)>, r: Resolved| eval(*self, f),
            ),
    {
        let ghost before = *ctx;
        let n = sel.len();
        let mut j: usize = 0;
        while j < n
            invariant
                n == sel@.len(),
                j <= n,
                before.wf(),
                valid_selection(sel@, before.records@.len() as int),
                ctx.records == before.records,
                ctx.resolved_values@.len() == before.resolved_values@.len(),
                forall|k: int|
                    0 <= k < j ==> #[trigger] ctx.resolved_values@[sel@[k] as int] == eval(
                        *self,
                        before.fields(sel@[k] as int),
                    ),
                forall|k: int|
                    j <= k < n ==> #[trigger] ctx.resolved_values@[sel@[k] as int]
                        == before.resolved_values@[sel@[k] as int],
                forall|i: int|
                    0 <= i < before.resolved_values@.len() && !sel@.contains(i as usize)
                        ==> #[trigger] ctx.resolved_values@[i] == before.resolved_values@[i],
            decreases n - j,
        {
            let idx = sel[j];
            let r = self.resolve_record(&ctx.records[idx]);
            ctx.resolved_values.set(idx, r);
            proof {
                assert forall|i: int|
                    0 <= i < before.resolved_values@.len() && !sel@.contains(i as usize) implies
                    #[trigger] ctx.resolved_values@[i] == before.resolved_values@[i] by {
                    assert(sel@[j as int] == idx);
                    if i == idx as int {
                        assert(sel@.contains(i as usize));
                    }
                }
            }
            j = j + 1;
        }
    }

    fn resolve_op_batch(&self, ctx: &mut BatchContext, sel: &[usize])
        requires
            self is Op,
            old(ctx).wf(),
            valid_selection(sel@, old(ctx).records@.len() as int),
        ensures
            slots_done(
                *old(ctx),
                *final(ctx),
                sel@,
                |f: Seq<(String, Value)>, r: Resolved| eval(*self, f),
            ),
        decreases self, 0nat,
    {
        if let Expr::Op(o) = self {
            let ghost before = *ctx;
            o.lhs.resolve_batch(ctx, sel);
            let ghost mid = *ctx;
            let n = sel.len();
            let mut lhs_vals: Vec<Resolved> = Vec::new();
            let mut rhs_sel: Vec<usize> = Vec::new();
            let ghost mut pos: Seq<int> = Seq::empty();
            let mut j: usize = 0;
            while j < n
                invariant
                    n == sel@.len(),
                    j <= n,
                    mid.wf(),
                    *ctx == mid,
                    valid_selection(sel@, mid.records@.len() as int),
                    lhs_vals@.len() == j,
                    forall|k: int|
                        0 <= k < j ==> #[trigger] lhs_vals@[k] == mid.resolved_values@[sel@[k] as int],
                    pos.len() == rhs_sel@.len(),
                    forall|m: int|
                        0 <= m < pos.len() ==> 0 <= #[trigger] pos[m] < j && rhs_sel@[m] == sel@[pos[m]],
                    forall|a: int, b: int| 0 <= a < b < pos.len() ==> pos[a] < pos[b],
                    forall|k: int|
                        0 <= k < j && needs_rhs(o.opcode, #[trigger] lhs_vals@[k]) ==> rhs_sel@.contains(
                            sel@[k],
                        ),
                decreases n - j,
            {
                let idx = sel[j];
                let ghost old_lhs = lhs_vals@;
                let ghost old_rhs = rhs_sel@;
                let l = duplicate_resolved(&ctx.resolved_values[idx]);
                if rhs_needed(o.opcode, &l) {
                    rhs_sel.push(idx);
                    proof {
                        pos = pos.push(j as int);
                        assert(rhs_sel@[rhs_sel@.len() - 1] == idx);
                    }
                }
                lhs_vals.push(l);
                proof {
                    assert forall|k: int|
                        0 <= k < j + 1 && needs_rhs(o.opcode, #[trigger] lhs_vals@[k]) implies rhs_sel@.contains(
                        sel@[k],
                    ) by {
                        if k == j {
                            assert(rhs_sel@[rhs_sel@.len() - 1] == idx);
                        } else {
                            assert(lhs_vals@[k] == old_lhs[k]);
                            let m = choose|m: int| 0 <= m < old_rhs.len() && old_rhs[m] == sel@[k];
                            assert(rhs_sel@[m] == old_rhs[m]);
                        }
                    }
                }
                j = j + 1;
            }
            proof {
                assert forall|a: int, b: int| 0 <= a < b < rhs_sel@.len() implies rhs_sel@[a]
                    != rhs_sel@[b] by {
                    assert(pos[a] < pos[b]);
                }
                assert forall|m: int| 0 <= m < rhs_sel@.len() implies rhs_sel@[m]
                    < mid.records@.len() by {
                    assert(rhs_sel@[m] == sel@[pos[m]]);
                }
            }
            o.rhs.resolve_batch(ctx, rhs_sel.as_slice());
            let ghost after_rhs = *ctx;
            proof {
                assert forall|i: int|
                    0 <= i < mid.resolved_values@.len() && !sel@.contains(i as usize) implies
                    #[trigger] after_rhs.resolved_values@[i] == mid.resolved_values@[i] by {
                    if rhs_sel@.contains(i as usize) {
                        let m = choose|m: int| 0 <= m < rhs_sel@.len() && rhs_sel@[m] == i as usize;
                        assert(sel@[pos[m]] == i as usize);
                        assert(sel@.contains(i as usize));
                    }
                }
            }
            let mut j: usize = 0;
            while j < n
                invariant
                    n == sel@.len(),
                    j <= n,
                    *self == Expr::Op(*o),
                    before.wf(),
                    valid_selection(sel@, before.records@.len() as int),
                    ctx.records == before.records,
                    mid.records == before.records,
                    after_rhs.records == before.records,
                    ctx.resolved_values@.len() == before.resolved_values@.len(),
                    after_rhs.resolved_values@.len() == before.resolved_values@.len(),
                    lhs_vals@.len() == n,
                    forall|k: int|
                        0 <= k < n ==> #[trigger] lhs_vals@[k] == eval(
                            *o.lhs,
                            before.fields(sel@[k] as int),
                        ),
                    forall|k: int|
                        0 <= k < n && needs_rhs(o.opcode, #[trigger] lhs_vals@[k])
                            ==> after_rhs.resolved_values@[sel@[k] as int] == eval(
                            *o.rhs,
                            before.fields(sel@[k] as int),
                        ),
                    forall|k: int|
                        0 <= k < j ==> #[trigger] ctx.resolved_values@[sel@[k] as int] == eval(
                            *self,
                            before.fields(sel@[k] as int),
                        ),
                    forall|k: int|
                        j <= k < n ==> #[trigger] ctx.resolved_values@[sel@[k] as int]
                            == after_rhs.resolved_values@[sel@[k] as int],
                    forall|i: int|
                        0 <= i < before.resolved_values@.len() && !sel@.contains(i as usize)
                            ==> #[trigger] ctx.resolved_values@[i] == before.resolved_values@[i],
                decreases n - j,
            {
                let idx = sel[j];
                let r = if rhs_needed(o.opcode, &lhs_vals[j]) {
                    match &lhs_vals[j] {
                        Ok(lv) => combine_exec(o.opcode, lv, &ctx.resolved_values[idx]),
                        Err(e) => Err(e.duplicate()),
                    }
                } else {
                    settle_exec(o.opcode, &lhs_vals[j])
                };
                proof {
                    let f = before.fields(idx as int);
                    assert(*self == Expr::Op(*o));
                    assert(lhs_vals@[j as int] == eval(*o.lhs, f));
                    assert(eval(*self, f) == (if needs_rhs(o.opcode, eval(*o.lhs, f)) {
                        combine(o.opcode, eval(*o.lhs, f)->Ok_0, eval(*o.rhs, f))
                    } else {
                        settle(o.opcode, eval(*o.lhs, f))
                    }));
                    assert(r == eval(*self, f));
                }
                ctx.resolved_values.set(idx, r);
                proof {
                    assert forall|i: int|
                        0 <= i < before.resolved_values@.len() && !sel@.contains(i as usize) implies
                        #[trigger] ctx.resolved_values@[i] == before.resolved_values@[i] by {
                        assert(sel@[j as int] == idx);
                        if i == idx as int {
                            assert(sel@.contains(i as usize));
                        }
                    }
                }
                j = j + 1;
            }
        }
    }
}

pub open spec fn opcode_text(op: Opcode) -> Seq<char> {
    match op {
        Opcode::And => "&&"@,
        Opcode::Or => "||"@,
        Opcode::Eq => "=="@,
        Opcode::Ne => "!="@,
        Opcode::Lt => "<"@,
        Opcode::Gt => ">"@,
        Opcode::Add => "+"@,
        Opcode::Sub => "-"@,
    }
}

/// How an expression reads as source text; binary operations stand in
/// parentheses, so that the text reads back as the same tree.
pub open spec fn text(e: Expr) -> Seq<char>
    decreases e,
{
    match e {
        Expr::Literal(v) => value_text(v),
        Expr::Query(q) => "."@ + q.field@,
        Expr::Not(n) => "!"@ + text(*n.inner),
        Expr::ToBool(t) => "to_bool("@ + text(*t.value) + ")"@,
        Expr::Op(o) => "("@ + text(*o.lhs) + " "@ + opcode_text(o.opcode) + " "@ + text(*o.rhs)
            + ")"@,
    }
}

impl Opcode {
    pub fn to_text(&self) -> (r: &'static str)
        ensures
            r@ == opcode_text(*self),
    {
        match self {
            Opcode::And => "&&",
            Opcode::Or => "||",
            Opcode::Eq => "==",
            Opcode::Ne => "!=",
            Opcode::Lt => "<",
            Opcode::Gt => ">",
            Opcode::Add => "+",
            Opcode::Sub => "-",
        }
    }
}

/// The types that the fields of incoming records are known to have.
#[derive(Clone, Debug, PartialEq)]
pub struct ExternalEnv {
    pub fields: Vec<(String, Kind)>,
}

impl ExternalEnv {
    pub fn new(fields: Vec<(String, Kind)>) -> (r: ExternalEnv)
        ensures
            r.fields == fields,
    {
        ExternalEnv { fields }
    }

    /// The kind bound to the first field named `name`, `any` where none is.
    pub fn field_kind(&self, name: &String) -> (r: Kind)
        ensures
            r == env_kind(self.fields@, name@),
    {
        let n = self.fields.len();
        let mut i: usize = 0;
        assert(self.fields@.subrange(0, n as int) =~= self.fields@);
        while i < n
            invariant
                n == self.fields@.len(),
                i <= n,
                env_kind(self.fields@.subrange(i as int, n as int), name@) == env_kind(
                    self.fields@,
                    name@,
                ),
            decreases n - i,
        {
            let ghost rest = self.fields@.subrange(i as int, n as int);
            assert(rest.drop_first() =~= self.fields@.subrange(i + 1, n as int));
            if self.fields[i].0 == *name {
                return self.fields[i].1;
            }
            i = i + 1;
        }
        Kind::any()
    }
}

impl Expr {
    /// The static type of this expression.
    pub fn type_def(&self, state: &ExternalEnv) -> (r: TypeDef)
        ensures
            r == type_def(*self, state.fields@),
        decreases self,
    {
        match self {
            Expr::Literal(v) => TypeDef { kind: v.kind(), fallible: false },
            Expr::Query(q) => TypeDef { kind: state.field_kind(&q.field), fallible: true },
            Expr::Not(n) => TypeDef::boolean().with_fallibility(n.inner.type_def(state).is_fallible()),
            Expr::ToBool(_) => TypeDef::boolean().with_fallibility(true),
            Expr::Op(o) => {
                let l = o.lhs.type_def(state);
                let r = o.rhs.type_def(state);
                match o.opcode {
                    Opcode::And | Opcode::Or => TypeDef::boolean().with_fallibility(
                        l.fallible || r.fallible || !l.is_boolean() || !r.is_boolean(),
                    ),
                    Opcode::Eq | Opcode::Ne => TypeDef::boolean().with_fallibility(
                        l.fallible || r.fallible,
                    ),
                    Opcode::Lt | Opcode::Gt => TypeDef::boolean().with_fallibility(
                        l.fallible || r.fallible || !l.kind.is_integer() || !r.kind.is_integer(),
                    ),
                    _ => TypeDef::integer().with_fallibility(true),
                }
            },
        }
    }

    /// This expression as source text.
    pub fn to_text(&self) -> (r: String)
        ensures
            r@ == text(*self),
        decreases self,
    {
        match self {
            Expr::Literal(v) => v.to_text(),
            Expr::Query(q) => {
                let mut out = String::from_str(".");
                out.append(q.field.as_str());
                out
            },
            Expr::Not(n) => {
                let mut out = String::from_str("!");
                let inner = n.inner.to_text();
                out.append(inner.as_str());
                out
            },
            Expr::ToBool(t) => {
                let mut out = String::from_str("to_bool(");
                let inner = t.value.to_text();
                out.append(inner.as_str());
                out.append(")");
                assert(out@ =~= text(*self));
                out
            },
            Expr::Op(o) => {
                let mut out = String::from_str("(");
                let lhs = o.lhs.to_text();
                out.append(lhs.as_str());
                out.append(" ");
                out.append(o.opcode.to_text());
                out.append(" ");
                let rhs = o.rhs.to_text();
                out.append(rhs.as_str());
                out.append(")");
                assert(out@ =~= text(*self));
                out
            },
        }
    }
}

/// Negation is fallible exactly where its operand is; `to_bool`, field
/// reads and arithmetic are fallible whatever their operands.
pub proof fn lemma_fallibility(e: Expr, env: Seq<(String, Kind)>)
    ensures
        e is Not ==> type_def(e, env).fallible == type_def(*e->Not_0.inner, env).fallible,
        e is ToBool ==> type_def(e, env).fallible,
        e is Query ==> type_def(e, env).fallible,
        e is Op && (e->Op_0.opcode == Opcode::Add || e->Op_0.opcode == Opcode::Sub) ==> type_def(
            e,
            env,
        ).fallible,
{
}

impl Op {
    pub fn new(lhs: Expr, opcode: Opcode, rhs: Expr) -> (r: Op)
        ensures
            *r.lhs == lhs,
            *r.rhs == rhs,
            r.opcode == opcode,
    {
        Op { lhs: Box::new(lhs), rhs: Box::new(rhs), opcode }
    }
}

impl Query {
    pub fn new(field: String) -> (r: Query)
        ensures
            r.field == field,
    {
        Query { field }
    }
}

impl ToBool {
    pub fn new(value: Expr) -> (r: ToBool)
        ensures
            *r.value == value,
    {
        ToBool { value: Box::new(value) }
    }
}

} // verus!
