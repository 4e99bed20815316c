use vrl_compiler::expression::{
    BatchContext, Context, Expr, ExternalEnv, Node, Op, Opcode, Query, Span, ToBool,
};
use vrl_compiler::diagnostic::Note;
use vrl_compiler::kind::Kind;
use vrl_compiler::not::Not;
use vrl_compiler::value::{ExpressionError, Record, Value};

fn record(name: &str, value: Value) -> Record {
    Record::new(vec![(name.to_string(), value)])
}

fn env_a_boolean() -> ExternalEnv {
    ExternalEnv::new(vec![("a".to_string(), Kind::boolean())])
}

fn not_of(expr: Expr, env: &ExternalEnv) -> Not {
    Not::new(Node::new(Span::new(1, 2), expr), Span::new(0, 1), env).unwrap()
}

fn query(name: &str) -> Expr {
    Expr::Query(Query::new(name.to_string()))
}

#[test]
fn negation_of_true_is_false() {
    let env = ExternalEnv::new(vec![]);
    let n = not_of(Expr::Literal(Value::Boolean(true)), &env);
    let ctx = Context { record: Record::new(vec![]) };
    assert_eq!(n.resolve(&ctx), Ok(Value::Boolean(false)));
}

#[test]
fn negation_of_false_is_true() {
    let env = ExternalEnv::new(vec![]);
    let n = not_of(Expr::Literal(Value::Boolean(false)), &env);
    let ctx = Context { record: Record::new(vec![]) };
    assert_eq!(n.resolve(&ctx), Ok(Value::Boolean(true)));
}

#[test]
fn negation_passes_failure_on() {
    let env = env_a_boolean();
    let n = not_of(query("a"), &env);
    let ctx = Context { record: record("b", Value::Boolean(true)) };
    assert_eq!(n.resolve(&ctx), Err(ExpressionError::MissingField("a".to_string())));
}

#[test]
fn negation_rechecks_the_value_at_run_time() {
    let env = env_a_boolean();
    let n = not_of(query("a"), &env);
    let ctx = Context { record: record("a", Value::Bytes("x".to_string())) };
    assert_eq!(
        n.resolve(&ctx),
        Err(ExpressionError::ValueType { expected: Kind::boolean(), got: Kind::bytes() })
    );
}

#[test]
fn negation_of_string_literal_is_refused() {
    let env = ExternalEnv::new(vec![]);
    let node = Node::new(Span::new(1, 6), Expr::Literal(Value::Bytes("foo".to_string())));
    let err = Not::new(node, Span::new(0, 1), &env).unwrap_err();
    assert_eq!(err.code(), 660);
    assert_eq!(err.message(), "non-boolean negation");
    let labels = err.labels();
    assert_eq!(labels.len(), 2);
    assert!(labels[0].primary);
    assert_eq!(labels[0].span, Span::new(0, 1));
    assert_eq!(labels[0].message, "negation only works on boolean values");
    assert!(!labels[1].primary);
    assert_eq!(labels[1].span, Span::new(1, 6));
    assert_eq!(labels[1].message, "this expression resolves to string");
    let notes = err.notes();
    assert_eq!(notes.len(), 2);
    assert_eq!(notes[0], Note::CoerceValue);
    assert_eq!(
        notes[1],
        Note::SeeDocs(
            "type coercion".to_string(),
            "https://vrl.dev/functions/#coerce-functions".to_string()
        )
    );
    assert_eq!(
        notes[1].message(),
        "see documentation about type coercion at https://vrl.dev/functions/#coerce-functions"
    );
}

#[test]
fn negation_of_unbound_field_is_refused() {
    let env = ExternalEnv::new(vec![]);
    let node = Node::new(Span::new(1, 3), query("b"));
    let err = Not::new(node, Span::new(0, 1), &env).unwrap_err();
    assert_eq!(err.code(), 660);
    let labels = err.labels();
    assert_eq!(labels[0].span, Span::new(0, 1));
    assert_eq!(labels[1].span, Span::new(1, 3));
    assert_eq!(labels[1].message, "this expression resolves to any");
}

#[test]
fn negation_of_integer_comparison_is_built() {
    let env = ExternalEnv::new(vec![]);
    let cmp = Expr::Op(Op::new(
        Expr::Literal(Value::Integer(1)),
        Opcode::Lt,
        Expr::Literal(Value::Integer(2)),
    ));
    let n = not_of(cmp, &env);
    let ctx = Context { record: Record::new(vec![]) };
    assert_eq!(n.resolve(&ctx), Ok(Value::Boolean(false)));
    assert!(!n.type_def(&env).fallible);
}

#[test]
fn negation_fallible_as_operand() {
    let env = env_a_boolean();
    let lit = not_of(Expr::Literal(Value::Boolean(true)), &env);
    let t = lit.type_def(&env);
    assert_eq!(t.kind, Kind::boolean());
    assert!(!t.fallible);
    let field = not_of(query("a"), &env);
    assert!(field.type_def(&env).fallible);
}

#[test]
fn coercion_is_always_fallible() {
    let env = ExternalEnv::new(vec![]);
    let e = Expr::ToBool(ToBool::new(Expr::Literal(Value::Boolean(true))));
    let t = e.type_def(&env);
    assert_eq!(t.kind, Kind::boolean());
    assert!(t.fallible);
}

#[test]
fn arithmetic_is_always_fallible() {
    let env = ExternalEnv::new(vec![]);
    let e = Expr::Op(Op::new(
        Expr::Literal(Value::Integer(1)),
        Opcode::Add,
        Expr::Literal(Value::Integer(2)),
    ));
    let t = e.type_def(&env);
    assert_eq!(t.kind, Kind::integer());
    assert!(t.fallible);
}

#[test]
fn and_with_non_boolean_operand_is_fallible() {
    let env = ExternalEnv::new(vec![]);
    let e = Expr::Op(Op::new(
        Expr::Literal(Value::Boolean(true)),
        Opcode::And,
        Expr::Literal(Value::Integer(2)),
    ));
    assert!(e.type_def(&env).fallible);
    let ok = Expr::Op(Op::new(
        Expr::Literal(Value::Boolean(true)),
        Opcode::And,
        Expr::Literal(Value::Boolean(false)),
    ));
    assert!(!ok.type_def(&env).fallible);
}

#[test]
fn negation_text() {
    let env = env_a_boolean();
    let n = not_of(query("a"), &env);
    assert_eq!(n.to_text(), "!.a");
    let nested = not_of(Expr::Not(not_of(Expr::Literal(Value::Boolean(true)), &env)), &env);
    assert_eq!(nested.to_text(), "!!true");
    let both = Expr::Op(Op::new(query("a"), Opcode::And, query("a")));
    let negated = not_of(both, &env);
    assert_eq!(negated.to_text(), "!(.a && .a)");
    assert_eq!(Expr::Not(negated).to_text(), "!(.a && .a)");
}

#[test]
fn expression_text() {
    let e = Expr::Op(Op::new(
        Expr::Literal(Value::Integer(-42)),
        Opcode::Ne,
        Expr::ToBool(ToBool::new(Expr::Literal(Value::Bytes("yes".to_string())))),
    ));
    assert_eq!(e.to_text(), "(-42 != to_bool(\"yes\"))");
    let quoted = Expr::Literal(Value::Bytes("say \"hi\" \\ é".to_string()));
    assert_eq!(quoted.to_text(), "\"say \\\"hi\\\" \\\\ é\"");
    assert_eq!(Expr::Literal(Value::Integer(i64::MIN)).to_text(), "-9223372036854775808");
    assert_eq!(Expr::Literal(Value::Integer(1070)).to_text(), "1070");
    assert_eq!(Expr::Literal(Value::Null).to_text(), "null");
}

#[test]
fn batch_short_circuit_scenario() {
    let env = env_a_boolean();
    let n = not_of(query("a"), &env);
    let pre = Err(ExpressionError::Overflow);
    let mut ctx = BatchContext {
        records: vec![
            record("a", Value::Boolean(true)),
            record("a", Value::Bytes("x".to_string())),
            record("a", Value::Boolean(false)),
        ],
        resolved_values: vec![Ok(Value::Null), pre.clone(), Ok(Value::Null)],
    };
    n.resolve_batch(&mut ctx, &[0, 2]);
    assert_eq!(ctx.resolved_values[0], Ok(Value::Boolean(false)));
    assert_eq!(ctx.resolved_values[1], pre);
    assert_eq!(ctx.resolved_values[2], Ok(Value::Boolean(true)));
}

#[test]
fn batch_matches_scalar() {
    // !(.a && to_bool(.b)) || .c == 3
    let lhs = Expr::Not(Not {
        inner: Box::new(Expr::Op(Op::new(
            query("a"),
            Opcode::And,
            Expr::ToBool(ToBool::new(query("b"))),
        ))),
    });
    let rhs = Expr::Op(Op::new(query("c"), Opcode::Eq, Expr::Literal(Value::Integer(3))));
    let e = Expr::Op(Op::new(lhs, Opcode::Or, rhs));
    let records = vec![
        Record::new(vec![
            ("a".to_string(), Value::Boolean(true)),
            ("b".to_string(), Value::Bytes("no".to_string())),
        ]),
        Record::new(vec![
            ("a".to_string(), Value::Boolean(true)),
            ("b".to_string(), Value::Integer(5)),
            ("c".to_string(), Value::Integer(3)),
        ]),
        Record::new(vec![("a".to_string(), Value::Boolean(false))]),
        Record::new(vec![
            ("a".to_string(), Value::Boolean(true)),
            ("b".to_string(), Value::Bytes("maybe".to_string())),
        ]),
        Record::new(vec![
            ("a".to_string(), Value::Boolean(true)),
            ("b".to_string(), Value::Null),
        ]),
        Record::new(vec![("a".to_string(), Value::Integer(1))]),
    ];
    let marker = Ok(Value::Bytes("untouched".to_string()));
    let mut ctx = BatchContext {
        records: records.clone(),
        resolved_values: vec![marker.clone(); records.len()],
    };
    let sel = [5usize, 0, 1, 3, 4];
    e.resolve_batch(&mut ctx, &sel);
    for i in 0..records.len() {
        if sel.contains(&i) {
            let scalar = e.resolve(&Context { record: records[i].clone() });
            assert_eq!(ctx.resolved_values[i], scalar);
        } else {
            assert_eq!(ctx.resolved_values[i], marker);
        }
    }
    assert_eq!(ctx.resolved_values[0], Ok(Value::Boolean(true)));
    assert_eq!(ctx.resolved_values[1], Ok(Value::Boolean(true)));
    assert_eq!(ctx.resolved_values[3], Err(ExpressionError::InvalidBoolean("maybe".to_string())));
    assert_eq!(ctx.resolved_values[4], Ok(Value::Boolean(true)));
    assert_eq!(
        ctx.resolved_values[5],
        Err(ExpressionError::ValueType { expected: Kind::boolean(), got: Kind::integer() })
    );
}
