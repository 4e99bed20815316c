use vrl_compiler::expression::{
    BatchContext, Context, Expr, ExternalEnv, Op, Opcode, Query, ToBool,
};
use vrl_compiler::kind::{Kind, TypeDef};
use vrl_compiler::new_relic::{
    EventsApiModel, LogsApiModel, MetricsApiModel, NewRelicApiModel, NewRelicSinkError,
};
use vrl_compiler::value::{ExpressionError, Record, Value};

fn lit_int(i: i64) -> Expr {
    Expr::Literal(Value::Integer(i))
}

fn eval(e: &Expr) -> Result<Value, ExpressionError> {
    e.resolve(&Context { record: Record::new(vec![]) })
}

fn to_bool(s: &str) -> Result<Value, ExpressionError> {
    eval(&Expr::ToBool(ToBool::new(Expr::Literal(Value::Bytes(s.to_string())))))
}

#[test]
fn kind_text() {
    assert_eq!(Kind::boolean().to_text(), "boolean");
    assert_eq!(Kind::any().to_text(), "any");
    assert_eq!(Kind::never().to_text(), "never");
    assert_eq!(Kind::bytes().union(&Kind::integer()).to_text(), "string or integer");
    let three = Kind::null().union(&Kind::bytes()).union(&Kind::integer());
    assert_eq!(three.to_text(), "string, integer or null");
}

#[test]
fn kind_union_and_queries() {
    let k = Kind::boolean().union(&Kind::null());
    assert!(!k.is_boolean());
    assert!(k.contains(&Kind::boolean()));
    assert!(!Kind::boolean().contains(&k));
    assert!(Kind::boolean().union(&Kind::boolean()).is_boolean());
    let t = TypeDef::boolean().union(&TypeDef::integer().with_fallibility(true));
    assert!(t.fallible);
    assert!(!t.is_boolean());
}

#[test]
fn integer_arithmetic_and_overflow() {
    assert_eq!(eval(&Expr::Op(Op::new(lit_int(40), Opcode::Add, lit_int(2)))), Ok(Value::Integer(42)));
    assert_eq!(eval(&Expr::Op(Op::new(lit_int(2), Opcode::Sub, lit_int(40)))), Ok(Value::Integer(-38)));
    assert_eq!(
        eval(&Expr::Op(Op::new(lit_int(i64::MAX), Opcode::Add, lit_int(1)))),
        Err(ExpressionError::Overflow)
    );
    assert_eq!(
        eval(&Expr::Op(Op::new(lit_int(i64::MIN), Opcode::Sub, lit_int(1)))),
        Err(ExpressionError::Overflow)
    );
    assert_eq!(
        eval(&Expr::Op(Op::new(lit_int(1), Opcode::Add, Expr::Literal(Value::Null)))),
        Err(ExpressionError::ValueType { expected: Kind::integer(), got: Kind::null() })
    );
}

#[test]
fn comparisons() {
    assert_eq!(eval(&Expr::Op(Op::new(lit_int(1), Opcode::Gt, lit_int(2)))), Ok(Value::Boolean(false)));
    let a = Expr::Literal(Value::Bytes("x".to_string()));
    let b = Expr::Literal(Value::Bytes("x".to_string()));
    assert_eq!(eval(&Expr::Op(Op::new(a, Opcode::Eq, b))), Ok(Value::Boolean(true)));
    assert_eq!(
        eval(&Expr::Op(Op::new(lit_int(1), Opcode::Ne, Expr::Literal(Value::Boolean(true))))),
        Ok(Value::Boolean(true))
    );
    assert_eq!(
        eval(&Expr::Op(Op::new(Expr::Literal(Value::Null), Opcode::Lt, lit_int(1)))),
        Err(ExpressionError::ValueType { expected: Kind::integer(), got: Kind::null() })
    );
}

#[test]
fn and_or_short_circuit() {
    let missing = || Expr::Query(Query::new("nope".to_string()));
    let f = Expr::Op(Op::new(Expr::Literal(Value::Boolean(false)), Opcode::And, missing()));
    assert_eq!(eval(&f), Ok(Value::Boolean(false)));
    let t = Expr::Op(Op::new(Expr::Literal(Value::Boolean(true)), Opcode::Or, missing()));
    assert_eq!(eval(&t), Ok(Value::Boolean(true)));
    let g = Expr::Op(Op::new(Expr::Literal(Value::Boolean(true)), Opcode::And, missing()));
    assert_eq!(eval(&g), Err(ExpressionError::MissingField("nope".to_string())));
    let h = Expr::Op(Op::new(lit_int(3), Opcode::Or, missing()));
    assert_eq!(
        eval(&h),
        Err(ExpressionError::ValueType { expected: Kind::boolean(), got: Kind::integer() })
    );
}

#[test]
fn to_bool_coercions() {
    for s in ["true", "t", "yes", "y", "1"] {
        assert_eq!(to_bool(s), Ok(Value::Boolean(true)));
    }
    for s in ["false", "f", "no", "n", "0"] {
        assert_eq!(to_bool(s), Ok(Value::Boolean(false)));
    }
    assert_eq!(to_bool("TRUE"), Err(ExpressionError::InvalidBoolean("TRUE".to_string())));
    assert_eq!(eval(&Expr::ToBool(ToBool::new(lit_int(0)))), Ok(Value::Boolean(false)));
    assert_eq!(eval(&Expr::ToBool(ToBool::new(lit_int(-7)))), Ok(Value::Boolean(true)));
    assert_eq!(
        eval(&Expr::ToBool(ToBool::new(Expr::Literal(Value::Null)))),
        Ok(Value::Boolean(false))
    );
}

#[test]
fn field_reads_take_first_match() {
    let rec = Record::new(vec![
        ("a".to_string(), Value::Integer(1)),
        ("a".to_string(), Value::Integer(2)),
    ]);
    assert_eq!(rec.get(&"a".to_string()), Some(Value::Integer(1)));
    assert_eq!(rec.get(&"b".to_string()), None);
    let env = ExternalEnv::new(vec![
        ("a".to_string(), Kind::integer()),
        ("a".to_string(), Kind::boolean()),
    ]);
    assert_eq!(env.field_kind(&"a".to_string()), Kind::integer());
    assert_eq!(env.field_kind(&"z".to_string()), Kind::any());
    let q = Expr::Query(Query::new("a".to_string()));
    assert_eq!(q.type_def(&env), TypeDef { kind: Kind::integer(), fallible: true });
}

#[test]
fn empty_selection_leaves_batch_alone() {
    let e = Expr::Literal(Value::Boolean(true));
    let mut ctx = BatchContext {
        records: vec![Record::new(vec![])],
        resolved_values: vec![Ok(Value::Null)],
    };
    e.resolve_batch(&mut ctx, &[]);
    assert_eq!(ctx.resolved_values, vec![Ok(Value::Null)]);
}

#[test]
fn new_relic_models() {
    let item = vec![("name".to_string(), Value::Bytes("cpu".to_string()))];
    let m = MetricsApiModel::new(vec![item.clone()]);
    assert_eq!(m.0.len(), 1);
    assert_eq!(m.0[0][0].0, "metrics");
    assert_eq!(m.0[0][0].1, vec![item.clone()]);
    let l = LogsApiModel::new(vec![item.clone()]);
    assert_eq!(l.0[0][0].0, "logs");
    let e = EventsApiModel::new(vec![item.clone(), item.clone()]);
    assert_eq!(e.0.len(), 2);
    let wrapped = NewRelicApiModel::Events(e);
    assert!(matches!(wrapped, NewRelicApiModel::Events(_)));
}

#[test]
fn logs_body_adds_default_message() {
    let with_message = Record::new(vec![
        ("message".to_string(), Value::Bytes("hello".to_string())),
        ("host".to_string(), Value::Bytes("h1".to_string())),
    ]);
    let without = Record::new(vec![("level".to_string(), Value::Integer(3))]);
    let body = LogsApiModel::try_from_logs(vec![with_message.clone(), without]).unwrap();
    assert_eq!(body.0.len(), 1);
    assert_eq!(body.0[0][0].0, "logs");
    let items = &body.0[0][0].1;
    assert_eq!(items[0], with_message.fields);
    assert_eq!(
        items[1],
        vec![
            ("level".to_string(), Value::Integer(3)),
            ("message".to_string(), Value::Bytes("log from vector".to_string())),
        ]
    );
}

#[test]
fn logs_body_of_nothing_is_refused() {
    assert_eq!(
        LogsApiModel::try_from_logs(vec![]),
        Err(NewRelicSinkError { message: "No valid logs to generate".to_string() })
    );
}
