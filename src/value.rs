use vstd::prelude::*;

use crate::kind::{boolean_kind, bytes_kind, integer_kind, null_kind, Kind};

verus! {

/// A value that an expression produces for one record.
#[derive(Clone, Debug, PartialEq)]
pub enum Value {
    Bytes(String),
    Integer(i64),
    Boolean(bool),
    Null,
}

/// Why working out an expression failed for one record.
#[derive(Clone, Debug, PartialEq)]
pub enum ExpressionError {
    /// A value of another kind than the operation takes.
    ValueType { expected: Kind, got: Kind },
    /// The record has no field of this name.
    MissingField(String),
    /// A string that names no boolean.
    InvalidBoolean(String),
    /// An integer result that does not fit in 64 bits.
    Overflow,
}

/// The outcome of working out an expression for one record.
pub type Resolved = Result<Value, ExpressionError>;

pub open spec fn kind_of(v: Value) -> Kind {
    match v {
        Value::Bytes(_) => bytes_kind(),
        Value::Integer(_) => integer_kind(),
        Value::Boolean(_) => boolean_kind(),
        Value::Null => null_kind(),
    }
}

/// Whether two values are equal, strings by their characters.
pub open spec fn same_value(a: Value, b: Value) -> bool {
    match (a, b) {
        (Value::Bytes(x), Value::Bytes(y)) => x@ == y@,
        (Value::Integer(x), Value::Integer(y)) => x == y,
        (Value::Boolean(x), Value::Boolean(y)) => x == y,
        (Value::Null, Value::Null) => true,
        _ => false,
    }
}

impl Value {
    pub fn kind(&self) -> (r: Kind)
        ensures
            r == kind_of(*self),
    {
        match self {
            Value::Bytes(_) => Kind::bytes(),
            Value::Integer(_) => Kind::integer(),
            Value::Boolean(_) => Kind::boolean(),
            Value::Null => Kind::null(),
        }
    }

    /// A copy of this value.
    pub fn duplicate(&self) -> (r: Value)
        ensures
            r == *self,
    {
        match self {
            Value::Bytes(s) => Value::Bytes(s.clone()),
            Value::Integer(i) => Value::Integer(*i),
            Value::Boolean(b) => Value::Boolean(*b),
            Value::Null => Value::Null,
        }
    }

    /// Whether two values are equal, strings by their characters.
    pub fn same_as(&self, other: &Value) -> (r: bool)
        ensures
            r == same_value(*self, *other),
    {
        match (self, other) {
            (Value::Bytes(x), Value::Bytes(y)) => *x == *y,
            (Value::Integer(x), Value::Integer(y)) => *x == *y,
            (Value::Boolean(x), Value::Boolean(y)) => *x == *y,
            (Value::Null, Value::Null) => true,
            _ => false,
        }
    }

    /// The boolean this value holds, or the error for any other value.
    pub fn try_boolean(&self) -> (r: Result<bool, ExpressionError>)
        ensures
            match *self {
                Value::Boolean(b) => r == Ok::<bool, ExpressionError>(b),
                _ => r == Err::<bool, ExpressionError>(
                    ExpressionError::ValueType { expected: boolean_kind(), got: kind_of(*self) },
                ),
            },
    {
        match self {
            Value::Boolean(b) => Ok(*b),
            _ => Err(ExpressionError::ValueType { expected: Kind::boolean(), got: self.kind() }),
        }
    }
}

impl ExpressionError {
    /// A copy of this error.
    pub fn duplicate(&self) -> (r: ExpressionError)
        ensures
            r == *self,
    {
        match self {
            ExpressionError::ValueType { expected, got } => ExpressionError::ValueType {
                expected: *expected,
                got: *got,
            },
            ExpressionError::MissingField(f) => ExpressionError::MissingField(f.clone()),
            ExpressionError::InvalidBoolean(s) => ExpressionError::InvalidBoolean(s.clone()),
            ExpressionError::Overflow => ExpressionError::Overflow,
        }
    }
}

/// A copy of an outcome.
pub fn duplicate_resolved(r: &Resolved) -> (c: Resolved)
    ensures
        c == *r,
{
    match r {
        Ok(v) => Ok(v.duplicate()),
        Err(e) => Err(e.duplicate()),
    }
}

/// The value of the first field named `name`, if any.
pub open spec fn field_value(fields: Seq<(String, Value)>, name: Seq<char>) -> Option<Value>
    decreases fields.len(),
{
    if fields.len() == 0 {
        None
    } else if fields[0].0@ == name {
        Some(fields[0].1)
    } else {
        field_value(fields.drop_first(), name)
    }
}

/// One record: named fields, in order.
#[derive(Clone, Debug, PartialEq)]
pub struct Record {
    pub fields: Vec<(String, Value)>,
}

impl Record {
    pub fn new(fields: Vec<(String, Value)>) -> (r: Record)
        ensures
            r.fields == fields,
    {
        Record { fields }
    }

    /// A copy of the value of the first field named `name`.
    pub fn get(&self, name: &String) -> (r: Option<Value>)
        ensures
            r == field_value(self.fields@, name@),
    {
        let n = self.fields.len();
        let mut i: usize = 0;
        assert(self.fields@.subrange(0, n as int) =~= self.fields@);
        while i < n
            invariant
                n == self.fields@.len(),
                i <= n,
                field_value(self.fields@.subrange(i as int, n as int), name@) == field_value(
                    self.fields@,
                    name@,
                ),
            decreases n - i,
        {
            let ghost rest = self.fields@.subrange(i as int, n as int);
            assert(rest.drop_first() =~= self.fields@.subrange(i + 1, n as int));
            if self.fields[i].0 == *name {
                return Some(self.fields[i].1.duplicate());
            }
            i = i + 1;
        }
        None
    }
}

pub open spec fn digit_text(d: nat) -> Seq<char> {
    if d == 0 {
        "0"@
    } else if d == 1 {
        "1"@
    } else if d == 2 {
        "2"@
    } else if d == 3 {
        "3"@
    } else if d == 4 {
        "4"@
    } else if d == 5 {
        "5"@
    } else if d == 6 {
        "6"@
    } else if d == 7 {
        "7"@
    } else if d == 8 {
        "8"@
    } else {
        "9"@
    }
}

/// The decimal digits of `n`, without leading zeros.
pub open spec fn decimal(n: nat) -> Seq<char>
    decreases n,
{
    if n < 10 {
        digit_text(n)
    } else {
        decimal(n / 10) + digit_text(n % 10)
    }
}

pub open spec fn integer_text(i: int) -> Seq<char> {
    if i < 0 {
        "-"@ + decimal((-i) as nat)
    } else {
        decimal(i as nat)
    }
}

/// A character as it stands inside a string literal.
pub open spec fn escape_char(c: char) -> Seq<char> {
    if c == '"' {
        seq!['\\', '"']
    } else if c == '\\' {
        seq!['\\', '\\']
    } else {
        seq![c]
    }
}

/// The characters of a string literal's body: quotes and backslashes
/// behind a backslash.
pub open spec fn escaped(s: Seq<char>) -> Seq<char>
    decreases s.len(),
{
    if s.len() == 0 {
        Seq::empty()
    } else {
        escaped(s.drop_last()) + escape_char(s.last())
    }
}

/// How a value reads as source text.
pub open spec fn value_text(v: Value) -> Seq<char> {
    match v {
        Value::Bytes(s) => "\""@ + escaped(s@) + "\""@,
        Value::Integer(i) => integer_text(i as int),
        Value::Boolean(b) => if b {
            "true"@
        } else {
            "false"@
        },
        Value::Null => "null"@,
    }
}

fn digit_str(d: u64) -> (r: &'static str)
    requires
        d < 10,
    ensures
        r@ == digit_text(d as nat),
{
    if d == 0 {
        "0"
    } else if d == 1 {
        "1"
    } else if d == 2 {
        "2"
    } else if d == 3 {
        "3"
    } else if d == 4 {
        "4"
    } else if d == 5 {
        "5"
    } else if d == 6 {
        "6"
    } else if d == 7 {
        "7"
    } else if d == 8 {
        "8"
    } else {
        "9"
    }
}

fn push_decimal(out: &mut String, n: u64)
    ensures
        final(out)@ == old(out)@ + decimal(n as nat),
    decreases n,
{
    if n >= 10 {
        push_decimal(out, n / 10);
    }
    out.append(digit_str(n % 10));
    assert(final(out)@ =~= old(out)@ + decimal(n as nat));
}

fn push_escaped(out: &mut String, s: &str)
    ensures
        final(out)@ == old(out)@ + escaped(s@),
{
    let n = s.unicode_len();
    let mut i: usize = 0;
    assert(s@.take(0) =~= Seq::<char>::empty());
    while i < n
        invariant
            n == s@.len(),
            i <= n,
            out@ == old(out)@ + escaped(s@.take(i as int)),
        decreases n - i,
    {
        let c = s.get_char(i);
        if c == '"' {
            out.append("\\\"");
            assert("\\\""@ =~= escape_char(c)) by {
                reveal_strlit("\\\"");
            }
        } else if c == '\\' {
            out.append("\\\\");
            assert("\\\\"@ =~= escape_char(c)) by {
                reveal_strlit("\\\\");
            }
        } else {
            out.append(s.substring_char(i, i + 1));
            assert(s@.subrange(i as int, i + 1) =~= escape_char(c));
        }
        assert(s@.take(i + 1).drop_last() =~= s@.take(i as int));
        assert(out@ =~= old(out)@ + escaped(s@.take(i + 1)));
        i = i + 1;
    }
    assert(s@.take(n as int) =~= s@);
}

impl Value {
    /// How this value reads as source text; strings are written between
    /// double quotes as they are.
    pub fn to_text(&self) -> (r: String)
        ensures
            r@ == value_text(*self),
    {
        match self {
            Value::Bytes(s) => {
                let mut out = String::from_str("\"");
                push_escaped(&mut out, s.as_str());
                out.append("\"");
                out
            },
            Value::Integer(i) => {
                let mut out = String::new();
                if *i < 0 {
                    out.append("-");
                    let m: u64 = (0i128 - *i as i128) as u64;
                    push_decimal(&mut out, m);
                } else {
                    push_decimal(&mut out, *i as u64);
                }
                assert(out@ =~= integer_text(*i as int));
                out
            },
            Value::Boolean(b) => if *b {
                String::from_str("true")
            } else {
                String::from_str("false")
            },
            Value::Null => String::from_str("null"),
        }
    }
}

} // verus!
