use vstd::prelude::*;

verus! {

/// The set of shapes that a value may take at run time.
#[derive(Clone, Copy, Debug, PartialEq, Eq, Structural)]
pub struct Kind {
    pub bytes: bool,
    pub integer: bool,
    pub float: bool,
    pub boolean: bool,
    pub timestamp: bool,
    pub regex: bool,
    pub null: bool,
    pub array: bool,
    pub object: bool,
}

pub open spec fn never_kind() -> Kind {
    Kind {
        bytes: false,
        integer: false,
        float: false,
        boolean: false,
        timestamp: false,
        regex: false,
        null: false,
        array: false,
        object: false,
    }
}

pub open spec fn any_kind() -> Kind {
    Kind {
        bytes: true,
        integer: true,
        float: true,
        boolean: true,
        timestamp: true,
        regex: true,
        null: true,
        array: true,
        object: true,
    }
}

pub open spec fn boolean_kind() -> Kind {
    Kind { boolean: true, ..never_kind() }
}

pub open spec fn bytes_kind() -> Kind {
    Kind { bytes: true, ..never_kind() }
}

pub open spec fn integer_kind() -> Kind {
    Kind { integer: true, ..never_kind() }
}

pub open spec fn null_kind() -> Kind {
    Kind { null: true, ..never_kind() }
}

/// The smallest kind that holds the values of either kind.
pub open spec fn kind_union(a: Kind, b: Kind) -> Kind {
    Kind {
        bytes: a.bytes || b.bytes,
        integer: a.integer || b.integer,
        float: a.float || b.float,
        boolean: a.boolean || b.boolean,
        timestamp: a.timestamp || b.timestamp,
        regex: a.regex || b.regex,
        null: a.null || b.null,
        array: a.array || b.array,
        object: a.object || b.object,
    }
}

/// The names of the shapes in `k`, in their fixed order.
pub open spec fn shape_names(k: Kind) -> Seq<Seq<char>> {
    (if k.bytes { seq!["string"@] } else { Seq::empty() })
        + (if k.integer { seq!["integer"@] } else { Seq::empty() })
        + (if k.float { seq!["float"@] } else { Seq::empty() })
        + (if k.boolean { seq!["boolean"@] } else { Seq::empty() })
        + (if k.timestamp { seq!["timestamp"@] } else { Seq::empty() })
        + (if k.regex { seq!["regex"@] } else { Seq::empty() })
        + (if k.null { seq!["null"@] } else { Seq::empty() })
        + (if k.array { seq!["array"@] } else { Seq::empty() })
        + (if k.object { seq!["object"@] } else { Seq::empty() })
}

/// The separator written before the name at position `i` of `n` names.
pub open spec fn separator(i: int, n: int) -> Seq<char> {
    if i == 0 {
        Seq::empty()
    } else if i == n - 1 {
        " or "@
    } else {
        ", "@
    }
}

/// The names from position `i` on, each after its separator.
pub open spec fn join_from(names: Seq<Seq<char>>, i: int) -> Seq<char>
    decreases names.len() - i,
{
    if i < 0 || i >= names.len() {
        Seq::empty()
    } else {
        separator(i, names.len() as int) + names[i] + join_from(names, i + 1)
    }
}

/// How a kind reads in messages: `any`, `never`, or its shapes joined
/// as in `string, integer or null`.
pub open spec fn kind_text(k: Kind) -> Seq<char> {
    if k == any_kind() {
        "any"@
    } else if k == never_kind() {
        "never"@
    } else {
        join_from(shape_names(k), 0)
    }
}

impl Kind {
    pub fn never() -> (r: Kind)
        ensures
            r == never_kind(),
    {
        Kind {
            bytes: false,
            integer: false,
            float: false,
            boolean: false,
            timestamp: false,
            regex: false,
            null: false,
            array: false,
            object: false,
        }
    }

    pub fn any() -> (r: Kind)
        ensures
            r == any_kind(),
    {
        Kind {
            bytes: true,
            integer: true,
            float: true,
            boolean: true,
            timestamp: true,
            regex: true,
            null: true,
            array: true,
            object: true,
        }
    }

    pub fn boolean() -> (r: Kind)
        ensures
            r == boolean_kind(),
    {
        Kind { boolean: true, ..Kind::never() }
    }

    pub fn bytes() -> (r: Kind)
        ensures
            r == bytes_kind(),
    {
        Kind { bytes: true, ..Kind::never() }
    }

    pub fn integer() -> (r: Kind)
        ensures
            r == integer_kind(),
    {
        Kind { integer: true, ..Kind::never() }
    }

    pub fn null() -> (r: Kind)
        ensures
            r == null_kind(),
    {
        Kind { null: true, ..Kind::never() }
    }

    /// The smallest kind that holds the values of `self` and of `other`.
    pub fn union(&self, other: &Kind) -> (r: Kind)
        ensures
            r == kind_union(*self, *other),
    {
        Kind {
            bytes: self.bytes || other.bytes,
            integer: self.integer || other.integer,
            float: self.float || other.float,
            boolean: self.boolean || other.boolean,
            timestamp: self.timestamp || other.timestamp,
            regex: self.regex || other.regex,
            null: self.null || other.null,
            array: self.array || other.array,
            object: self.object || other.object,
        }
    }

    /// Whether every value of this kind is a boolean, and a boolean may occur.
    pub fn is_boolean(&self) -> (r: bool)
        ensures
            r == (*self == boolean_kind()),
    {
        *self == Kind::boolean()
    }

    /// Whether every value of this kind is an integer, and an integer may occur.
    pub fn is_integer(&self) -> (r: bool)
        ensures
            r == (*self == integer_kind()),
    {
        *self == Kind::integer()
    }

    /// Whether every value of `other` is also one of `self`.
    pub fn contains(&self, other: &Kind) -> (r: bool)
        ensures
            r == (kind_union(*self, *other) == *self),
    {
        self.union(other) == *self
    }

    fn push_if(names: &mut Vec<&'static str>, on: bool, name: &'static str)
        ensures
            final(names)@.map_values(|s: &str| s@) == old(names)@.map_values(|s: &str| s@) + (
            if on {
                seq![name@]
            } else {
                Seq::empty()
            }),
    {
        if on {
            names.push(name);
        }
        assert(final(names)@.map_values(|s: &str| s@) =~= old(names)@.map_values(|s: &str| s@) + (
        if on {
            seq![name@]
        } else {
            Seq::empty()
        }));
    }

    fn shape_list(&self) -> (r: Vec<&'static str>)
        ensures
            r@.map_values(|s: &str| s@) == shape_names(*self),
    {
        let mut names: Vec<&'static str> = Vec::new();
        assert(names@.map_values(|s: &str| s@) =~= Seq::empty());
        Kind::push_if(&mut names, self.bytes, "string");
        Kind::push_if(&mut names, self.integer, "integer");
        Kind::push_if(&mut names, self.float, "float");
        Kind::push_if(&mut names, self.boolean, "boolean");
        Kind::push_if(&mut names, self.timestamp, "timestamp");
        Kind::push_if(&mut names, self.regex, "regex");
        Kind::push_if(&mut names, self.null, "null");
        Kind::push_if(&mut names, self.array, "array");
        Kind::push_if(&mut names, self.object, "object");
        assert(names@.map_values(|s: &str| s@) =~= shape_names(*self));
        names
    }

    /// How this kind reads in messages.
    pub fn to_text(&self) -> (r: String)
        ensures
            r@ == kind_text(*self),
    {
        if *self == Kind::any() {
            return String::from_str("any");
        }
        if *self == Kind::never() {
            return String::from_str("never");
        }
        let names = self.shape_list();
        let ghost shown = names@.map_values(|s: &str| s@);
        let n = names.len();
        let mut out = String::new();
        let mut i: usize = 0;
        while i < n
            invariant
                n == names@.len(),
                shown == names@.map_values(|s: &str| s@),
                i <= n,
                out@ + join_from(shown, i as int) == join_from(shown, 0),
            decreases n - i,
        {
            if i != 0 {
                if i == n - 1 {
                    out.append(" or ");
                } else {
                    out.append(", ");
                }
            }
            out.append(names[i]);
            proof {
                assert(shown[i as int] == names@[i as int]@);
                assert(out@ + join_from(shown, i + 1) =~= join_from(shown, 0));
            }
            i = i + 1;
        }
        assert(join_from(shown, n as int) =~= Seq::<char>::empty());
        assert(out@ =~= join_from(shown, 0));
        out
    }
}

/// A kind together with whether working out the value may fail.
#[derive(Clone, Copy, Debug, PartialEq, Eq, Structural)]
pub struct TypeDef {
    pub kind: Kind,
    pub fallible: bool,
}

impl TypeDef {
    pub fn boolean() -> (r: TypeDef)
        ensures
            r == (TypeDef { kind: boolean_kind(), fallible: false }),
    {
        TypeDef { kind: Kind::boolean(), fallible: false }
    }

    pub fn integer() -> (r: TypeDef)
        ensures
            r == (TypeDef { kind: integer_kind(), fallible: false }),
    {
        TypeDef { kind: Kind::integer(), fallible: false }
    }

    /// The same type with fallibility set to `fallible`.
    pub fn with_fallibility(&self, fallible: bool) -> (r: TypeDef)
        ensures
            r == (TypeDef { kind: self.kind, fallible }),
    {
        TypeDef { kind: self.kind, fallible }
    }

    pub fn is_boolean(&self) -> (r: bool)
        ensures
            r == (self.kind == boolean_kind()),
    {
        self.kind.is_boolean()
    }

    pub fn is_fallible(&self) -> (r: bool)
        ensures
            r == self.fallible,
    {
        self.fallible
    }

    /// A type for either of two values: the union of the kinds, fallible
    /// where either is.
    pub fn union(&self, other: &TypeDef) -> (r: TypeDef)
        ensures
            r == (TypeDef {
                kind: kind_union(self.kind, other.kind),
                fallible: self.fallible || other.fallible,
            }),
    {
        TypeDef { kind: self.kind.union(&other.kind), fallible: self.fallible || other.fallible }
    }
}

} // verus!
