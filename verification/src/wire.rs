//! Untyped values as they travel over the bus, and the kinds they come in.

use crate::dict::Dict;
use crate::text::same_text;
use crate::transfer::TransferTuple;
use vstd::prelude::*;

verus! {

/// One positional field of a signal payload, a method argument or a reply.
#[derive(Debug)]
pub enum Value {
    Bool(bool),
    Int32(i32),
    UInt32(u32),
    Int64(i64),
    UInt64(u64),
    Str(String),
    Bytes(Vec<u8>),
    StrList(Vec<String>),
    Dict(Dict),
    DictList(Vec<Dict>),
    Transfer(TransferTuple),
}

/// The type tag of a [`Value`], without its contents.
#[derive(Clone, Copy, Debug, PartialEq, Eq, Structural)]
pub enum Kind {
    Bool,
    Int32,
    UInt32,
    Int64,
    UInt64,
    Str,
    Bytes,
    StrList,
    Dict,
    DictList,
    Transfer,
}

impl Value {
    /// The kind of this value.
    pub open spec fn spec_kind(self) -> Kind {
        match self {
            Value::Bool(_) => Kind::Bool,
            Value::Int32(_) => Kind::Int32,
            Value::UInt32(_) => Kind::UInt32,
            Value::Int64(_) => Kind::Int64,
            Value::UInt64(_) => Kind::UInt64,
            Value::Str(_) => Kind::Str,
            Value::Bytes(_) => Kind::Bytes,
            Value::StrList(_) => Kind::StrList,
            Value::Dict(_) => Kind::Dict,
            Value::DictList(_) => Kind::DictList,
            Value::Transfer(_) => Kind::Transfer,
        }
    }

    /// The kind of this value.
    pub fn kind(&self) -> (k: Kind)
        ensures
            k == self.spec_kind(),
    {
        match self {
            Value::Bool(_) => Kind::Bool,
            Value::Int32(_) => Kind::Int32,
            Value::UInt32(_) => Kind::UInt32,
            Value::Int64(_) => Kind::Int64,
            Value::UInt64(_) => Kind::UInt64,
            Value::Str(_) => Kind::Str,
            Value::Bytes(_) => Kind::Bytes,
            Value::StrList(_) => Kind::StrList,
            Value::Dict(_) => Kind::Dict,
            Value::DictList(_) => Kind::DictList,
            Value::Transfer(_) => Kind::Transfer,
        }
    }
}

impl Kind {
    /// The type signature under which the bus carries values of this
    /// kind.
    pub open spec fn spec_signature(self) -> Seq<char> {
        match self {
            Kind::Bool => "b"@,
            Kind::Int32 => "i"@,
            Kind::UInt32 => "u"@,
            Kind::Int64 => "x"@,
            Kind::UInt64 => "t"@,
            Kind::Str => "s"@,
            Kind::Bytes => "ay"@,
            Kind::StrList => "as"@,
            Kind::Dict => "a{ss}"@,
            Kind::DictList => "aa{ss}"@,
            Kind::Transfer => "(suuxxssssss)"@,
        }
    }

    /// The type signature under which the bus carries values of this
    /// kind.
    pub fn signature(&self) -> (signature: &'static str)
        ensures
            signature@ == self.spec_signature(),
    {
        match self {
            Kind::Bool => "b",
            Kind::Int32 => "i",
            Kind::UInt32 => "u",
            Kind::Int64 => "x",
            Kind::UInt64 => "t",
            Kind::Str => "s",
            Kind::Bytes => "ay",
            Kind::StrList => "as",
            Kind::Dict => "a{ss}",
            Kind::DictList => "aa{ss}",
            Kind::Transfer => "(suuxxssssss)",
        }
    }

    /// The kind that the bus carries under a type signature; `None` for
    /// the signature of a type that the daemon does not use.
    pub fn from_signature(signature: &str) -> (r: Option<Kind>)
        ensures
            r == spec_kind_signed(signature@),
            r matches Some(kind) ==> signature@ == kind.spec_signature(),
            r is None ==> forall|kind: Kind| signature@ != kind.spec_signature(),
    {
        proof {
            assert forall|kind: Kind| spec_kind_signed(signature@) is None implies signature@
                != kind.spec_signature() by {
                lemma_signatures(kind);
            }
        }
        if same_text(signature, "b") {
            Some(Kind::Bool)
        } else if same_text(signature, "i") {
            Some(Kind::Int32)
        } else if same_text(signature, "u") {
            Some(Kind::UInt32)
        } else if same_text(signature, "x") {
            Some(Kind::Int64)
        } else if same_text(signature, "t") {
            Some(Kind::UInt64)
        } else if same_text(signature, "s") {
            Some(Kind::Str)
        } else if same_text(signature, "ay") {
            Some(Kind::Bytes)
        } else if same_text(signature, "as") {
            Some(Kind::StrList)
        } else if same_text(signature, "a{ss}") {
            Some(Kind::Dict)
        } else if same_text(signature, "aa{ss}") {
            Some(Kind::DictList)
        } else if same_text(signature, "(suuxxssssss)") {
            Some(Kind::Transfer)
        } else {
            None
        }
    }
}

/// The kind that a type signature stands for, if it stands for one.
pub open spec fn spec_kind_signed(signature: Seq<char>) -> Option<Kind> {
    if signature == "b"@ {
        Some(Kind::Bool)
    } else if signature == "i"@ {
        Some(Kind::Int32)
    } else if signature == "u"@ {
        Some(Kind::UInt32)
    } else if signature == "x"@ {
        Some(Kind::Int64)
    } else if signature == "t"@ {
        Some(Kind::UInt64)
    } else if signature == "s"@ {
        Some(Kind::Str)
    } else if signature == "ay"@ {
        Some(Kind::Bytes)
    } else if signature == "as"@ {
        Some(Kind::StrList)
    } else if signature == "a{ss}"@ {
        Some(Kind::Dict)
    } else if signature == "aa{ss}"@ {
        Some(Kind::DictList)
    } else if signature == "(suuxxssssss)"@ {
        Some(Kind::Transfer)
    } else {
        None
    }
}

/// No two kinds share a type signature, and a signature stands for the
/// kind whose signature it is.
pub proof fn lemma_signatures(kind: Kind)
    ensures
        spec_kind_signed(kind.spec_signature()) == Some(kind),
        forall|signature: Seq<char>|
            spec_kind_signed(signature) == Some(kind) <==> signature == kind.spec_signature(),
{
    reveal_strlit("b");
    reveal_strlit("i");
    reveal_strlit("u");
    reveal_strlit("x");
    reveal_strlit("t");
    reveal_strlit("s");
    reveal_strlit("ay");
    reveal_strlit("as");
    reveal_strlit("a{ss}");
    reveal_strlit("aa{ss}");
    reveal_strlit("(suuxxssssss)");
    assert("b"@.len() == 1 && "b"@[0] == 'b');
    assert("i"@.len() == 1 && "i"@[0] == 'i');
    assert("u"@.len() == 1 && "u"@[0] == 'u');
    assert("x"@.len() == 1 && "x"@[0] == 'x');
    assert("t"@.len() == 1 && "t"@[0] == 't');
    assert("s"@.len() == 1 && "s"@[0] == 's');
    assert("ay"@.len() == 2 && "ay"@[0] == 'a' && "ay"@[1] == 'y');
    assert("as"@.len() == 2 && "as"@[0] == 'a' && "as"@[1] == 's');
    assert("a{ss}"@.len() == 5 && "a{ss}"@[0] == 'a' && "a{ss}"@[1] == '{');
    assert("aa{ss}"@.len() == 6 && "aa{ss}"@[0] == 'a' && "aa{ss}"@[1] == 'a');
    assert("(suuxxssssss)"@.len() == 13 && "(suuxxssssss)"@[0] == '(' && "(suuxxssssss)"@[1] == 's');
}

/// Position of the first field at which `payload` departs from `shape`:
/// the field is absent, or of another kind. `None` when the leading fields
/// of `payload` are exactly those of `shape`.
pub open spec fn first_mismatch(payload: Seq<Value>, shape: Seq<Kind>) -> Option<int>
    decreases shape.len(),
{
    if shape.len() == 0 {
        None
    } else {
        match first_mismatch(payload, shape.drop_last()) {
            Some(i) => Some(i),
            None => if payload.len() >= shape.len() && payload[shape.len() - 1].spec_kind()
                == shape.last() {
                None
            } else {
                Some(shape.len() - 1)
            },
        }
    }
}

/// Whether the leading fields of `payload` have the kinds listed in `shape`.
pub open spec fn has_shape(payload: Seq<Value>, shape: Seq<Kind>) -> bool {
    &&& payload.len() >= shape.len()
    &&& forall|i: int| 0 <= i < shape.len() ==> (#[trigger] payload[i]).spec_kind() == shape[i]
}

/// `first_mismatch` finds nothing exactly on payloads that have the shape;
/// what it finds is a position of the shape, the first one that fails.
pub proof fn lemma_first_mismatch(payload: Seq<Value>, shape: Seq<Kind>)
    ensures
        first_mismatch(payload, shape) is None <==> has_shape(payload, shape),
        first_mismatch(payload, shape) matches Some(i) ==> {
            &&& 0 <= i < shape.len()
            &&& has_shape(payload, shape.take(i))
            &&& (i >= payload.len() || payload[i].spec_kind() != shape[i])
        },
    decreases shape.len(),
{
    if shape.len() > 0 {
        let front = shape.drop_last();
        lemma_first_mismatch(payload, front);
        match first_mismatch(payload, front) {
            Some(i) => {
                assert(front.take(i) =~= shape.take(i));
                assert(front[i] == shape[i]);
                if has_shape(payload, shape) {
                    assert(payload[i].spec_kind() == shape[i]);
                }
            },
            None => {
                assert(shape.take(shape.len() - 1) =~= front);
                assert forall|i: int| 0 <= i < front.len() implies front[i] == shape[i] by {}
                if payload.len() >= shape.len() && payload[shape.len() - 1].spec_kind()
                    == shape.last() {
                    assert forall|i: int| 0 <= i < shape.len() implies (
                    #[trigger] payload[i]).spec_kind() == shape[i] by {
                        if i < front.len() {
                            assert(payload[i].spec_kind() == front[i]);
                        }
                    }
                }
            },
        }
    }
}

/// Compares the leading fields of `payload` with `shape` and reports the
/// first position that is absent or of another kind.
pub fn check_shape(payload: &Vec<Value>, shape: &Vec<Kind>) -> (r: Option<usize>)
    ensures
        match r {
            Some(i) => first_mismatch(payload@, shape@) == Some(i as int),
            None => first_mismatch(payload@, shape@) is None,
        },
        r is None <==> has_shape(payload@, shape@),
{
    let mut i: usize = 0;
    while i < shape.len()
        invariant
            i <= shape.len(),
            has_shape(payload@, shape@.take(i as int)),
        decreases shape.len() - i,
    {
        if i >= payload.len() || payload[i].kind() != shape[i] {
            proof {
                lemma_first_mismatch(payload@, shape@);
                match first_mismatch(payload@, shape@) {
                    Some(j) => {
                        if j < i {
                            assert(shape@.take(i as int)[j] == shape@[j]);
                            assert(payload@[j].spec_kind() == shape@.take(i as int)[j]);
                        } else if j > i {
                            assert(shape@.take(j)[i as int] == shape@[i as int]);
                            assert(payload@[i as int].spec_kind() == shape@.take(j)[i as int]);
                        }
                    },
                    None => {
                        assert(payload@[i as int].spec_kind() == shape@[i as int]);
                    },
                }
            }
            return Some(i);
        }
        proof {
            let next = shape@.take(i + 1);
            assert forall|k: int| 0 <= k < next.len() implies (#[trigger] payload@[k]).spec_kind()
                == next[k] by {
                if k < i {
                    assert(shape@.take(i as int)[k] == shape@[k]);
                }
            }
        }
        i = i + 1;
    }
    proof {
        assert(shape@.take(i as int) =~= shape@);
        lemma_first_mismatch(payload@, shape@);
    }
    None
}

} // verus!
