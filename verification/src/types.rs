use vstd::prelude::*;

verus! {

broadcast use vstd::std_specs::vec::group_vec_axioms;

/// A C type: `int`, `unsigned int`, `long`, `unsigned long`, `float`, `double`,
/// a pointer, or a function type with its parameter and return types.
#[derive(Debug)]
pub enum Type {
    Int,
    UInt,
    Long,
    ULong,
    Float,
    Double,
    Pointer(Box<Type>),
    FunType(Vec<Type>, Box<Type>),
}

/// The mathematical model of a [`Type`], with the parameter list as a sequence.
pub enum SpecType {
    Int,
    UInt,
    Long,
    ULong,
    Float,
    Double,
    Pointer(Box<SpecType>),
    FunType(Seq<SpecType>, Box<SpecType>),
}

pub open spec fn type_model(t: Type) -> SpecType
    decreases t,
{
    match t {
        Type::Int => SpecType::Int,
        Type::UInt => SpecType::UInt,
        Type::Long => SpecType::Long,
        Type::ULong => SpecType::ULong,
        Type::Float => SpecType::Float,
        Type::Double => SpecType::Double,
        Type::Pointer(b) => SpecType::Pointer(Box::new(type_model(*b))),
        Type::FunType(ps, r) => SpecType::FunType(types_model(ps@), Box::new(type_model(*r))),
    }
}

pub open spec fn types_model(s: Seq<Type>) -> Seq<SpecType>
    decreases s,
{
    if s.len() == 0 {
        Seq::empty()
    } else {
        types_model(s.drop_last()).push(type_model(s.last()))
    }
}

impl View for Type {
    type V = SpecType;

    open spec fn view(&self) -> SpecType {
        type_model(*self)
    }
}

/// The model of a list of types has the same length, element by element.
pub proof fn lemma_types_model(s: Seq<Type>)
    ensures
        types_model(s).len() == s.len(),
        forall|i: int| 0 <= i < s.len() ==> #[trigger] types_model(s)[i] == type_model(s[i]),
    decreases s.len(),
{
    if s.len() > 0 {
        lemma_types_model(s.drop_last());
    }
}

/// Appending a type appends its model.
pub proof fn lemma_types_model_push(s: Seq<Type>, t: Type)
    ensures
        types_model(s.push(t)) == types_model(s).push(type_model(t)),
{
    assert(s.push(t).drop_last() =~= s);
}

/// Size in bytes of an arithmetic type.
pub open spec fn spec_byte_size(t: SpecType) -> nat {
    match t {
        SpecType::Int | SpecType::UInt | SpecType::Float => 4,
        _ => 8,
    }
}

/// Whether an arithmetic type is signed (floating-point types count as signed).
pub open spec fn spec_signed(t: SpecType) -> bool {
    match t {
        SpecType::Int | SpecType::Long | SpecType::Float | SpecType::Double => true,
        _ => false,
    }
}

pub open spec fn spec_is_integer(t: SpecType) -> bool {
    t is Int || t is UInt || t is Long || t is ULong
}

pub open spec fn spec_is_floating_point(t: SpecType) -> bool {
    t is Double || t is Float
}

pub open spec fn spec_is_arithmetic(t: SpecType) -> bool {
    spec_is_integer(t) || spec_is_floating_point(t)
}

/// A type whose size and signedness are defined: neither a pointer nor a function.
pub open spec fn has_scalar_size(t: SpecType) -> bool {
    !(t is Pointer) && !(t is FunType)
}

/// A copy of `t` with the same model.
pub fn clone_type(t: &Type) -> (r: Type)
    ensures
        r@ == t@,
    decreases t,
{
    match t {
        Type::Int => Type::Int,
        Type::UInt => Type::UInt,
        Type::Long => Type::Long,
        Type::ULong => Type::ULong,
        Type::Float => Type::Float,
        Type::Double => Type::Double,
        Type::Pointer(b) => Type::Pointer(Box::new(clone_type(b))),
        Type::FunType(ps, ret) => {
            let ps2 = clone_types(ps);
            Type::FunType(ps2, Box::new(clone_type(ret)))
        },
    }
}

/// A copy of a list of types with the same model.
pub fn clone_types(ps: &Vec<Type>) -> (r: Vec<Type>)
    ensures
        types_model(r@) == types_model(ps@),
    decreases ps,
{
    let mut out: Vec<Type> = Vec::new();
    let mut i: usize = 0;
    proof {
        assert(ps@.take(0) =~= Seq::<Type>::empty());
        assert(out@ =~= Seq::<Type>::empty());
    }
    while i < ps.len()
        invariant
            i <= ps.len(),
            types_model(out@) == types_model(ps@.take(i as int)),
        decreases ps.len() - i,
    {
        let t = clone_type(&ps[i]);
        proof {
            lemma_types_model_push(out@, t);
            lemma_types_model_push(ps@.take(i as int), ps@[i as int]);
            assert(ps@.take(i as int).push(ps@[i as int]) =~= ps@.take(i + 1));
        }
        out.push(t);
        i = i + 1;
    }
    proof {
        assert(ps@.take(ps@.len() as int) =~= ps@);
    }
    out
}

/// Whether two types have the same model.
pub fn type_equal(a: &Type, b: &Type) -> (r: bool)
    ensures
        r == (a@ == b@),
    decreases a,
{
    match (a, b) {
        (Type::Int, Type::Int) => true,
        (Type::UInt, Type::UInt) => true,
        (Type::Long, Type::Long) => true,
        (Type::ULong, Type::ULong) => true,
        (Type::Float, Type::Float) => true,
        (Type::Double, Type::Double) => true,
        (Type::Pointer(x), Type::Pointer(y)) => type_equal(x, y),
        (Type::FunType(ps, r1), Type::FunType(qs, r2)) => {
            types_equal(ps, qs) && type_equal(r1, r2)
        },
        _ => false,
    }
}

/// Whether two lists of types have the same model.
pub fn types_equal(ps: &Vec<Type>, qs: &Vec<Type>) -> (r: bool)
    ensures
        r == (types_model(ps@) == types_model(qs@)),
    decreases ps,
{
    proof {
        lemma_types_model(ps@);
        lemma_types_model(qs@);
    }
    if ps.len() != qs.len() {
        return false;
    }
    let mut i: usize = 0;
    while i < ps.len()
        invariant
            i <= ps.len(),
            ps.len() == qs.len(),
            types_model(ps@).len() == ps@.len(),
            types_model(qs@).len() == qs@.len(),
            forall|k: int| 0 <= k < ps@.len() ==> #[trigger] types_model(ps@)[k] == type_model(ps@[k]),
            forall|k: int| 0 <= k < qs@.len() ==> #[trigger] types_model(qs@)[k] == type_model(qs@[k]),
            forall|k: int| 0 <= k < i ==> type_model(ps@[k]) == type_model(qs@[k]),
        decreases ps.len() - i,
    {
        if !type_equal(&ps[i], &qs[i]) {
            proof {
                assert(types_model(ps@)[i as int] != types_model(qs@)[i as int]);
            }
            return false;
        }
        i = i + 1;
    }
    proof {
        assert(types_model(ps@) =~= types_model(qs@));
    }
    true
}

impl Clone for Type {
    fn clone(&self) -> (r: Self)
        ensures
            r@ == self@,
    {
        clone_type(self)
    }
}

impl Type {
    /// Size in bytes of an arithmetic type; pointers and functions have none.
    pub fn byte_size(&self) -> (r: usize)
        requires
            has_scalar_size(self@),
        ensures
            r == spec_byte_size(self@),
    {
        match self {
            Type::Int | Type::UInt | Type::Float => 4,
            _ => 8,
        }
    }

    /// Signedness of an arithmetic type; pointers and functions have none.
    pub fn signed(&self) -> (r: bool)
        requires
            has_scalar_size(self@),
        ensures
            r == spec_signed(self@),
    {
        match self {
            Type::Int | Type::Long | Type::Float | Type::Double => true,
            _ => false,
        }
    }

    pub fn is_function(&self) -> (r: bool)
        ensures
            r == (self@ is FunType),
    {
        matches!(self, Type::FunType(_, _))
    }

    pub fn is_integer(&self) -> (r: bool)
        ensures
            r == spec_is_integer(self@),
    {
        matches!(self, Type::Int | Type::UInt | Type::Long | Type::ULong)
    }

    pub fn is_floating_point(&self) -> (r: bool)
        ensures
            r == spec_is_floating_point(self@),
    {
        matches!(self, Type::Double | Type::Float)
    }

    pub fn is_arithmetic(&self) -> (r: bool)
        ensures
            r == spec_is_arithmetic(self@),
    {
        self.is_integer() || self.is_floating_point()
    }

    pub fn is_pointer(&self) -> (r: bool)
        ensures
            r == (self@ is Pointer),
    {
        matches!(self, Type::Pointer(_))
    }
}

} // verus!
