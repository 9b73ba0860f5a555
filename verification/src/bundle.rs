use vstd::prelude::*;

verus! {

// ---------------------------------------------------------------------------
// Field identifiers of tuple structs: `tuple_field_<index>`.
// ---------------------------------------------------------------------------

/// The decimal digit `d` (for `d < 10`).
pub open spec fn digit_char(d: nat) -> char {
    if d == 0 {
        '0'
    } else if d == 1 {
        '1'
    } else if d == 2 {
        '2'
    } else if d == 3 {
        '3'
    } else if d == 4 {
        '4'
    } else if d == 5 {
        '5'
    } else if d == 6 {
        '6'
    } else if d == 7 {
        '7'
    } else if d == 8 {
        '8'
    } else {
        '9'
    }
}

/// The decimal notation of `n`, without leading zeros.
pub open spec fn decimal(n: nat) -> Seq<char>
    decreases n,
{
    if n < 10 {
        seq![digit_char(n)]
    } else {
        decimal(n / 10).push(digit_char(n % 10))
    }
}

/// The identifier that binds the field of index `index` of a tuple struct.
pub open spec fn tuple_field_name(index: u32) -> Seq<char> {
    "tuple_field_"@ + decimal(index as nat)
}

proof fn decimal_len(n: nat)
    ensures
        n < 10 ==> decimal(n).len() == 1,
        n >= 10 ==> decimal(n).len() >= 2,
    decreases n,
{
    if n >= 10 {
        decimal_len(n / 10);
    }
}

proof fn digit_char_injective(x: nat, y: nat)
    requires
        x < 10,
        y < 10,
        digit_char(x) == digit_char(y),
    ensures
        x == y,
{
}

proof fn decimal_injective(a: nat, b: nat)
    requires
        decimal(a) == decimal(b),
    ensures
        a == b,
    decreases a,
{
    decimal_len(a);
    decimal_len(b);
    if a >= 10 && b >= 10 {
        let da = decimal(a);
        let db = decimal(b);
        assert(da.last() == db.last());
        assert(da.drop_last() =~= decimal(a / 10));
        assert(db.drop_last() =~= decimal(b / 10));
        digit_char_injective(a % 10, b % 10);
        decimal_injective(a / 10, b / 10);
        assert(a == 10 * (a / 10) + a % 10);
        assert(b == 10 * (b / 10) + b % 10);
    } else {
        assert(a < 10 && b < 10);
        assert(decimal(a) == seq![digit_char(a)]);
        assert(decimal(b) == seq![digit_char(b)]);
        assert(decimal(a)[0] == digit_char(a));
        assert(decimal(b)[0] == digit_char(b));
        digit_char_injective(a, b);
    }
}

/// Distinct tuple-field indices get distinct identifiers, so the bindings
/// that the generated code introduces for them never clash.
pub proof fn tuple_field_names_distinct(i: u32, j: u32)
    requires
        i != j,
    ensures
        tuple_field_name(i) != tuple_field_name(j),
{
    let p = "tuple_field_"@;
    if tuple_field_name(i) == tuple_field_name(j) {
        assert(tuple_field_name(i).skip(p.len() as int) =~= decimal(i as nat));
        assert(tuple_field_name(j).skip(p.len() as int) =~= decimal(j as nat));
        decimal_injective(i as nat, j as nat);
    }
}

/// Every character of `s` is an ASCII decimal digit.
pub open spec fn all_ascii_digits(s: Seq<char>) -> bool {
    forall|i: int| 0 <= i < s.len() ==> 48 <= (#[trigger] s[i]) as int <= 57
}

/// The number that the ASCII decimal digits `s` spell, most significant
/// digit first.
pub open spec fn digits_value(s: Seq<char>) -> int
    decreases s.len(),
{
    if s.len() == 0 {
        0
    } else {
        digits_value(s.drop_last()) * 10 + (s.last() as int - 48)
    }
}

/// The digit `d` is the ASCII character with code `48 + d`.
pub proof fn digit_char_is_ascii(d: nat)
    requires
        d < 10,
    ensures
        digit_char(d) as int == 48 + d,
{
}

/// The decimal notation of `n` is a non-empty string of ASCII digits without
/// a leading zero (unless `n` is zero) that reads back as `n`.
pub proof fn decimal_reads_back(n: nat)
    ensures
        decimal(n).len() > 0,
        all_ascii_digits(decimal(n)),
        digits_value(decimal(n)) == n,
        n > 0 ==> decimal(n)[0] != '0',
    decreases n,
{
    digit_char_is_ascii(n % 10);
    if n < 10 {
        digit_char_is_ascii(n);
        let s = decimal(n);
        assert(s.drop_last() =~= Seq::<char>::empty());
        assert(s.last() == digit_char(n));
        assert(digits_value(s.drop_last()) == 0);
        assert(digits_value(s) == digits_value(s.drop_last()) * 10 + (s.last() as int - 48));
    } else {
        decimal_reads_back(n / 10);
        let s = decimal(n);
        assert(s.drop_last() =~= decimal(n / 10));
        assert(s.last() == digit_char(n % 10));
        assert(forall|i: int| 0 <= i < s.len() - 1 ==> s[i] == decimal(n / 10)[i]);
        assert(n == (n / 10) * 10 + n % 10);
        assert(digits_value(s.drop_last()) == n / 10);
        assert(s.last() as int - 48 == n % 10);
        assert(digits_value(s) == digits_value(s.drop_last()) * 10 + (s.last() as int - 48));
    }
}

/// The identifier bound to the tuple field of index `i` is `tuple_field_`
/// followed by the decimal digits of `i`.
pub proof fn tuple_field_name_reads_back(i: u32)
    ensures
        tuple_field_name(i).len() > 12,
        tuple_field_name(i).take(12) == "tuple_field_"@,
        all_ascii_digits(tuple_field_name(i).skip(12)),
        digits_value(tuple_field_name(i).skip(12)) == i,
        i > 0 ==> tuple_field_name(i)[12] != '0',
{
    reveal_strlit("tuple_field_");
    decimal_reads_back(i as nat);
    assert(tuple_field_name(i).take(12) =~= "tuple_field_"@);
    assert(tuple_field_name(i).skip(12) =~= decimal(i as nat));
}

fn digit_str(d: u32) -> (s: &'static str)
    requires
        d < 10,
    ensures
        s@ == seq![digit_char(d as nat)],
{
    if d == 0 {
        proof {
            reveal_strlit("0");
        }
        "0"
    } else if d == 1 {
        proof {
            reveal_strlit("1");
        }
        "1"
    } else if d == 2 {
        proof {
            reveal_strlit("2");
        }
        "2"
    } else if d == 3 {
        proof {
            reveal_strlit("3");
        }
        "3"
    } else if d == 4 {
        proof {
            reveal_strlit("4");
        }
        "4"
    } else if d == 5 {
        proof {
            reveal_strlit("5");
        }
        "5"
    } else if d == 6 {
        proof {
            reveal_strlit("6");
        }
        "6"
    } else if d == 7 {
        proof {
            reveal_strlit("7");
        }
        "7"
    } else if d == 8 {
        proof {
            reveal_strlit("8");
        }
        "8"
    } else {
        proof {
            reveal_strlit("9");
        }
        "9"
    }
}

fn append_decimal(s: &mut String, n: u32)
    ensures
        final(s)@ == old(s)@ + decimal(n as nat),
    decreases n,
{
    if n >= 10 {
        append_decimal(s, n / 10);
    }
    let ghost before = s@;
    s.append(digit_str(n % 10));
    proof {
        if n >= 10 {
            assert(decimal(n as nat) == decimal((n / 10) as nat).push(digit_char((n % 10) as nat)));
            assert(s@ =~= old(s)@ + decimal(n as nat));
        } else {
            assert(s@ =~= old(s)@ + decimal(n as nat));
        }
    }
}

/// The identifier `tuple_field_<index>`.
pub fn tuple_field_ident(index: u32) -> (s: String)
    ensures
        s@ == tuple_field_name(index),
        s@.take(12) == "tuple_field_"@,
        all_ascii_digits(s@.skip(12)),
        digits_value(s@.skip(12)) == index,
{
    proof {
        tuple_field_name_reads_back(index);
    }
    let mut s = String::from_str("tuple_field_");
    append_decimal(&mut s, index);
    s
}


// ---------------------------------------------------------------------------
// The shape of the item the derive is applied to.
// ---------------------------------------------------------------------------

/// A named field: its identifier and its type, both as the caller holds them.
#[derive(Clone, Copy)]
pub struct NamedField<T, N> {
    pub ident: N,
    pub ty: T,
}

/// The fields of a struct.
pub enum Fields<T, N> {
    /// `struct S { a: A, b: B }`
    Named(Vec<NamedField<T, N>>),
    /// `struct S(A, B);`, by the types of its fields
    Unnamed(Vec<T>),
    /// `struct S;`
    Unit,
}

/// How a field is reached: by its name, or by its position.
#[derive(Clone, Copy, PartialEq, Eq, Structural)]
pub enum Member<N> {
    Named(N),
    Unnamed(u32),
}

/// The identifier that the generated code binds a field's value to: the
/// field's own name, or a fresh `tuple_field_<index>` for a positional one.
pub enum FieldIdent<N> {
    Borrowed(N),
    Owned(String),
}

/// The types of the fields, in declaration order.
pub open spec fn field_types<T, N>(fields: Fields<T, N>) -> Seq<T> {
    match fields {
        Fields::Named(v) => v@.map_values(|f: NamedField<T, N>| f.ty),
        Fields::Unnamed(v) => v@,
        Fields::Unit => Seq::empty(),
    }
}

/// How each field is reached, in declaration order.
pub open spec fn field_members<T, N>(fields: Fields<T, N>) -> Seq<Member<N>> {
    match fields {
        Fields::Named(v) => v@.map_values(|f: NamedField<T, N>| Member::Named(f.ident)),
        Fields::Unnamed(v) => Seq::new(v@.len(), |i: int| Member::<N>::Unnamed(i as u32)),
        Fields::Unit => Seq::empty(),
    }
}

/// `ident` is the binding for the field reached by `member`.
pub open spec fn is_ident_for<N>(ident: FieldIdent<N>, member: Member<N>) -> bool {
    match member {
        Member::Named(n) => ident == FieldIdent::<N>::Borrowed(n),
        Member::Unnamed(i) => ident matches FieldIdent::Owned(s) && s@ == tuple_field_name(i),
    }
}

/// The binding of a named field is the field's own name; that of the
/// positional field of index `k` is `tuple_field_` followed by the decimal
/// digits of `k`.
pub proof fn ident_for_member<N>(ident: FieldIdent<N>, member: Member<N>)
    requires
        is_ident_for(ident, member),
    ensures
        member matches Member::Named(n) ==> ident == FieldIdent::<N>::Borrowed(n),
        member matches Member::Unnamed(k) ==> (ident matches FieldIdent::Owned(s) && {
            &&& s@.take(12) == "tuple_field_"@
            &&& s@.len() > 12
            &&& all_ascii_digits(s@.skip(12))
            &&& digits_value(s@.skip(12)) == k
        }),
{
    if let Member::Unnamed(k) = member {
        tuple_field_name_reads_back(k);
    }
}

/// Every field has exactly one type and one member.
pub proof fn fields_align<T, N>(fields: Fields<T, N>)
    ensures
        field_types(fields).len() == field_members(fields).len(),
{
}

/// Every declared field is kept, in declaration order: a named field gives
/// its type and its name, the `i`-th positional field its type and the
/// index `i`, and a unit struct nothing.
pub proof fn fields_kept_in_order<T, N>(fields: Fields<T, N>)
    ensures
        fields matches Fields::Named(v) ==> {
            &&& field_types(fields).len() == v@.len()
            &&& field_members(fields).len() == v@.len()
            &&& forall|i: int|
                0 <= i < v@.len() ==> field_types(fields)[i] == (#[trigger] v@[i]).ty
                    && field_members(fields)[i] == Member::Named(v@[i].ident)
        },
        fields matches Fields::Unnamed(v) ==> {
            &&& field_types(fields).len() == v@.len()
            &&& field_members(fields).len() == v@.len()
            &&& forall|i: int|
                0 <= i < v@.len() ==> field_types(fields)[i] == #[trigger] v@[i]
                    && field_members(fields)[i] == Member::<N>::Unnamed(i as u32)
        },
        fields is Unit ==> field_types(fields).len() == 0 && field_members(fields).len() == 0,
{
}

/// The types of a struct's fields, and how each field is reached.
pub fn struct_fields<T: Copy, N: Copy>(fields: &Fields<T, N>) -> (r: (Vec<T>, Vec<Member<N>>))
    ensures
        r.0@ == field_types(*fields),
        r.1@ == field_members(*fields),
        *fields matches Fields::Named(v) ==> {
            &&& r.0@.len() == v@.len()
            &&& r.1@.len() == v@.len()
            &&& forall|i: int|
                0 <= i < v@.len() ==> r.0@[i] == (#[trigger] v@[i]).ty && r.1@[i] == Member::Named(
                    v@[i].ident,
                )
        },
        *fields matches Fields::Unnamed(v) ==> {
            &&& r.0@.len() == v@.len()
            &&& r.1@.len() == v@.len()
            &&& forall|i: int|
                0 <= i < v@.len() ==> r.0@[i] == #[trigger] v@[i] && r.1@[i] == Member::<N>::Unnamed(
                    i as u32,
                )
        },
        *fields is Unit ==> r.0@.len() == 0 && r.1@.len() == 0,
{
    proof {
        fields_kept_in_order(*fields);
    }
    let mut tys: Vec<T> = Vec::new();
    let mut members: Vec<Member<N>> = Vec::new();
    match fields {
        Fields::Named(v) => {
            let n = v.len();
            for i in 0..n
                invariant
                    n == v@.len(),
                    tys@ == v@.take(i as int).map_values(|f: NamedField<T, N>| f.ty),
                    members@ == v@.take(i as int).map_values(
                        |f: NamedField<T, N>| Member::Named(f.ident),
                    ),
            {
                let f = v[i];
                tys.push(f.ty);
                members.push(Member::Named(f.ident));
                proof {
                    assert(v@.take(i + 1).drop_last() =~= v@.take(i as int));
                }
            }
            proof {
                assert(v@.take(n as int) =~= v@);
            }
        },
        Fields::Unnamed(v) => {
            let n = v.len();
            for i in 0..n
                invariant
                    n == v@.len(),
                    tys@ == v@.take(i as int),
                    members@ == Seq::new(i as nat, |k: int| Member::<N>::Unnamed(k as u32)),
            {
                tys.push(v[i]);
                members.push(Member::Unnamed(i as u32));
                proof {
                    assert(tys@ =~= v@.take(i + 1));
                    assert(members@ =~= Seq::new((i + 1) as nat, |k: int| Member::<N>::Unnamed(k as u32)));
                }
            }
            proof {
                assert(tys@ =~= v@);
            }
        },
        Fields::Unit => {
            proof {
                assert(members@ =~= Seq::<Member<N>>::empty());
            }
        },
    }
    (tys, members)
}

/// The identifier bound to each field: a named field keeps its own name, a
/// positional one is bound to `tuple_field_<index>`.
pub fn member_as_idents<N: Copy>(members: &[Member<N>]) -> (r: Vec<FieldIdent<N>>)
    ensures
        r@.len() == members@.len(),
        forall|i: int| 0 <= i < members@.len() ==> is_ident_for(#[trigger] r@[i], members@[i]),
        forall|i: int|
            0 <= i < members@.len() ==> (#[trigger] members@[i] matches Member::Named(n) ==> r@[i]
                == FieldIdent::<N>::Borrowed(n)),
        forall|i: int|
            0 <= i < members@.len() ==> (#[trigger] members@[i] matches Member::Unnamed(k) ==> (
            r@[i] matches FieldIdent::Owned(s) && {
                &&& s@.take(12) == "tuple_field_"@
                &&& s@.len() > 12
                &&& all_ascii_digits(s@.skip(12))
                &&& digits_value(s@.skip(12)) == k
            })),
{
    let mut idents: Vec<FieldIdent<N>> = Vec::new();
    let n = members.len();
    for i in 0..n
        invariant
            n == members@.len(),
            idents@.len() == i,
            forall|k: int| 0 <= k < i ==> is_ident_for(#[trigger] idents@[k], members@[k]),
    {
        let ident = match members[i] {
            Member::Named(name) => FieldIdent::Borrowed(name),
            Member::Unnamed(index) => FieldIdent::Owned(tuple_field_ident(index)),
        };
        idents.push(ident);
    }
    proof {
        assert forall|i: int| 0 <= i < members@.len() implies (#[trigger] members@[i] matches Member::Unnamed(k) ==> (
        idents@[i] matches FieldIdent::Owned(s) && {
            &&& s@.take(12) == "tuple_field_"@
            &&& s@.len() > 12
            &&& all_ascii_digits(s@.skip(12))
            &&& digits_value(s@.skip(12)) == k
        })) by {
            ident_for_member(idents@[i], members@[i]);
        }
    }
    idents
}


// ---------------------------------------------------------------------------
// Generic parameters: every type parameter must be a component.
// ---------------------------------------------------------------------------

/// A trait bound on a type parameter: one the item was written with, or the
/// ECS's `Component` bound that the derive adds.
#[derive(Clone, Copy, PartialEq, Eq, Structural)]
pub enum Bound<B> {
    Existing(B),
    Component,
}

/// A generic parameter; `P` stands for the parameter as the caller holds it.
pub enum GenericParam<P, B> {
    Type { param: P, bounds: Vec<Bound<B>> },
    Lifetime(P),
    Const(P),
}

/// The generic parameters of an item, in declaration order.
pub struct Generics<P, B> {
    pub params: Vec<GenericParam<P, B>>,
}

/// `new` is `old` with `Component` appended to the bounds of each type
/// parameter, and every parameter otherwise as it was.
pub open spec fn is_with_component<P, B>(old: GenericParam<P, B>, new: GenericParam<P, B>) -> bool {
    match old {
        GenericParam::Type { param, bounds } => new matches GenericParam::Type {
            param: p2,
            bounds: b2,
        } && p2 == param && b2@ == bounds@.push(Bound::Component),
        GenericParam::Lifetime(p) => new matches GenericParam::Lifetime(p2) && p2 == p,
        GenericParam::Const(p) => new matches GenericParam::Const(p2) && p2 == p,
    }
}

/// Parameter by parameter, `new` is `old` with the `Component` bound added.
pub open spec fn with_component_bounds<P, B>(
    old: Seq<GenericParam<P, B>>,
    new: Seq<GenericParam<P, B>>,
) -> bool {
    &&& new.len() == old.len()
    &&& forall|i: int| 0 <= i < old.len() ==> is_with_component(#[trigger] old[i], new[i])
}

/// Adding the `Component` bound keeps a type parameter and every bound it
/// had, in order, and puts exactly one `Component` after them; lifetime and
/// const parameters are left as they were.
pub proof fn component_bound_appended<P, B>(old: GenericParam<P, B>, new: GenericParam<P, B>)
    requires
        is_with_component(old, new),
    ensures
        old matches GenericParam::Type { param, bounds } ==> {
            &&& new matches GenericParam::Type { param: p2, bounds: b2 }
            &&& p2 == param
            &&& b2@.len() == bounds@.len() + 1
            &&& forall|j: int| 0 <= j < bounds@.len() ==> b2@[j] == bounds@[j]
            &&& b2@[bounds@.len() as int] == Bound::<B>::Component
        },
        old matches GenericParam::Lifetime(p) ==> new == GenericParam::<P, B>::Lifetime(p),
        old matches GenericParam::Const(p) ==> new == GenericParam::<P, B>::Const(p),
{
}

fn copy_bounds<B: Copy>(bounds: &Vec<Bound<B>>) -> (r: Vec<Bound<B>>)
    ensures
        r@ == bounds@,
{
    let mut out: Vec<Bound<B>> = Vec::new();
    let n = bounds.len();
    for i in 0..n
        invariant
            n == bounds@.len(),
            out@ == bounds@.take(i as int),
    {
        out.push(bounds[i]);
        proof {
            assert(out@ =~= bounds@.take(i + 1));
        }
    }
    proof {
        assert(out@ =~= bounds@);
    }
    out
}

/// Adds the `Component` bound to every type parameter.
pub fn add_additional_bounds_to_generic_params<P: Copy, B: Copy>(generics: Generics<P, B>) -> (r:
    Generics<P, B>)
    ensures
        with_component_bounds(generics.params@, r.params@),
        r.params@.len() == generics.params@.len(),
        forall|i: int|
            0 <= i < generics.params@.len() ==> (#[trigger] generics.params@[i] matches GenericParam::Type {
                param,
                bounds,
            } ==> {
                &&& r.params@[i] matches GenericParam::Type { param: p2, bounds: b2 }
                &&& p2 == param
                &&& b2@.len() == bounds@.len() + 1
                &&& forall|j: int| 0 <= j < bounds@.len() ==> b2@[j] == bounds@[j]
                &&& b2@[bounds@.len() as int] == Bound::<B>::Component
            }),
        forall|i: int|
            0 <= i < generics.params@.len() ==> (#[trigger] generics.params@[i] matches GenericParam::Lifetime(p)
                ==> r.params@[i] == GenericParam::<P, B>::Lifetime(p)),
        forall|i: int|
            0 <= i < generics.params@.len() ==> (#[trigger] generics.params@[i] matches GenericParam::Const(p)
                ==> r.params@[i] == GenericParam::<P, B>::Const(p)),
{
    let mut params: Vec<GenericParam<P, B>> = Vec::new();
    let n = generics.params.len();
    for i in 0..n
        invariant
            n == generics.params@.len(),
            params@.len() == i,
            forall|k: int|
                0 <= k < i ==> is_with_component(#[trigger] generics.params@[k], params@[k]),
    {
        let param = match &generics.params[i] {
            GenericParam::Type { param, bounds } => {
                let mut new_bounds = copy_bounds(bounds);
                new_bounds.push(Bound::Component);
                GenericParam::Type { param: *param, bounds: new_bounds }
            },
            GenericParam::Lifetime(p) => GenericParam::Lifetime(*p),
            GenericParam::Const(p) => GenericParam::Const(*p),
        };
        params.push(param);
    }
    Generics { params }
}

/// Adding the bound keeps the number of parameters, so whether the item is
/// generic at all is the same before and after.
pub proof fn component_bounds_keep_params<P, B>(
    old: Seq<GenericParam<P, B>>,
    new: Seq<GenericParam<P, B>>,
)
    requires
        with_component_bounds(old, new),
    ensures
        new.len() == old.len(),
        (new.len() == 0) == (old.len() == 0),
{
}


// ---------------------------------------------------------------------------
// The derive itself.
// ---------------------------------------------------------------------------

/// The data of the item the derive is applied to.
pub enum Data<T, N> {
    Struct(Fields<T, N>),
    Enum,
    Union,
}

/// The item the derive is applied to, as far as the derive reads it.
pub struct DeriveInput<T, N, P, B> {
    pub data: Data<T, N>,
    pub generics: Generics<P, B>,
}

/// Which `Bundle` implementation is generated.
#[derive(Clone, Copy, Debug, PartialEq, Eq, Structural)]
pub enum BundleBody {
    /// A struct without fields: the type list is empty.
    UnitStruct,
    /// A non-generic struct with fields: the sorted type ids are computed
    /// once and kept in a lazily initialised static.
    StaticIds,
    /// A generic struct with fields: the sorted type ids are computed on
    /// each call.
    InlineIds,
}

/// Everything the generated code is made from.
pub struct BundlePlan<T, N, P, B> {
    /// The field types, in declaration order.
    pub tys: Vec<T>,
    /// How each field is reached, in declaration order.
    pub field_members: Vec<Member<N>>,
    /// The binding for each field, in declaration order.
    pub field_idents: Vec<FieldIdent<N>>,
    /// The item's generics, every type parameter bound by `Component`.
    pub generics: Generics<P, B>,
    /// Which `Bundle` implementation to generate.
    pub body: BundleBody,
}

/// Why the derive refuses an item.
#[derive(Clone, Copy, Debug, PartialEq, Eq, Structural)]
pub enum DeriveError {
    /// The item is an enum or a union.
    NotAStruct,
}

impl DeriveError {
    /// The message the error is reported with.
    pub fn message(&self) -> (r: String)
        ensures
            r@ == "derive(Bundle) does not support enums or unions"@,
    {
        String::from_str("derive(Bundle) does not support enums or unions")
    }
}

/// The implementation generated for a struct with `n_tys` fields and
/// `n_params` generic parameters.
pub open spec fn bundle_body(n_tys: nat, n_params: nat) -> BundleBody {
    if n_tys == 0 {
        BundleBody::UnitStruct
    } else if n_params == 0 {
        BundleBody::StaticIds
    } else {
        BundleBody::InlineIds
    }
}

/// A struct without fields gets the unit implementation; a struct with
/// fields keeps its type ids in a lazy static exactly when it has no generic
/// parameters (a static cannot depend on them), and computes them inline
/// otherwise.
pub proof fn bundle_body_choice(n_tys: nat, n_params: nat)
    ensures
        bundle_body(n_tys, n_params) == BundleBody::UnitStruct <==> n_tys == 0,
        bundle_body(n_tys, n_params) == BundleBody::StaticIds <==> (n_tys > 0 && n_params == 0),
        bundle_body(n_tys, n_params) == BundleBody::InlineIds <==> (n_tys > 0 && n_params > 0),
{
}

/// `plan` is what the derive makes of a struct with `fields` and generic
/// parameters `params`.
pub open spec fn is_plan_for<T, N, P, B>(
    plan: BundlePlan<T, N, P, B>,
    fields: Fields<T, N>,
    params: Seq<GenericParam<P, B>>,
) -> bool {
    &&& plan.tys@ == field_types(fields)
    &&& plan.field_members@ == field_members(fields)
    &&& plan.field_idents@.len() == plan.field_members@.len()
    &&& forall|i: int|
        0 <= i < plan.field_members@.len() ==> is_ident_for(
            #[trigger] plan.field_idents@[i],
            plan.field_members@[i],
        )
    &&& with_component_bounds(params, plan.generics.params@)
    &&& plan.body == bundle_body(field_types(fields).len(), params.len())
}

/// Plans the `Bundle` derive for `input`: refused for enums and unions;
/// for a struct, its field types, members and bindings, its generics with
/// `Component` added to each type parameter, and the kind of
/// implementation.
pub fn derive<T: Copy, N: Copy, P: Copy, B: Copy>(input: DeriveInput<T, N, P, B>) -> (r: Result<
    BundlePlan<T, N, P, B>,
    DeriveError,
>)
    ensures
        r is Ok <==> input.data is Struct,
        r matches Err(e) ==> e == DeriveError::NotAStruct,
        r matches Ok(plan) ==> is_plan_for(plan, input.data->Struct_0, input.generics.params@),
        r matches Ok(plan) ==> {
            &&& plan.body == BundleBody::UnitStruct <==> plan.tys@.len() == 0
            &&& plan.body == BundleBody::StaticIds <==> (plan.tys@.len() > 0
                && input.generics.params@.len() == 0)
            &&& plan.body == BundleBody::InlineIds <==> (plan.tys@.len() > 0
                && input.generics.params@.len() > 0)
            &&& plan.generics.params@.len() == input.generics.params@.len()
            &&& plan.tys@ == field_types(input.data->Struct_0)
            &&& plan.field_members@ == field_members(input.data->Struct_0)
            &&& plan.field_idents@.len() == plan.tys@.len()
        },
{
    let data = match input.data {
        Data::Struct(fields) => fields,
        _ => {
            return Err(DeriveError::NotAStruct);
        },
    };
    let (tys, field_members) = struct_fields(&data);
    let field_idents = member_as_idents(field_members.as_slice());
    let generics = add_additional_bounds_to_generic_params(input.generics);
    proof {
        bundle_body_choice(tys@.len(), input.generics.params@.len());
    }
    let body = if tys.len() == 0 {
        BundleBody::UnitStruct
    } else if generics.params.len() == 0 {
        BundleBody::StaticIds
    } else {
        BundleBody::InlineIds
    };
    Ok(BundlePlan { tys, field_members, field_idents, generics, body })
}

} // verus!
