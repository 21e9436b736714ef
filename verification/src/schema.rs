//! Declared record layouts: each field names a primitive type and a pointer
//! path written as text, `module, offset, offset, ..`. A layout is checked and
//! turned into the paths to register, one per field, in the fields' order.

use vstd::prelude::*;
use vstd::string::*;
use crate::memory::PointerKind;
use crate::registry::{PathModel, PathRegistry};

verus! {

/// One declared field: its name, the name of its type, and its pointer path
/// as text.
#[derive(Debug, Clone, PartialEq, Eq)]
pub struct FieldDecl {
    pub name: String,
    pub ty: String,
    pub pointer: String,
}

/// One field of a checked layout. `index` is the field's place in the record,
/// which is also the handle its path gets in a fresh registry.
#[derive(Debug, Clone, PartialEq, Eq)]
pub struct FieldPlan {
    pub name: String,
    pub index: usize,
    pub module: String,
    pub offsets: Vec<i64>,
    pub kind: PointerKind,
}

/// What a field plan says.
pub ghost struct PlanModel {
    pub name: Seq<char>,
    pub index: usize,
    pub path: PathModel,
}

impl View for FieldPlan {
    type V = PlanModel;

    open spec fn view(&self) -> PlanModel {
        PlanModel {
            name: self.name@,
            index: self.index,
            path: PathModel { module: self.module@, offsets: self.offsets@, kind: self.kind },
        }
    }
}

/// A checked layout: the process it belongs to and its fields in order.
#[derive(Debug, Clone, PartialEq, Eq)]
pub struct Schema {
    pub process: String,
    pub fields: Vec<FieldPlan>,
}

/// Why a declared layout was refused.
#[derive(Debug, Copy, Clone, PartialEq, Eq, Structural)]
pub enum SchemaError {
    /// Offset number `offset` (counted from zero, after the module) of field
    /// number `field` is no integer literal that fits 64 signed bits.
    BadOffset { field: usize, offset: usize },
    /// The type of field number `field` is none of the supported primitives.
    UnsupportedType { field: usize },
}

/// The characters that count as blank around a piece of a pointer path.
pub open spec fn spec_is_white_space(c: char) -> bool {
    let n = c as u32;
    ||| 0x09 <= n <= 0x0D
    ||| n == 0x20
    ||| n == 0x85
    ||| n == 0xA0
    ||| n == 0x1680
    ||| 0x2000 <= n <= 0x200A
    ||| n == 0x2028
    ||| n == 0x2029
    ||| n == 0x202F
    ||| n == 0x205F
    ||| n == 0x3000
}

/// Whether a character counts as blank.
pub fn is_white_space(c: char) -> (b: bool)
    ensures
        b == spec_is_white_space(c),
{
    let n: u32 = c as u32;
    (0x09 <= n && n <= 0x0D) || n == 0x20 || n == 0x85 || n == 0xA0 || n == 0x1680 || (0x2000 <= n
        && n <= 0x200A) || n == 0x2028 || n == 0x2029 || n == 0x202F || n == 0x205F || n == 0x3000
}

/// A text without the blanks at its front.
pub open spec fn trim_front(s: Seq<char>) -> Seq<char>
    decreases s.len(),
{
    if s.len() > 0 && spec_is_white_space(s[0]) {
        trim_front(s.drop_first())
    } else {
        s
    }
}

/// A text without the blanks at its back.
pub open spec fn trim_back(s: Seq<char>) -> Seq<char>
    decreases s.len(),
{
    if s.len() > 0 && spec_is_white_space(s.last()) {
        trim_back(s.drop_last())
    } else {
        s
    }
}

/// A text without the blanks at either end.
pub open spec fn trimmed(s: Seq<char>) -> Seq<char> {
    trim_back(trim_front(s))
}

/// The pieces of a text between its commas, in order. A text with n commas
/// has n + 1 pieces, some of which may be empty.
pub open spec fn pieces(s: Seq<char>) -> Seq<Seq<char>>
    decreases s.len(),
{
    if s.len() == 0 {
        seq![Seq::<char>::empty()]
    } else {
        let front = pieces(s.drop_last());
        if s.last() == ',' {
            front.push(Seq::<char>::empty())
        } else {
            front.update(front.len() - 1, front.last().push(s.last()))
        }
    }
}

/// The value of a text read as one integer literal of 64 signed bits, or
/// `None` where it is none.
pub uninterp spec fn lit_int_value(text: Seq<char>) -> Option<i64>;

/// The module that a pointer path starts from: its first piece, trimmed.
pub open spec fn module_text(pointer: Seq<char>) -> Seq<char> {
    trimmed(pieces(pointer)[0])
}

/// The offsets of a pointer path, each as far as it could be read: every
/// piece after the first, trimmed and read as an integer literal.
pub open spec fn parsed_offsets(pointer: Seq<char>) -> Seq<Option<i64>> {
    Seq::new(
        (pieces(pointer).len() - 1) as nat,
        |i: int| lit_int_value(trimmed(pieces(pointer)[i + 1])),
    )
}

/// The place of the first offset that could not be read, if there is one.
pub open spec fn first_none(parsed: Seq<Option<i64>>) -> Option<int>
    decreases parsed.len(),
{
    if parsed.len() == 0 {
        None
    } else {
        match first_none(parsed.drop_last()) {
            Some(k) => Some(k),
            None => if parsed.last() is None {
                Some(parsed.len() - 1)
            } else {
                None
            },
        }
    }
}

/// The values of offsets that could all be read.
pub open spec fn offset_values(parsed: Seq<Option<i64>>) -> Seq<i64> {
    Seq::new(parsed.len(), |i: int| parsed[i].unwrap())
}

/// The primitive kind that a type name stands for.
pub open spec fn spec_kind_for_type(ty: Seq<char>) -> Option<PointerKind> {
    if ty == "u8"@ {
        Some(PointerKind::U8)
    } else if ty == "u16"@ {
        Some(PointerKind::U16)
    } else if ty == "u32"@ {
        Some(PointerKind::U32)
    } else if ty == "u64"@ {
        Some(PointerKind::U64)
    } else if ty == "i8"@ {
        Some(PointerKind::I8)
    } else if ty == "i16"@ {
        Some(PointerKind::I16)
    } else if ty == "i32"@ {
        Some(PointerKind::I32)
    } else if ty == "i64"@ {
        Some(PointerKind::I64)
    } else if ty == "f32"@ {
        Some(PointerKind::F32)
    } else if ty == "f64"@ {
        Some(PointerKind::F64)
    } else {
        None
    }
}

/// The plan of a field whose pointer path was taken apart already: the first
/// unreadable offset refuses it, then an unsupported type does.
pub open spec fn spec_plan_field(
    index: usize,
    name: Seq<char>,
    ty: Seq<char>,
    module: Seq<char>,
    parsed: Seq<Option<i64>>,
) -> Result<PlanModel, SchemaError> {
    match first_none(parsed) {
        Some(k) => Err(SchemaError::BadOffset { field: index, offset: k as usize }),
        None => match spec_kind_for_type(ty) {
            None => Err(SchemaError::UnsupportedType { field: index }),
            Some(kind) => Ok(
                PlanModel {
                    name: name,
                    index: index,
                    path: PathModel { module: module, offsets: offset_values(parsed), kind: kind },
                },
            ),
        },
    }
}

/// What one declared field compiles to: the plan built from the module and
/// the offsets of its pointer path.
pub open spec fn spec_compile_field(index: usize, decl: FieldDecl) -> Result<PlanModel, SchemaError> {
    spec_plan_field(
        index,
        decl.name@,
        decl.ty@,
        module_text(decl.pointer@),
        parsed_offsets(decl.pointer@),
    )
}

/// Reads a text as one integer literal through `syn::parse_str::<syn::LitInt>`
/// and takes its value with `LitInt::base10_parse::<i64>`. Nothing is proved of
/// the value: the contract only gives it its name, `lit_int_value` of the text.
#[verifier::external_body]
fn parse_offset(text: &str) -> (value: Option<i64>)
    ensures
        value == lit_int_value(text@),
{
    match syn::parse_str::<syn::LitInt>(text) {
        Ok(lit) => lit.base10_parse::<i64>().ok(),
        Err(_) => None,
    }
}

/// Whether two texts are the same.
fn same_text(a: &str, b: &str) -> (same: bool)
    ensures
        same == (a@ == b@),
{
    a.to_owned() == b.to_owned()
}

/// The primitive kind that a type name stands for, if it is supported.
pub fn kind_for_type(ty: &str) -> (kind: Option<PointerKind>)
    ensures
        kind == spec_kind_for_type(ty@),
{
    if same_text(ty, "u8") {
        Some(PointerKind::U8)
    } else if same_text(ty, "u16") {
        Some(PointerKind::U16)
    } else if same_text(ty, "u32") {
        Some(PointerKind::U32)
    } else if same_text(ty, "u64") {
        Some(PointerKind::U64)
    } else if same_text(ty, "i8") {
        Some(PointerKind::I8)
    } else if same_text(ty, "i16") {
        Some(PointerKind::I16)
    } else if same_text(ty, "i32") {
        Some(PointerKind::I32)
    } else if same_text(ty, "i64") {
        Some(PointerKind::I64)
    } else if same_text(ty, "f32") {
        Some(PointerKind::F32)
    } else if same_text(ty, "f64") {
        Some(PointerKind::F64)
    } else {
        None
    }
}

/// A text without the blanks at either end.
pub fn trim(text: &str) -> (t: &str)
    ensures
        t@ == trimmed(text@),
{
    let n: usize = text.unicode_len();
    let mut lo: usize = 0;
    let mut scanning: bool = true;
    assert(text@.subrange(0, n as int) =~= text@);
    while scanning && lo < n
        invariant
            lo <= n,
            n == text@.len(),
            trim_front(text@) == trim_front(text@.subrange(lo as int, n as int)),
            !scanning ==> lo < n && !spec_is_white_space(text@[lo as int]),
        decreases n - lo + (if scanning { 1int } else { 0int }),
    {
        if is_white_space(text.get_char(lo)) {
            assert(text@.subrange(lo as int, n as int).drop_first() =~= text@.subrange(
                lo + 1,
                n as int,
            ));
            lo += 1;
        } else {
            scanning = false;
        }
    }
    let ghost front = text@.subrange(lo as int, n as int);
    assert(trim_front(text@) == front);
    let mut hi: usize = n;
    scanning = true;
    while scanning && lo < hi
        invariant
            lo <= hi <= n,
            n == text@.len(),
            trim_back(front) == trim_back(text@.subrange(lo as int, hi as int)),
            !scanning ==> lo < hi && !spec_is_white_space(text@[hi - 1]),
        decreases hi - lo + (if scanning { 1int } else { 0int }),
    {
        if is_white_space(text.get_char(hi - 1)) {
            assert(text@.subrange(lo as int, hi as int).drop_last() =~= text@.subrange(
                lo as int,
                hi - 1,
            ));
            hi -= 1;
        } else {
            scanning = false;
        }
    }
    text.substring_char(lo, hi)
}

/// The pieces of a text between its commas, in order.
pub fn split_commas(text: &str) -> (out: Vec<String>)
    ensures
        out@.len() == pieces(text@).len(),
        out@.len() >= 1,
        forall|j: int| 0 <= j < out@.len() ==> (#[trigger] out@[j])@ == pieces(text@)[j],
{
    let n: usize = text.unicode_len();
    let mut out: Vec<String> = Vec::new();
    let mut start: usize = 0;
    let mut i: usize = 0;
    while i < n
        invariant
            start <= i <= n,
            n == text@.len(),
            pieces(text@.subrange(0, i as int)).len() == out@.len() + 1,
            forall|j: int|
                0 <= j < out@.len() ==> (#[trigger] out@[j])@ == pieces(
                    text@.subrange(0, i as int),
                )[j],
            pieces(text@.subrange(0, i as int)).last() == text@.subrange(start as int, i as int),
        decreases n - i,
    {
        let c = text.get_char(i);
        let ghost before = text@.subrange(0, i as int);
        let ghost after = text@.subrange(0, i + 1);
        assert(after.drop_last() =~= before);
        assert(after.last() == c);
        if c == ',' {
            out.push(text.substring_char(start, i).to_owned());
            start = i + 1;
            assert(pieces(after).last() =~= text@.subrange(start as int, i + 1));
        } else {
            assert(pieces(after).last() =~= text@.subrange(start as int, i + 1));
        }
        i += 1;
    }
    assert(text@.subrange(0, n as int) =~= text@);
    out.push(text.substring_char(start, n).to_owned());
    out
}

/// Takes a pointer path apart: the module it starts from, and each offset as
/// far as it could be read.
pub fn parse_pointer(pointer: &str) -> (r: (String, Vec<Option<i64>>))
    ensures
        r.0@ == module_text(pointer@),
        r.1@ == parsed_offsets(pointer@),
{
    let parts = split_commas(pointer);
    let module = trim(parts[0].as_str()).to_owned();
    let mut offsets: Vec<Option<i64>> = Vec::new();
    let mut i: usize = 1;
    while i < parts.len()
        invariant
            1 <= i <= parts@.len(),
            parts@.len() == pieces(pointer@).len(),
            forall|j: int| 0 <= j < parts@.len() ==> (#[trigger] parts@[j])@ == pieces(pointer@)[j],
            offsets@.len() == i - 1,
            forall|j: int|
                0 <= j < offsets@.len() ==> #[trigger] offsets@[j] == lit_int_value(
                    trimmed(pieces(pointer@)[j + 1]),
                ),
        decreases parts@.len() - i,
    {
        let value = parse_offset(trim(parts[i].as_str()));
        offsets.push(value);
        i += 1;
    }
    assert(offsets@ =~= parsed_offsets(pointer@));
    (module, offsets)
}

/// The values of the offsets read, or the place of the first that could not
/// be read.
pub fn collect_offsets(parsed: &Vec<Option<i64>>) -> (r: Result<Vec<i64>, usize>)
    ensures
        match first_none(parsed@) {
            Some(k) => r == Err::<Vec<i64>, usize>(k as usize) && 0 <= k < parsed@.len(),
            None => r is Ok && r.unwrap()@ == offset_values(parsed@),
        },
{
    let mut values: Vec<i64> = Vec::new();
    let mut bad: Option<usize> = None;
    let mut i: usize = 0;
    while i < parsed.len()
        invariant
            i <= parsed@.len(),
            match first_none(parsed@.subrange(0, i as int)) {
                Some(k) => bad == Some(k as usize) && 0 <= k < i,
                None => bad is None && values@.len() == i && forall|j: int|
                    0 <= j < i ==> #[trigger] values@[j] == parsed@[j].unwrap(),
            },
        decreases parsed@.len() - i,
    {
        assert(parsed@.subrange(0, i + 1).drop_last() =~= parsed@.subrange(0, i as int));
        if bad.is_none() {
            match parsed[i] {
                Some(v) => {
                    values.push(v);
                },
                None => {
                    bad = Some(i);
                },
            }
        }
        i += 1;
    }
    assert(parsed@.subrange(0, i as int) =~= parsed@);
    match bad {
        Some(k) => Err(k),
        None => {
            assert(values@ =~= offset_values(parsed@));
            Ok(values)
        },
    }
}

/// Builds the plan of a field from its name, the name of its type, and the
/// module and offsets that its pointer path was taken apart into.
pub fn plan_field(
    index: usize,
    name: &str,
    ty: &str,
    module: &str,
    parsed: &Vec<Option<i64>>,
) -> (r: Result<FieldPlan, SchemaError>)
    ensures
        match spec_plan_field(index, name@, ty@, module@, parsed@) {
            Ok(plan) => r is Ok && r.unwrap()@ == plan,
            Err(e) => r == Err::<FieldPlan, SchemaError>(e),
        },
{
    match collect_offsets(parsed) {
        Err(k) => Err(SchemaError::BadOffset { field: index, offset: k }),
        Ok(offsets) => match kind_for_type(ty) {
            None => Err(SchemaError::UnsupportedType { field: index }),
            Some(kind) => Ok(
                FieldPlan {
                    name: name.to_owned(),
                    index: index,
                    module: module.to_owned(),
                    offsets: offsets,
                    kind: kind,
                },
            ),
        },
    }
}

/// Checks one declared field and builds its plan.
pub fn compile_field(index: usize, decl: &FieldDecl) -> (r: Result<FieldPlan, SchemaError>)
    ensures
        match spec_compile_field(index, *decl) {
            Ok(plan) => r is Ok && r.unwrap()@ == plan,
            Err(e) => r == Err::<FieldPlan, SchemaError>(e),
        },
{
    let (module, parsed) = parse_pointer(decl.pointer.as_str());
    plan_field(index, decl.name.as_str(), decl.ty.as_str(), module.as_str(), &parsed)
}

/// Checks a declared layout. It is accepted where every field is; the plans
/// then stand in the fields' order. Otherwise the first field that is refused
/// gives the error.
pub fn asl_state(process: &str, fields: &Vec<FieldDecl>) -> (r: Result<Schema, SchemaError>)
    ensures
        r is Ok <==> forall|j: int|
            0 <= j < fields@.len() ==> (#[trigger] spec_compile_field(j as usize, fields@[j])) is Ok,
        r matches Ok(schema) ==> {
            &&& schema.process@ == process@
            &&& schema.fields@.len() == fields@.len()
            &&& forall|j: int|
                0 <= j < fields@.len() ==> spec_compile_field(j as usize, fields@[j]) == Ok::<
                    PlanModel,
                    SchemaError,
                >((#[trigger] schema.fields@[j])@)
        },
        r matches Err(e) ==> exists|k: int|
            {
                &&& 0 <= k < fields@.len()
                &&& #[trigger] spec_compile_field(k as usize, fields@[k]) == Err::<
                    PlanModel,
                    SchemaError,
                >(e)
                &&& forall|j: int|
                    0 <= j < k ==> (#[trigger] spec_compile_field(j as usize, fields@[j])) is Ok
            },
{
    let mut plans: Vec<FieldPlan> = Vec::new();
    let mut i: usize = 0;
    while i < fields.len()
        invariant
            i <= fields@.len(),
            plans@.len() == i,
            forall|j: int|
                0 <= j < i ==> spec_compile_field(j as usize, fields@[j]) == Ok::<
                    PlanModel,
                    SchemaError,
                >((#[trigger] plans@[j])@),
        decreases fields@.len() - i,
    {
        match compile_field(i, &fields[i]) {
            Ok(plan) => {
                plans.push(plan);
            },
            Err(e) => {
                assert(spec_compile_field(i as usize, fields@[i as int]) == Err::<
                    PlanModel,
                    SchemaError,
                >(e));
                assert forall|j: int| 0 <= j < i implies (#[trigger] spec_compile_field(
                    j as usize,
                    fields@[j],
                )) is Ok by {
                    assert(spec_compile_field(j as usize, fields@[j]) == Ok::<
                        PlanModel,
                        SchemaError,
                    >(plans@[j]@));
                }
                return Err(e);
            },
        }
        i += 1;
    }
    assert forall|j: int| 0 <= j < fields@.len() implies (#[trigger] spec_compile_field(
        j as usize,
        fields@[j],
    )) is Ok by {
        assert(spec_compile_field(j as usize, fields@[j]) == Ok::<PlanModel, SchemaError>(
            plans@[j]@,
        ));
    }
    Ok(Schema { process: process.to_owned(), fields: plans })
}

impl Schema {
    /// Registers the path of every field, in the fields' order. The field at
    /// place i gets the handle that is i past the handles given out before, so
    /// in a fresh registry a field's handle is its place.
    pub fn configure(&self, registry: &mut PathRegistry)
        requires
            old(registry).wf(),
        ensures
            final(registry).wf(),
            final(registry)@.len() == old(registry)@.len() + self.fields@.len(),
            forall|j: int|
                0 <= j < old(registry)@.len() ==> final(registry)@[j] == old(registry)@[j],
            forall|j: int|
                0 <= j < self.fields@.len() ==> final(registry)@[old(registry)@.len() + j] == Some(
                    (#[trigger] self.fields@[j])@.path,
                ),
    {
        let mut i: usize = 0;
        while i < self.fields.len()
            invariant
                i <= self.fields@.len(),
                registry.wf(),
                registry@.len() == old(registry)@.len() + i,
                forall|j: int| 0 <= j < old(registry)@.len() ==> registry@[j] == old(registry)@[j],
                forall|j: int|
                    0 <= j < i ==> registry@[old(registry)@.len() + j] == Some(
                        (#[trigger] self.fields@[j])@.path,
                    ),
            decreases self.fields@.len() - i,
        {
            let plan = &self.fields[i];
            registry.push_pointer_path(plan.module.as_str(), plan.offsets.as_slice(), plan.kind);
            i += 1;
        }
    }
}

/// Where `first_none` gives a place, that offset could not be read and every
/// one before it could; where it gives none, every offset could be read.
pub proof fn lemma_first_none(parsed: Seq<Option<i64>>)
    ensures
        match first_none(parsed) {
            Some(k) => 0 <= k < parsed.len() && parsed[k] is None && forall|j: int|
                0 <= j < k ==> (#[trigger] parsed[j]) is Some,
            None => forall|j: int| 0 <= j < parsed.len() ==> (#[trigger] parsed[j]) is Some,
        },
    decreases parsed.len(),
{
    if parsed.len() > 0 {
        let front = parsed.drop_last();
        lemma_first_none(front);
        assert forall|j: int| 0 <= j < front.len() implies front[j] == parsed[j] by {}
    }
}

} // verus!
