//! The data model of an interface description document: named types over a
//! closed set of type shapes, modules with functions, and the per-function
//! lowering instruction streams supplied by the loader.
//!
//! Every executable value here has a ghost mirror (the `*V` types) in which
//! text is a `Seq<char>`; contracts are stated over the mirrors.
use vstd::prelude::*;

verus! {

/// Width of a variant tag or of a packed bitflags integer.
#[derive(Clone, Copy, PartialEq, Eq, Structural)]
pub enum IntRepr {
    U8,
    U16,
    U32,
    U64,
}

/// Builtin scalar types. `Char8` is a C-character byte, `Usize` a 32-bit
/// pointer-sized count; both are distinct from plain `U8`/`U32` only in the
/// language binding, not in layout.
#[derive(Clone, Copy, PartialEq, Eq, Structural)]
pub enum BuiltinType {
    Char,
    U8,
    Char8,
    U16,
    U32,
    Usize,
    U64,
    S8,
    S16,
    S32,
    S64,
    F32,
    F64,
}

/// What kind of record: a positional tuple, a packed set of boolean flags, or
/// an ordinary struct.
#[derive(Clone, Copy, PartialEq, Eq, Structural)]
pub enum RecordKind {
    Tuple,
    Bitflags,
    Other,
}

/// The four canonical machine-word types an adapter signature may use.
#[derive(Clone, Copy, PartialEq, Eq, Structural)]
pub enum WasmType {
    I32,
    I64,
    F32,
    F64,
}

/// The kinds of module imports; linear memory is the only one.
#[derive(Clone, Copy, PartialEq, Eq, Structural)]
pub enum ModuleImportVariant {
    Memory,
}

// ---------------------------------------------------------------------------
// Executable document model
// ---------------------------------------------------------------------------

/// A type definition with a name; emitted exactly once, in document order.
/// `docs` holds the documentation one line per entry.
pub struct NamedType {
    pub name: String,
    pub tref: TypeRef,
    pub docs: Vec<String>,
}

/// Either a reference to a named type or an inline anonymous type.
pub enum TypeRef {
    Name(Box<NamedType>),
    Value(Box<Type>),
}

/// The closed set of type shapes.
pub enum Type {
    Record(RecordDatatype),
    Variant(Variant),
    Handle,
    List(Box<TypeRef>),
    Pointer(Box<TypeRef>),
    ConstPointer(Box<TypeRef>),
    Builtin(BuiltinType),
}

/// A record: ordered named members. A `Bitflags` record packs its members
/// into one integer and has no per-member offsets.
pub struct RecordDatatype {
    pub kind: RecordKind,
    pub members: Vec<RecordMember>,
}

pub struct RecordMember {
    pub name: String,
    pub tref: TypeRef,
    pub docs: Vec<String>,
}

/// A tagged union. When no case carries a payload the variant is an enum and
/// is encoded as its tag alone.
pub struct Variant {
    pub tag_repr: IntRepr,
    pub cases: Vec<Case>,
}

pub struct Case {
    pub name: String,
    pub tref: Option<TypeRef>,
    pub docs: Vec<String>,
}

/// An independent named constant, emitted next to the named type `ty`.
pub struct Constant {
    pub ty: String,
    pub name: String,
    pub value: u64,
    pub docs: Vec<String>,
}

/// A function parameter or result.
pub struct Param {
    pub name: String,
    pub tref: TypeRef,
}

/// A function of a module. The lowering instruction stream and the
/// machine-word signature of its adapter are supplied by the loader along
/// with the declaration.
pub struct InterfaceFunc {
    pub name: String,
    pub docs: Vec<String>,
    pub params: Vec<Param>,
    pub results: Vec<Param>,
    pub instrs: Vec<Instruction>,
    pub wasm_params: Vec<WasmType>,
    pub wasm_results: Vec<WasmType>,
}

pub struct ModuleImport {
    pub name: String,
    pub variant: ModuleImportVariant,
}

pub struct Module {
    pub name: String,
    pub docs: Vec<String>,
    pub imports: Vec<ModuleImport>,
    pub funcs: Vec<InterfaceFunc>,
}

/// One loaded document: named types, independent constants, and modules, each
/// in document order.
pub struct Document {
    pub typenames: Vec<NamedType>,
    pub constants: Vec<Constant>,
    pub modules: Vec<Module>,
}

/// The three generated output texts.
pub struct Generated {
    pub module: String,
    pub types: String,
    pub stubs: String,
}

// ---------------------------------------------------------------------------
// Lowering instructions
// ---------------------------------------------------------------------------

/// What a called function's signature looks like to the code that renders the
/// call: its name, how many arguments it takes, and its declared results.
pub struct CalledFunc {
    pub name: String,
    pub nparams: usize,
    pub results: Vec<Param>,
}

/// The closed instruction set of the lowering engine. One stream per function
/// is supplied by the loader; the engine interprets it exhaustively and any
/// unrecognized instruction is carried as `Other` and is a fatal generation
/// error.
pub enum Instruction {
    /// Push parameter `nth` of the adapter.
    GetArg { nth: usize },
    /// Narrowing/widening casts between machine words and semantic scalars.
    I32FromChar,
    I64FromU64,
    I32FromU32,
    I32FromUsize,
    I32FromU16,
    I32FromS16,
    I32FromU8,
    I32FromS8,
    I32FromChar8,
    I32FromPointer,
    I32FromConstPointer,
    I32FromHandle { ty: NamedType },
    I32FromBitflags { ty: NamedType },
    I64FromBitflags { ty: NamedType },
    /// Pass-through conversions that change nothing in this binding.
    F32FromIf32,
    F64FromIf64,
    If32FromF32,
    If64FromF64,
    I32FromS32,
    I64FromS64,
    S32FromI32,
    S64FromI64,
    S8FromI32,
    Char8FromI32,
    U8FromI32,
    S16FromI32,
    U16FromI32,
    UsizeFromI32,
    U32FromI32,
    U64FromI64,
    CharFromI32,
    PointerFromI32,
    ConstPointerFromI32,
    HandleFromI32 { ty: NamedType },
    BitflagsFromI32 { ty: NamedType },
    BitflagsFromI64 { ty: NamedType },
    /// Pop a length, then a pointer, and push one synthetic list operand.
    ListFromPointerLength,
    /// Pop a pointer, then a value, and write the value at that address.
    Store { ty: NamedType },
    /// Pop a positional record and push one projection per member.
    TupleLower { amt: usize },
    /// Push the payload of the variant case being lowered.
    VariantPayload,
    /// Pop a discriminant and the two captured blocks; emit the branch that
    /// computes the result code.
    ResultLower,
    EnumLift { ty: NamedType },
    EnumLower,
    /// Render the call of the target implementation.
    CallInterface { func: CalledFunc },
    /// Return the `amt` remaining operands; at most one is supported.
    Return { amt: usize },
    /// Open a nested output block.
    OpenBlock,
    /// Close the innermost block, capturing its text and, if `yields`, the
    /// top operand as the block's value.
    CloseBlock { yields: bool },
    /// Any instruction outside the closed set above, by name.
    Other { name: String },
}

/// Errors that abort generation.
#[derive(Debug)]
pub enum GenError {
    /// A function declares more than one result or returns more than one value.
    TooManyResults,
    /// The instruction stream holds an instruction outside the closed set.
    UnrecognizedInstruction { name: String },
    /// The instruction stream violates the operand-stack discipline: a stale,
    /// missing or ill-typed operand, payload, or block.
    OperandDefect,
}

// ---------------------------------------------------------------------------
// Ghost mirrors
// ---------------------------------------------------------------------------

#[verifier::ext_equal]
pub struct NamedTypeV {
    pub name: Seq<char>,
    pub tref: TypeRefV,
    pub docs: Seq<Seq<char>>,
}

#[verifier::ext_equal]
pub enum TypeRefV {
    Name(Box<NamedTypeV>),
    Value(Box<TypeV>),
}

#[verifier::ext_equal]
pub enum TypeV {
    Record(RecordV),
    Variant(VariantV),
    Handle,
    List(Box<TypeRefV>),
    Pointer(Box<TypeRefV>),
    ConstPointer(Box<TypeRefV>),
    Builtin(BuiltinType),
}

#[verifier::ext_equal]
pub struct RecordV {
    pub kind: RecordKind,
    pub members: Seq<MemberV>,
}

#[verifier::ext_equal]
pub struct MemberV {
    pub name: Seq<char>,
    pub tref: TypeRefV,
    pub docs: Seq<Seq<char>>,
}

#[verifier::ext_equal]
pub struct VariantV {
    pub tag_repr: IntRepr,
    pub cases: Seq<CaseV>,
}

#[verifier::ext_equal]
pub struct CaseV {
    pub name: Seq<char>,
    pub tref: Option<TypeRefV>,
    pub docs: Seq<Seq<char>>,
}

#[verifier::ext_equal]
pub enum GenErrorV {
    TooManyResults,
    UnrecognizedInstruction { name: Seq<char> },
    OperandDefect,
}

impl NamedType {
    pub open spec fn dv(&self) -> NamedTypeV
        decreases self,
    {
        NamedTypeV { name: self.name@, tref: self.tref.dv(), docs: self.docs.deep_view() }
    }
}

impl TypeRef {
    pub open spec fn dv(&self) -> TypeRefV
        decreases self,
    {
        match self {
            TypeRef::Name(nt) => TypeRefV::Name(Box::new(nt.dv())),
            TypeRef::Value(t) => TypeRefV::Value(Box::new(t.dv())),
        }
    }

}

impl TypeRefV {
    /// The underlying shape, resolving through named types.
    pub open spec fn resolved(&self) -> TypeV
        decreases self,
    {
        match self {
            TypeRefV::Name(nt) => nt.tref.resolved(),
            TypeRefV::Value(t) => **t,
        }
    }
}

pub open spec fn members_dv(ms: Seq<RecordMember>) -> Seq<MemberV>
    decreases ms,
{
    if ms.len() == 0 {
        Seq::empty()
    } else {
        members_dv(ms.drop_last()).push(ms.last().dv())
    }
}

pub open spec fn cases_dv(cs: Seq<Case>) -> Seq<CaseV>
    decreases cs,
{
    if cs.len() == 0 {
        Seq::empty()
    } else {
        cases_dv(cs.drop_last()).push(cs.last().dv())
    }
}

impl Type {
    pub open spec fn dv(&self) -> TypeV
        decreases self,
    {
        match self {
            Type::Record(r) => TypeV::Record(r.dv()),
            Type::Variant(v) => TypeV::Variant(v.dv()),
            Type::Handle => TypeV::Handle,
            Type::List(e) => TypeV::List(Box::new(e.dv())),
            Type::Pointer(e) => TypeV::Pointer(Box::new(e.dv())),
            Type::ConstPointer(e) => TypeV::ConstPointer(Box::new(e.dv())),
            Type::Builtin(b) => TypeV::Builtin(*b),
        }
    }
}

impl RecordDatatype {
    pub open spec fn dv(&self) -> RecordV
        decreases self,
    {
        RecordV { kind: self.kind, members: members_dv(self.members@) }
    }
}

impl RecordMember {
    pub open spec fn dv(&self) -> MemberV
        decreases self,
    {
        MemberV { name: self.name@, tref: self.tref.dv(), docs: self.docs.deep_view() }
    }
}

impl Variant {
    pub open spec fn dv(&self) -> VariantV
        decreases self,
    {
        VariantV { tag_repr: self.tag_repr, cases: cases_dv(self.cases@) }
    }
}

impl Case {
    pub open spec fn dv(&self) -> CaseV
        decreases self,
    {
        CaseV {
            name: self.name@,
            tref: match &self.tref {
                Some(t) => Some(t.dv()),
                None => None,
            },
            docs: self.docs.deep_view(),
        }
    }
}

impl GenError {
    pub open spec fn dv(&self) -> GenErrorV {
        match self {
            GenError::TooManyResults => GenErrorV::TooManyResults,
            GenError::UnrecognizedInstruction { name } => GenErrorV::UnrecognizedInstruction {
                name: name@,
            },
            GenError::OperandDefect => GenErrorV::OperandDefect,
        }
    }
}

/// The two seq-mirror helpers agree with pointwise mirroring.
pub proof fn lemma_members_dv(ms: Seq<RecordMember>)
    ensures
        members_dv(ms).len() == ms.len(),
        forall|i: int| 0 <= i < ms.len() ==> members_dv(ms)[i] == ms[i].dv(),
    decreases ms,
{
    if ms.len() > 0 {
        lemma_members_dv(ms.drop_last());
    }
}

pub proof fn lemma_cases_dv(cs: Seq<Case>)
    ensures
        cases_dv(cs).len() == cs.len(),
        forall|i: int| 0 <= i < cs.len() ==> cases_dv(cs)[i] == cs[i].dv(),
    decreases cs,
{
    if cs.len() > 0 {
        lemma_cases_dv(cs.drop_last());
    }
}

// ---------------------------------------------------------------------------
// Shape predicates (on the mirrors)
// ---------------------------------------------------------------------------

impl VariantV {
    /// Enum-like: no case carries a payload; encoded purely as the tag.
    pub open spec fn is_enum(&self) -> bool {
        forall|i: int| 0 <= i < self.cases.len() ==> self.cases[i].tref is None
    }

    /// Result-like: exactly an `ok` case and an `err` case, in that order.
    pub open spec fn is_expected(&self) -> bool {
        &&& self.cases.len() == 2
    &&& self.cases[0].name == "ok"@
        &&& self.cases[1].name == "err"@
    }
}

impl RecordV {
    pub open spec fn is_tuple(&self) -> bool {
        self.kind is Tuple
    }

    pub open spec fn is_bitflags(&self) -> bool {
        self.kind is Bitflags
    }
}

} // verus!

verus! {

/// A copy of a line vector with the same text.
pub fn dup_lines(v: &Vec<String>) -> (r: Vec<String>)
    ensures
        r.deep_view() == v.deep_view(),
{
    let mut r: Vec<String> = Vec::new();
    let n = v.len();
    for i in 0..n
        invariant
            n == v.len(),
            r.len() == i,
            forall|k: int| 0 <= k < i ==> r.deep_view()[k] == v.deep_view()[k],
        decreases n - i,
    {
        r.push(v[i].clone());
    }
    proof {
        assert(r.deep_view() =~= v.deep_view());
    }
    r
}

impl TypeRef {
    /// A structural copy with the same mirror.
    pub fn duplicate(&self) -> (r: TypeRef)
        ensures
            r.dv() == self.dv(),
        decreases self,
    {
        match self {
            TypeRef::Name(nt) => TypeRef::Name(Box::new(nt.duplicate())),
            TypeRef::Value(t) => TypeRef::Value(Box::new(t.duplicate())),
        }
    }
}

impl NamedType {
    pub fn duplicate(&self) -> (r: NamedType)
        ensures
            r.dv() == self.dv(),
        decreases self,
    {
        NamedType { name: self.name.clone(), tref: self.tref.duplicate(), docs: dup_lines(&self.docs) }
    }
}

impl Type {
    pub fn duplicate(&self) -> (r: Type)
        ensures
            r.dv() == self.dv(),
        decreases self,
    {
        match self {
            Type::Record(r) => Type::Record(r.duplicate()),
            Type::Variant(v) => Type::Variant(v.duplicate()),
            Type::Handle => Type::Handle,
            Type::List(e) => Type::List(Box::new(e.duplicate())),
            Type::Pointer(e) => Type::Pointer(Box::new(e.duplicate())),
            Type::ConstPointer(e) => Type::ConstPointer(Box::new(e.duplicate())),
            Type::Builtin(b) => Type::Builtin(*b),
        }
    }
}

impl RecordMember {
    pub fn duplicate(&self) -> (r: RecordMember)
        ensures
            r.dv() == self.dv(),
        decreases self,
    {
        RecordMember { name: self.name.clone(), tref: self.tref.duplicate(), docs: dup_lines(&self.docs) }
    }
}

impl RecordDatatype {
    pub fn duplicate(&self) -> (r: RecordDatatype)
        ensures
            r.dv() == self.dv(),
        decreases self,
    {
        let mut members: Vec<RecordMember> = Vec::new();
        let n = self.members.len();
        for i in 0..n
            invariant
                n == self.members.len(),
                members.len() == i,
                forall|k: int| 0 <= k < i ==> members@[k].dv() == self.members@[k].dv(),
            decreases n - i,
        {
            members.push(self.members[i].duplicate());
        }
        let r = RecordDatatype { kind: self.kind, members };
        proof {
            lemma_members_dv(r.members@);
            lemma_members_dv(self.members@);
            assert(members_dv(r.members@) =~= members_dv(self.members@));
        }
        r
    }
}

impl Case {
    pub fn duplicate(&self) -> (r: Case)
        ensures
            r.dv() == self.dv(),
        decreases self,
    {
        Case {
            name: self.name.clone(),
            tref: match &self.tref {
                Some(t) => Some(t.duplicate()),
                None => None,
            },
            docs: dup_lines(&self.docs),
        }
    }
}

impl Variant {
    pub fn duplicate(&self) -> (r: Variant)
        ensures
            r.dv() == self.dv(),
        decreases self,
    {
        let mut cases: Vec<Case> = Vec::new();
        let n = self.cases.len();
        for i in 0..n
            invariant
                n == self.cases.len(),
                cases.len() == i,
                forall|k: int| 0 <= k < i ==> cases@[k].dv() == self.cases@[k].dv(),
            decreases n - i,
        {
            cases.push(self.cases[i].duplicate());
        }
        let r = Variant { tag_repr: self.tag_repr, cases };
        proof {
            lemma_cases_dv(r.cases@);
            lemma_cases_dv(self.cases@);
            assert(cases_dv(r.cases@) =~= cases_dv(self.cases@));
        }
        r
    }
}

} // verus!
