//! The ABI lowering engine: a single-pass, stack-based code-generation
//! interpreter over one function's instruction stream. It tracks an operand
//! stack of (optional semantic type, rendered expression) pairs, captures
//! nested output blocks for branches, and emits imperative statements into
//! the current output buffer.
use vstd::prelude::*;

use crate::ast::{CalledFunc, GenError, GenErrorV, Instruction, NamedType, Type, TypeRef,
    TypeRefV, TypeV};
use crate::names::{ident_of, ident_name, intrepr_name, intrepr_name_of, namedtype_name,
    namedtype_name_of};
use crate::storeload::{named_store_text, print_named_store};
use crate::text::{dec_of, push_dec_usize};

verus! {

/// One operand: an optional semantic type and the rendered expression.
pub struct Operand {
    pub ty: Option<TypeRef>,
    pub expr: String,
}

#[verifier::ext_equal]
pub struct OperandV {
    pub ty: Option<TypeRefV>,
    pub expr: Seq<char>,
}

impl Operand {
    pub open spec fn dv(&self) -> OperandV {
        OperandV {
            ty: match &self.ty {
                Some(t) => Some(t.dv()),
                None => None,
            },
            expr: self.expr@,
        }
    }
}

/// The single-slot environment holding a selected case's payload while its
/// nested block is lowered.
pub struct PayloadSlot {
    pub ty: TypeRef,
    pub expr: String,
}

#[verifier::ext_equal]
pub struct PayloadSlotV {
    pub ty: TypeRefV,
    pub expr: Seq<char>,
}

impl PayloadSlot {
    pub open spec fn dv(&self) -> PayloadSlotV {
        PayloadSlotV { ty: self.ty.dv(), expr: self.expr@ }
    }
}

/// A captured block: its text and the operand it yielded, if any.
pub struct Block {
    pub body: String,
    pub result: Option<Operand>,
}

#[verifier::ext_equal]
pub struct BlockV {
    pub body: Seq<char>,
    pub result: Option<OperandV>,
}

impl Block {
    pub open spec fn dv(&self) -> BlockV {
        BlockV {
            body: self.body@,
            result: match &self.result {
                Some(o) => Some(o.dv()),
                None => None,
            },
        }
    }
}

/// The interpreter state: the current output buffer, the operand stack, the
/// payload slots, the saved buffers of open blocks, and the captured blocks.
pub struct LowerState {
    pub src: String,
    pub stack: Vec<Operand>,
    pub variants: Vec<PayloadSlot>,
    pub block_storage: Vec<String>,
    pub blocks: Vec<Block>,
}

#[verifier::ext_equal]
pub struct StateV {
    pub src: Seq<char>,
    pub stack: Seq<OperandV>,
    pub variants: Seq<PayloadSlotV>,
    pub block_storage: Seq<Seq<char>>,
    pub blocks: Seq<BlockV>,
}

pub open spec fn ops_dv(s: Seq<Operand>) -> Seq<OperandV> {
    Seq::new(s.len(), |i: int| s[i].dv())
}

pub open spec fn slots_dv(s: Seq<PayloadSlot>) -> Seq<PayloadSlotV> {
    Seq::new(s.len(), |i: int| s[i].dv())
}

pub open spec fn blocks_dv(s: Seq<Block>) -> Seq<BlockV> {
    Seq::new(s.len(), |i: int| s[i].dv())
}

impl LowerState {
    pub open spec fn view(&self) -> StateV {
        StateV {
            src: self.src@,
            stack: ops_dv(self.stack@),
            variants: slots_dv(self.variants@),
            block_storage: self.block_storage.deep_view(),
            blocks: blocks_dv(self.blocks@),
        }
    }
}

/// A fresh state with an empty buffer and empty stacks.
pub fn new_state() -> (s: LowerState)
    ensures
        s@ == empty_state(),
{
    let s = LowerState {
        src: String::new(),
        stack: Vec::new(),
        variants: Vec::new(),
        block_storage: Vec::new(),
        blocks: Vec::new(),
    };
    proof {
        assert(s@ =~= empty_state());
    }
    s
}

pub open spec fn empty_state() -> StateV {
    StateV {
        src: Seq::empty(),
        stack: Seq::empty(),
        variants: Seq::empty(),
        block_storage: Seq::empty(),
        blocks: Seq::empty(),
    }
}

// ---------------------------------------------------------------------------
// The step function, one case per instruction
// ---------------------------------------------------------------------------

/// Cast the top operand through a conversion function.
pub open spec fn spec_top_as(s: StateV, cvt: Seq<char>) -> Result<StateV, GenErrorV> {
    if s.stack.len() == 0 {
        Err(GenErrorV::OperandDefect)
    } else {
        Ok(
            StateV {
                stack: s.stack.drop_last().push(
                    OperandV { ty: None, expr: cvt + "("@ + s.stack.last().expr + ")"@ },
                ),
                ..s
            },
        )
    }
}

/// Pass the top operand through unchanged.
pub open spec fn spec_pass(s: StateV) -> Result<StateV, GenErrorV> {
    if s.stack.len() == 0 {
        Err(GenErrorV::OperandDefect)
    } else {
        Ok(s)
    }
}

pub open spec fn spec_get_arg(s: StateV, nth: nat) -> Result<StateV, GenErrorV> {
    Ok(StateV { stack: s.stack.push(OperandV { ty: None, expr: "p"@ + dec_of(nth) }), ..s })
}

/// Combine a popped length and pointer into one synthetic list operand.
pub open spec fn spec_list_from(s: StateV) -> Result<StateV, GenErrorV> {
    if s.stack.len() < 2 {
        Err(GenErrorV::OperandDefect)
    } else {
        let length = s.stack.last();
        let pointer = s.stack[s.stack.len() - 2];
        Ok(
            StateV {
                stack: s.stack.drop_last().drop_last().push(
                    OperandV {
                        ty: None,
                        expr: "list{pointer: pointer("@ + pointer.expr + "), length: int32("@
                            + length.expr + ")}"@,
                    },
                ),
                ..s
            },
        )
    }
}

/// Pop a pointer and a value and emit the write of the value at the pointer.
pub open spec fn spec_store(s: StateV, ty: NamedType) -> Result<StateV, GenErrorV> {
    if s.stack.len() < 2 {
        Err(GenErrorV::OperandDefect)
    } else {
        let pointer = s.stack.last();
        let value = s.stack[s.stack.len() - 2];
        Ok(
            StateV {
                src: s.src + named_store_text(ty.dv(), "m.mem()"@, value.expr, pointer.expr, 0),
                stack: s.stack.drop_last().drop_last(),
                ..s
            },
        )
    }
}

/// Move the innermost payload slot onto the operand stack.
pub open spec fn spec_variant_payload(s: StateV) -> Result<StateV, GenErrorV> {
    if s.variants.len() == 0 {
        Err(GenErrorV::OperandDefect)
    } else {
        let slot = s.variants.last();
        Ok(
            StateV {
                stack: s.stack.push(OperandV { ty: Some(slot.ty), expr: slot.expr }),
                variants: s.variants.drop_last(),
                ..s
            },
        )
    }
}

pub open spec fn spec_enum_lift(s: StateV, ty: NamedType) -> Result<StateV, GenErrorV> {
    match ty.tref.dv().resolved() {
        TypeV::Variant(v) => spec_top_as(s, intrepr_name_of(v.tag_repr)),
        _ => Err(GenErrorV::OperandDefect),
    }
}

/// Open a nested output block by saving the current buffer.
pub open spec fn spec_open_block(s: StateV) -> Result<StateV, GenErrorV> {
    Ok(
        StateV {
            src: Seq::empty(),
            block_storage: s.block_storage.push(s.src),
            ..s
        },
    )
}

/// Close the innermost block, capturing its text and optional yielded
/// operand, and restore the saved buffer.
pub open spec fn spec_close_block(s: StateV, yields: bool) -> Result<StateV, GenErrorV> {
    if s.block_storage.len() == 0 {
        Err(GenErrorV::OperandDefect)
    } else if yields && s.stack.len() == 0 {
        Err(GenErrorV::OperandDefect)
    } else {
        Ok(
            StateV {
                src: s.block_storage.last(),
                block_storage: s.block_storage.drop_last(),
                stack: if yields {
                    s.stack.drop_last()
                } else {
                    s.stack
                },
                blocks: s.blocks.push(
                    BlockV {
                        body: s.src,
                        result: if yields {
                            Some(s.stack.last())
                        } else {
                            None
                        },
                    },
                ),
                ..s
            },
        )
    }
}

/// Return `amt` remaining operands; only zero or one is supported.
pub open spec fn spec_return(s: StateV, amt: nat) -> Result<StateV, GenErrorV> {
    if amt == 0 {
        Ok(s)
    } else if amt == 1 {
        if s.stack.len() == 0 {
            Err(GenErrorV::OperandDefect)
        } else {
            Ok(
                StateV {
                    src: s.src + "\treturn "@ + s.stack.last().expr + "\n"@,
                    stack: s.stack.drop_last(),
                    ..s
                },
            )
        }
    } else {
        Err(GenErrorV::TooManyResults)
    }
}

} // verus!

verus! {

/// The projections of a positional record: one operand per member, in
/// declared order, from the popped record expression.
pub open spec fn tuple_proj(expr: Seq<char>, ms: Seq<crate::ast::MemberV>, n: int) -> Seq<
    OperandV,
>
    decreases n,
{
    if n <= 0 {
        Seq::empty()
    } else {
        tuple_proj(expr, ms, n - 1).push(
            OperandV { ty: None, expr: expr + ident_of(ms[n - 1].name) },
        )
    }
}

pub open spec fn spec_tuple_lower(s: StateV, amt: nat) -> Result<StateV, GenErrorV> {
    if s.stack.len() == 0 {
        Err(GenErrorV::OperandDefect)
    } else {
        let op = s.stack.last();
        match op.ty {
            Some(tr) => match tr.resolved() {
                TypeV::Record(r) => if amt <= r.members.len() {
                    Ok(
                        StateV {
                            stack: s.stack.drop_last() + tuple_proj(
                                op.expr,
                                r.members,
                                amt as int,
                            ),
                            ..s
                        },
                    )
                } else {
                    Err(GenErrorV::OperandDefect)
                },
                _ => Err(GenErrorV::OperandDefect),
            },
            None => Err(GenErrorV::OperandDefect),
        }
    }
}

/// The branch computing the result code: the code starts at the success
/// sentinel; with an ok-block the success path runs only when the
/// discriminant equals the success tag, without one the err-block runs only
/// when it does not; the err-block's yielded expression, if any, becomes the
/// code.
pub open spec fn result_lower_text(
    disc: Seq<char>,
    ok_block: Seq<char>,
    err_block: Seq<char>,
    err_expr: Option<OperandV>,
) -> Seq<char> {
    "res := int32(wasiErrnoSuccess)\n"@ + (if ok_block.len() > 0 {
        "if "@ + disc + " == wasiErrnoSuccess {\n"@ + ok_block + "} else {\n"@
    } else {
        "if "@ + disc + " != wasiErrnoSuccess {\n"@
    }) + err_block + (match err_expr {
        Some(e) => "\tres = "@ + e.expr + "\n"@,
        None => Seq::empty(),
    }) + "}\n"@
}

pub open spec fn spec_result_lower(s: StateV) -> Result<StateV, GenErrorV> {
    if s.stack.len() == 0 || s.blocks.len() < 2 {
        Err(GenErrorV::OperandDefect)
    } else {
        let disc = s.stack.last();
        let errb = s.blocks.last();
        let okb = s.blocks[s.blocks.len() - 2];
        Ok(
            StateV {
                src: s.src + result_lower_text(disc.expr, okb.body, errb.body, errb.result),
                stack: s.stack.drop_last().push(OperandV { ty: None, expr: "res"@ }),
                blocks: s.blocks.drop_last().drop_last(),
                ..s
            },
        )
    }
}

/// The call arguments in declared order, comma separated.
pub open spec fn args_text(ops: Seq<OperandV>) -> Seq<char>
    decreases ops,
{
    if ops.len() == 0 {
        Seq::empty()
    } else if ops.len() == 1 {
        ops[0].expr
    } else {
        args_text(ops.drop_last()) + ", "@ + ops.last().expr
    }
}

/// The named ok temporaries of a call whose ok payload is a positional
/// record: one per member.
pub open spec fn tuple_bindings_text(ms: Seq<crate::ast::MemberV>, n: int) -> Seq<char>
    decreases n,
{
    if n <= 0 {
        Seq::empty()
    } else {
        tuple_bindings_text(ms, n - 1) + "rv"@ + ident_of(ms[n - 1].name) + ", "@
    }
}

/// The ok-temporary bindings of a call: a tuple expansion for a positional
/// record, one `rv` otherwise.
pub open spec fn ok_bindings_text(ok: TypeRefV) -> Seq<char> {
    match ok {
        TypeRefV::Value(ty) => match *ty {
            TypeV::Record(r) => if r.is_tuple() {
                tuple_bindings_text(r.members, r.members.len() as int)
            } else {
                "rv, "@
            },
            _ => "rv, "@,
        },
        _ => "rv, "@,
    }
}

pub open spec fn spec_call_interface(s: StateV, f: CalledFunc) -> Result<StateV, GenErrorV> {
    if s.stack.len() < f.nparams {
        Err(GenErrorV::OperandDefect)
    } else {
        let args = s.stack.subrange(s.stack.len() - f.nparams, s.stack.len() as int);
        let rest = s.stack.subrange(0, s.stack.len() - f.nparams);
        let call = "m.impl."@ + ident_of(f.name@) + "("@ + args_text(args) + ")\n"@;
        if f.results@.len() == 0 {
            Ok(StateV { src: s.src + "\t"@ + call, stack: rest, ..s })
        } else if f.results@.len() > 1 {
            Err(GenErrorV::TooManyResults)
        } else {
            match f.results@[0].tref.dv().resolved() {
                TypeV::Variant(v) => if v.is_enum() {
                    Ok(
                        StateV {
                            src: s.src + "\t"@ + "rv := "@ + call,
                            stack: rest.push(OperandV { ty: None, expr: "rv"@ }),
                            ..s
                        },
                    )
                } else if !v.is_expected() {
                    Err(GenErrorV::OperandDefect)
                } else {
                    match v.cases[1].tref {
                        None => Err(GenErrorV::OperandDefect),
                        Some(errt) => {
                            let with_err = s.variants.push(
                                PayloadSlotV { ty: errt, expr: "err"@ },
                            );
                            let vars = match v.cases[0].tref {
                                Some(okt) => with_err.push(
                                    PayloadSlotV { ty: okt, expr: "rv"@ },
                                ),
                                None => with_err,
                            };
                            let bindings = match v.cases[0].tref {
                                Some(okt) => ok_bindings_text(okt),
                                None => Seq::empty(),
                            };
                            Ok(
                                StateV {
                                    src: s.src + "\t"@ + bindings + "err := "@ + call,
                                    stack: rest.push(
                                        OperandV { ty: Some(errt), expr: "err"@ },
                                    ),
                                    variants: vars,
                                    ..s
                                },
                            )
                        },
                    }
                },
                _ => Err(GenErrorV::OperandDefect),
            }
        }
    }
}

/// One step of the lowering engine: the closed instruction set, handled
/// exhaustively; anything else is a fatal unrecognized-instruction error.
pub open spec fn spec_step(s: StateV, inst: Instruction) -> Result<StateV, GenErrorV> {
    match inst {
        Instruction::GetArg { nth } => spec_get_arg(s, nth as nat),
        Instruction::I32FromPointer => spec_top_as(s, "int32"@),
        Instruction::I32FromConstPointer => spec_top_as(s, "int32"@),
        Instruction::I32FromHandle { ty: _ } => spec_top_as(s, "int32"@),
        Instruction::I32FromUsize => spec_top_as(s, "int32"@),
        Instruction::I32FromChar => spec_top_as(s, "int32"@),
        Instruction::I32FromU8 => spec_top_as(s, "int32"@),
        Instruction::I32FromS8 => spec_top_as(s, "int32"@),
        Instruction::I32FromChar8 => spec_top_as(s, "int32"@),
        Instruction::I32FromU16 => spec_top_as(s, "int32"@),
        Instruction::I32FromS16 => spec_top_as(s, "int32"@),
        Instruction::I32FromU32 => spec_top_as(s, "int32"@),
        Instruction::I32FromBitflags { ty: _ } => spec_top_as(s, "int32"@),
        Instruction::I64FromU64 => spec_top_as(s, "int64"@),
        Instruction::I64FromBitflags { ty: _ } => spec_top_as(s, "int64"@),
        Instruction::F32FromIf32 => spec_pass(s),
        Instruction::F64FromIf64 => spec_pass(s),
        Instruction::If32FromF32 => spec_pass(s),
        Instruction::If64FromF64 => spec_pass(s),
        Instruction::I32FromS32 => spec_pass(s),
        Instruction::I64FromS64 => spec_pass(s),
        Instruction::S32FromI32 => spec_pass(s),
        Instruction::S64FromI64 => spec_pass(s),
        Instruction::S8FromI32 => spec_top_as(s, "int8"@),
        Instruction::Char8FromI32 => spec_top_as(s, "byte"@),
        Instruction::U8FromI32 => spec_top_as(s, "uint8"@),
        Instruction::S16FromI32 => spec_top_as(s, "int16"@),
        Instruction::U16FromI32 => spec_top_as(s, "uint16"@),
        Instruction::UsizeFromI32 => spec_top_as(s, "uint32"@),
        Instruction::U32FromI32 => spec_top_as(s, "uint32"@),
        Instruction::U64FromI64 => spec_top_as(s, "uint64"@),
        Instruction::CharFromI32 => spec_top_as(s, "rune"@),
        Instruction::PointerFromI32 => spec_top_as(s, "pointer"@),
        Instruction::ConstPointerFromI32 => spec_top_as(s, "pointer"@),
        Instruction::HandleFromI32 { ty } => spec_top_as(
            s,
            namedtype_name_of(ty.name@, ty.tref.dv().resolved()),
        ),
        Instruction::BitflagsFromI32 { ty } => spec_top_as(
            s,
            namedtype_name_of(ty.name@, ty.tref.dv().resolved()),
        ),
        Instruction::BitflagsFromI64 { ty } => spec_top_as(
            s,
            namedtype_name_of(ty.name@, ty.tref.dv().resolved()),
        ),
        Instruction::ListFromPointerLength => spec_list_from(s),
        Instruction::Store { ty } => spec_store(s, ty),
        Instruction::TupleLower { amt } => spec_tuple_lower(s, amt as nat),
        Instruction::VariantPayload => spec_variant_payload(s),
        Instruction::ResultLower => spec_result_lower(s),
        Instruction::EnumLift { ty } => spec_enum_lift(s, ty),
        Instruction::EnumLower => spec_top_as(s, "int32"@),
        Instruction::CallInterface { func } => spec_call_interface(s, func),
        Instruction::Return { amt } => spec_return(s, amt as nat),
        Instruction::OpenBlock => spec_open_block(s),
        Instruction::CloseBlock { yields } => spec_close_block(s, yields),
        Instruction::Other { name } => Err(GenErrorV::UnrecognizedInstruction { name: name@ }),
    }
}

/// Run the first `n` instructions of a stream.
pub open spec fn spec_run(s: StateV, instrs: Seq<Instruction>, n: int) -> Result<
    StateV,
    GenErrorV,
>
    decreases n,
{
    if n <= 0 {
        Ok(s)
    } else {
        match spec_run(s, instrs, n - 1) {
            Ok(s2) => spec_step(s2, instrs[n - 1]),
            Err(e) => Err(e),
        }
    }
}

} // verus!

verus! {

// ---------------------------------------------------------------------------
// The executable engine
// ---------------------------------------------------------------------------

/// What the engine guarantees of each step: success follows the step
/// function exactly, failure reports the step function's error.
pub open spec fn step_post(
    pre: StateV,
    post: StateV,
    r: Result<(), GenError>,
    sr: Result<StateV, GenErrorV>,
) -> bool {
    match sr {
        Ok(g) => r is Ok && post == g,
        Err(e) => r is Err && r->Err_0.dv() == e,
    }
}

fn top_as(state: &mut LowerState, cvt: &str) -> (r: Result<(), GenError>)
    ensures
        step_post(old(state)@, final(state)@, r, spec_top_as(old(state)@, cvt@)),
{
    match state.stack.pop() {
        Some(op) => {
            let mut e = String::from_str(cvt);
            e.append("(");
            e.append(op.expr.as_str());
            e.append(")");
            state.stack.push(Operand { ty: None, expr: e });
            proof {
                assert(state@ =~= spec_top_as(old(state)@, cvt@)->Ok_0);
            }
            Ok(())
        },
        None => Err(GenError::OperandDefect),
    }
}

fn pass_through(state: &mut LowerState) -> (r: Result<(), GenError>)
    ensures
        step_post(old(state)@, final(state)@, r, spec_pass(old(state)@)),
{
    match state.stack.pop() {
        Some(op) => {
            state.stack.push(op);
            proof {
                assert(state@ =~= old(state)@);
            }
            Ok(())
        },
        None => Err(GenError::OperandDefect),
    }
}

fn get_arg(state: &mut LowerState, nth: usize) -> (r: Result<(), GenError>)
    ensures
        step_post(old(state)@, final(state)@, r, spec_get_arg(old(state)@, nth as nat)),
{
    let mut e = String::from_str("p");
    push_dec_usize(&mut e, nth);
    state.stack.push(Operand { ty: None, expr: e });
    proof {
        assert(state@ =~= spec_get_arg(old(state)@, nth as nat)->Ok_0);
    }
    Ok(())
}

fn list_from(state: &mut LowerState) -> (r: Result<(), GenError>)
    ensures
        step_post(old(state)@, final(state)@, r, spec_list_from(old(state)@)),
{
    if state.stack.len() < 2 {
        return Err(GenError::OperandDefect);
    }
    let length = state.stack.pop().unwrap();
    let pointer = state.stack.pop().unwrap();
    let mut e = String::from_str("list{pointer: pointer(");
    e.append(pointer.expr.as_str());
    e.append("), length: int32(");
    e.append(length.expr.as_str());
    e.append(")}");
    state.stack.push(Operand { ty: None, expr: e });
    proof {
        assert(state@ =~= spec_list_from(old(state)@)->Ok_0);
    }
    Ok(())
}

fn store_inst(state: &mut LowerState, ty: &NamedType) -> (r: Result<(), GenError>)
    ensures
        step_post(old(state)@, final(state)@, r, spec_store(old(state)@, *ty)),
{
    if state.stack.len() < 2 {
        return Err(GenError::OperandDefect);
    }
    let pointer = state.stack.pop().unwrap();
    let value = state.stack.pop().unwrap();
    print_named_store(
        &mut state.src,
        ty,
        "m.mem()",
        value.expr.as_str(),
        pointer.expr.as_str(),
        0,
    );
    proof {
        assert(state@ =~= spec_store(old(state)@, *ty)->Ok_0);
    }
    Ok(())
}

fn variant_payload(state: &mut LowerState) -> (r: Result<(), GenError>)
    ensures
        step_post(old(state)@, final(state)@, r, spec_variant_payload(old(state)@)),
{
    match state.variants.pop() {
        Some(slot) => {
            state.stack.push(Operand { ty: Some(slot.ty), expr: slot.expr });
            proof {
                assert(state@ =~= spec_variant_payload(old(state)@)->Ok_0);
            }
            Ok(())
        },
        None => Err(GenError::OperandDefect),
    }
}

fn enum_lift(state: &mut LowerState, ty: &NamedType) -> (r: Result<(), GenError>)
    ensures
        step_post(old(state)@, final(state)@, r, spec_enum_lift(old(state)@, *ty)),
{
    match ty.type_() {
        Type::Variant(v) => top_as(state, intrepr_name(v.tag_repr)),
        _ => Err(GenError::OperandDefect),
    }
}

fn open_block(state: &mut LowerState) -> (r: Result<(), GenError>)
    ensures
        step_post(old(state)@, final(state)@, r, spec_open_block(old(state)@)),
{
    let saved = state.src.clone();
    state.block_storage.push(saved);
    state.src = String::new();
    proof {
        assert(state@ =~= spec_open_block(old(state)@)->Ok_0);
    }
    Ok(())
}

fn close_block(state: &mut LowerState, yields: bool) -> (r: Result<(), GenError>)
    ensures
        step_post(old(state)@, final(state)@, r, spec_close_block(old(state)@, yields)),
{
    if state.block_storage.len() == 0 {
        return Err(GenError::OperandDefect);
    }
    let result: Option<Operand> = if yields {
        match state.stack.pop() {
            Some(op) => Some(op),
            None => {
                return Err(GenError::OperandDefect);
            },
        }
    } else {
        None
    };
    let restored = state.block_storage.pop().unwrap();
    let body = state.src.clone();
    state.src = restored;
    state.blocks.push(Block { body, result });
    proof {
        assert(state@ =~= spec_close_block(old(state)@, yields)->Ok_0);
    }
    Ok(())
}

fn return_inst(state: &mut LowerState, amt: usize) -> (r: Result<(), GenError>)
    ensures
        step_post(old(state)@, final(state)@, r, spec_return(old(state)@, amt as nat)),
{
    if amt == 0 {
        return Ok(());
    }
    if amt > 1 {
        return Err(GenError::TooManyResults);
    }
    match state.stack.pop() {
        Some(op) => {
            state.src.append("\treturn ");
            state.src.append(op.expr.as_str());
            state.src.append("\n");
            proof {
                assert(state@ =~= spec_return(old(state)@, amt as nat)->Ok_0);
            }
            Ok(())
        },
        None => Err(GenError::OperandDefect),
    }
}

#[verifier::rlimit(100)]
fn result_lower(state: &mut LowerState) -> (r: Result<(), GenError>)
    ensures
        step_post(old(state)@, final(state)@, r, spec_result_lower(old(state)@)),
{
    if state.stack.len() == 0 || state.blocks.len() < 2 {
        return Err(GenError::OperandDefect);
    }
    let disc = state.stack.pop().unwrap();
    let errb = state.blocks.pop().unwrap();
    let okb = state.blocks.pop().unwrap();
    state.src.append("res := int32(wasiErrnoSuccess)\n");
    if !okb.body.as_str().is_empty() {
        state.src.append("if ");
        state.src.append(disc.expr.as_str());
        state.src.append(" == wasiErrnoSuccess {\n");
        state.src.append(okb.body.as_str());
        state.src.append("} else {\n");
    } else {
        state.src.append("if ");
        state.src.append(disc.expr.as_str());
        state.src.append(" != wasiErrnoSuccess {\n");
    }
    state.src.append(errb.body.as_str());
    if let Some(e) = &errb.result {
        state.src.append("\tres = ");
        state.src.append(e.expr.as_str());
        state.src.append("\n");
    }
    state.src.append("}\n");
    state.stack.push(Operand { ty: None, expr: String::from_str("res") });
    proof {
        assert(okb.body@.len() > 0 <==> okb.dv().body.len() > 0);
        assert(state@.src =~= old(state)@.src + result_lower_text(
            disc.dv().expr,
            okb.dv().body,
            errb.dv().body,
            errb.dv().result,
        ));
        assert(state@ =~= spec_result_lower(old(state)@)->Ok_0);
    }
    Ok(())
}

} // verus!

verus! {

#[verifier::rlimit(100)]
fn tuple_lower(state: &mut LowerState, amt: usize) -> (r: Result<(), GenError>)
    ensures
        step_post(old(state)@, final(state)@, r, spec_tuple_lower(old(state)@, amt as nat)),
{
    if state.stack.len() == 0 {
        return Err(GenError::OperandDefect);
    }
    let op = state.stack.pop().unwrap();
    let ghost opv = op.dv();
    match &op.ty {
        Some(tr) => match tr.type_() {
            Type::Record(record) => {
                let ghost rv = record.dv();
                proof {
                    crate::ast::lemma_members_dv(record.members@);
                }
                if amt > record.members.len() {
                    return Err(GenError::OperandDefect);
                }
                for i in 0..amt
                    invariant
                        amt <= record.members.len(),
                        rv == record.dv(),
                        opv == op.dv(),
                        rv.members.len() == record.members@.len(),
                        forall|k: int|
                            0 <= k < record.members@.len() ==> rv.members[k]
                                == record.members@[k].dv(),
                        state@ == (StateV {
                            stack: old(state)@.stack.drop_last() + tuple_proj(
                                opv.expr,
                                rv.members,
                                i as int,
                            ),
                            ..old(state)@
                        }),
                        spec_tuple_lower(old(state)@, amt as nat) == Ok::<StateV, GenErrorV>(
                            StateV {
                                stack: old(state)@.stack.drop_last() + tuple_proj(
                                    opv.expr,
                                    rv.members,
                                    amt as int,
                                ),
                                ..old(state)@
                            },
                        ),
                    decreases amt - i,
                {
                    let mut e = op.expr.clone();
                    let id = ident_name(record.members[i].name.as_str());
                    e.append(id.as_str());
                    proof {
                        assert(rv.members[i as int] == record.members@[i as int].dv());
                        assert(rv.members[i as int].name == record.members@[i as int].name@);
                        assert(opv.expr == op.expr@);
                        assert(id@ == ident_of(record.members@[i as int].name@));
                        assert(e@ == op.expr@ + id@);
                        assert(e@ == opv.expr + ident_of(rv.members[i as int].name));
                    }
                    let ghost ev = e@;
                    let ghost prevs = state@.stack;
                    state.stack.push(Operand { ty: None, expr: e });
                    proof {
                        assert(state@.stack =~= prevs.push(OperandV { ty: None, expr: ev }));
                        assert(tuple_proj(opv.expr, rv.members, i + 1) == tuple_proj(
                            opv.expr,
                            rv.members,
                            i as int,
                        ).push(
                            OperandV {
                                ty: None,
                                expr: opv.expr + ident_of(rv.members[i as int].name),
                            },
                        ));
                        assert(prevs.push(OperandV { ty: None, expr: ev })
                            =~= old(state)@.stack.drop_last() + tuple_proj(
                            opv.expr,
                            rv.members,
                            i + 1,
                        ));
                        assert(state@.stack == old(state)@.stack.drop_last() + tuple_proj(
                            opv.expr,
                            rv.members,
                            i + 1,
                        ));
                        assert(state@ =~= StateV {
                            stack: old(state)@.stack.drop_last() + tuple_proj(
                                opv.expr,
                                rv.members,
                                i + 1,
                            ),
                            ..old(state)@
                        });
                    }
                }
                Ok(())
            },
            _ => Err(GenError::OperandDefect),
        },
        None => Err(GenError::OperandDefect),
    }
}

/// The rendered call arguments: the drained operands in declared order.
fn build_args(stack: &Vec<Operand>, start: usize) -> (args: String)
    requires
        start <= stack.len(),
    ensures
        args@ == args_text(ops_dv(stack@).subrange(start as int, stack@.len() as int)),
{
    let mut args = String::new();
    let n = stack.len();
    for i in start..n
        invariant
            start <= i <= n,
            n == stack.len(),
            args@ == args_text(ops_dv(stack@).subrange(start as int, i as int)),
        decreases n - i,
    {
        if i > start {
            args.append(", ");
        }
        args.append(stack[i].expr.as_str());
        proof {
            let s = ops_dv(stack@);
            assert(s.subrange(start as int, i + 1).drop_last() =~= s.subrange(
                start as int,
                i as int,
            ));
            assert(s.subrange(start as int, i + 1).last() == s[i as int]);
            if i == start {
                assert(args@ =~= args_text(s.subrange(start as int, i + 1)));
            }
        }
    }
    args
}

/// Drop the top `n` operands.
fn pop_n(state: &mut LowerState, n: usize)
    requires
        n <= old(state).stack.len(),
    ensures
        final(state)@ == (StateV {
            stack: old(state)@.stack.subrange(0, old(state)@.stack.len() - n),
            ..old(state)@
        }),
{
    let ghost pre = state@;
    let target = state.stack.len() - n;
    while state.stack.len() > target
        invariant
            target <= state.stack.len() <= pre.stack.len(),
            pre == old(state)@,
            target == pre.stack.len() - n,
            state@ == (StateV {
                stack: pre.stack.subrange(0, ops_dv(state.stack@).len() as int),
                ..pre
            }),
        decreases state.stack.len(),
    {
        state.stack.pop();
        proof {
            assert(state@.stack =~= pre.stack.subrange(0, state.stack@.len() as int));
            assert(state@ =~= StateV {
                stack: pre.stack.subrange(0, state.stack@.len() as int),
                ..pre
            });
        }
    }
    proof {
        assert(state@ =~= StateV {
            stack: pre.stack.subrange(0, pre.stack.len() - n),
            ..pre
        });
    }
}

/// The named ok temporaries of a call: a tuple expansion or one `rv`.
fn build_ok_bindings(ok: &TypeRef) -> (b: String)
    ensures
        b@ == ok_bindings_text(ok.dv()),
{
    match ok {
        TypeRef::Value(t) => match &**t {
            Type::Record(rec) => {
                if rec.is_tuple() {
                    proof {
                        crate::ast::lemma_members_dv(rec.members@);
                    }
                    let ghost ms = rec.dv().members;
                    let mut b = String::new();
                    let n = rec.members.len();
                    for i in 0..n
                        invariant
                            n == rec.members.len(),
                            ms == rec.dv().members,
                            ms.len() == n,
                            forall|k: int| 0 <= k < n ==> ms[k] == rec.members@[k].dv(),
                            b@ == tuple_bindings_text(ms, i as int),
                        decreases n - i,
                    {
                        b.append("rv");
                        let id = ident_name(rec.members[i].name.as_str());
                        b.append(id.as_str());
                        b.append(", ");
                        proof {
                            assert(b@ =~= tuple_bindings_text(ms, i + 1));
                        }
                    }
                    b
                } else {
                    String::from_str("rv, ")
                }
            },
            _ => String::from_str("rv, "),
        },
        _ => String::from_str("rv, "),
    }
}

} // verus!

verus! {

/// Render the call of the target implementation: operands become positional
/// arguments, and named temporaries are bound and registered for the
/// payload-extraction lookups that follow.
#[verifier::rlimit(100)]
fn call_interface(state: &mut LowerState, f: &CalledFunc) -> (r: Result<(), GenError>)
    ensures
        step_post(old(state)@, final(state)@, r, spec_call_interface(old(state)@, *f)),
{
    if state.stack.len() < f.nparams {
        return Err(GenError::OperandDefect);
    }
    let start = state.stack.len() - f.nparams;
    let args = build_args(&state.stack, start);
    pop_n(state, f.nparams);
    let mut call = String::from_str("m.impl.");
    let id = ident_name(f.name.as_str());
    call.append(id.as_str());
    call.append("(");
    call.append(args.as_str());
    call.append(")\n");
    let ghost callv = call@;
    proof {
        assert(callv == "m.impl."@ + ident_of(f.name@) + "("@ + args_text(
            old(state)@.stack.subrange(
                old(state)@.stack.len() - f.nparams,
                old(state)@.stack.len() as int,
            ),
        ) + ")\n"@);
    }
    if f.results.len() == 0 {
        state.src.append("\t");
        state.src.append(call.as_str());
        proof {
            assert(state@ =~= spec_call_interface(old(state)@, *f)->Ok_0);
        }
        return Ok(());
    }
    if f.results.len() > 1 {
        return Err(GenError::TooManyResults);
    }
    match f.results[0].tref.type_() {
        Type::Variant(v) => {
            let ghost vv = v.dv();
            proof {
                crate::ast::lemma_cases_dv(v.cases@);
            }
            if v.is_enum() {
                state.src.append("\t");
                state.src.append("rv := ");
                state.src.append(call.as_str());
                state.stack.push(Operand { ty: None, expr: String::from_str("rv") });
                proof {
                    assert(state@ =~= spec_call_interface(old(state)@, *f)->Ok_0);
                }
                return Ok(());
            }
            let expected = v.cases.len() == 2 && crate::names::str_eq(
                v.cases[0].name.as_str(),
                "ok",
            ) && crate::names::str_eq(v.cases[1].name.as_str(), "err");
            if !expected {
                proof {
                    assert(!vv.is_expected());
                }
                return Err(GenError::OperandDefect);
            }
            proof {
                assert(vv.is_expected());
                assert(vv.cases[1] == v.cases@[1].dv());
                assert(vv.cases[0] == v.cases@[0].dv());
            }
            match &v.cases[1].tref {
                None => Err(GenError::OperandDefect),
                Some(errt) => {
                    state.src.append("\t");
                    match &v.cases[0].tref {
                        Some(okt) => {
                            let b = build_ok_bindings(okt);
                            state.src.append(b.as_str());
                        },
                        None => {},
                    }
                    state.src.append("err := ");
                    state.src.append(call.as_str());
                    state.variants.push(
                        PayloadSlot { ty: errt.duplicate(), expr: String::from_str("err") },
                    );
                    if let Some(okt) = &v.cases[0].tref {
                        state.variants.push(
                            PayloadSlot { ty: okt.duplicate(), expr: String::from_str("rv") },
                        );
                    }
                    state.stack.push(
                        Operand { ty: Some(errt.duplicate()), expr: String::from_str("err") },
                    );
                    proof {
                        assert(state@ =~= spec_call_interface(old(state)@, *f)->Ok_0);
                    }
                    Ok(())
                },
            }
        },
        _ => Err(GenError::OperandDefect),
    }
}

/// One step: interpret one instruction, mutating the state exactly as the
/// step function says, or report its error.
pub fn emit_inst(state: &mut LowerState, inst: &Instruction) -> (r: Result<(), GenError>)
    ensures
        step_post(old(state)@, final(state)@, r, spec_step(old(state)@, *inst)),
{
    match inst {
        Instruction::GetArg { nth } => get_arg(state, *nth),
        Instruction::I32FromPointer => top_as(state, "int32"),
        Instruction::I32FromConstPointer => top_as(state, "int32"),
        Instruction::I32FromHandle { ty: _ } => top_as(state, "int32"),
        Instruction::I32FromUsize => top_as(state, "int32"),
        Instruction::I32FromChar => top_as(state, "int32"),
        Instruction::I32FromU8 => top_as(state, "int32"),
        Instruction::I32FromS8 => top_as(state, "int32"),
        Instruction::I32FromChar8 => top_as(state, "int32"),
        Instruction::I32FromU16 => top_as(state, "int32"),
        Instruction::I32FromS16 => top_as(state, "int32"),
        Instruction::I32FromU32 => top_as(state, "int32"),
        Instruction::I32FromBitflags { ty: _ } => top_as(state, "int32"),
        Instruction::I64FromU64 => top_as(state, "int64"),
        Instruction::I64FromBitflags { ty: _ } => top_as(state, "int64"),
        Instruction::F32FromIf32 => pass_through(state),
        Instruction::F64FromIf64 => pass_through(state),
        Instruction::If32FromF32 => pass_through(state),
        Instruction::If64FromF64 => pass_through(state),
        Instruction::I32FromS32 => pass_through(state),
        Instruction::I64FromS64 => pass_through(state),
        Instruction::S32FromI32 => pass_through(state),
        Instruction::S64FromI64 => pass_through(state),
        Instruction::S8FromI32 => top_as(state, "int8"),
        Instruction::Char8FromI32 => top_as(state, "byte"),
        Instruction::U8FromI32 => top_as(state, "uint8"),
        Instruction::S16FromI32 => top_as(state, "int16"),
        Instruction::U16FromI32 => top_as(state, "uint16"),
        Instruction::UsizeFromI32 => top_as(state, "uint32"),
        Instruction::U32FromI32 => top_as(state, "uint32"),
        Instruction::U64FromI64 => top_as(state, "uint64"),
        Instruction::CharFromI32 => top_as(state, "rune"),
        Instruction::PointerFromI32 => top_as(state, "pointer"),
        Instruction::ConstPointerFromI32 => top_as(state, "pointer"),
        Instruction::HandleFromI32 { ty } => {
            let n = namedtype_name(ty);
            top_as(state, n.as_str())
        },
        Instruction::BitflagsFromI32 { ty } => {
            let n = namedtype_name(ty);
            top_as(state, n.as_str())
        },
        Instruction::BitflagsFromI64 { ty } => {
            let n = namedtype_name(ty);
            top_as(state, n.as_str())
        },
        Instruction::ListFromPointerLength => list_from(state),
        Instruction::Store { ty } => store_inst(state, ty),
        Instruction::TupleLower { amt } => tuple_lower(state, *amt),
        Instruction::VariantPayload => variant_payload(state),
        Instruction::ResultLower => result_lower(state),
        Instruction::EnumLift { ty } => enum_lift(state, ty),
        Instruction::EnumLower => top_as(state, "int32"),
        Instruction::CallInterface { func } => call_interface(state, func),
        Instruction::Return { amt } => return_inst(state, *amt),
        Instruction::OpenBlock => open_block(state),
        Instruction::CloseBlock { yields } => close_block(state, *yields),
        Instruction::Other { name } => Err(
            GenError::UnrecognizedInstruction { name: name.clone() },
        ),
    }
}

/// Once the run fails, it stays failed.
pub proof fn lemma_run_err(s: StateV, instrs: Seq<Instruction>, j: int, m: int)
    requires
        0 <= j <= m,
        spec_run(s, instrs, j) is Err,
    ensures
        spec_run(s, instrs, m) == spec_run(s, instrs, j),
    decreases m - j,
{
    if m > j {
        lemma_run_err(s, instrs, j, m - 1);
    }
}

/// Interpret one function's whole instruction stream.
pub fn run_instrs(state: &mut LowerState, instrs: &Vec<Instruction>) -> (r: Result<(), GenError>)
    ensures
        (match spec_run(old(state)@, instrs@, instrs@.len() as int) {
            Ok(g) => r is Ok && final(state)@ == g,
            Err(e) => r is Err && r->Err_0.dv() == e,
        }),
{
    let n = instrs.len();
    for i in 0..n
        invariant
            n == instrs.len(),
            spec_run(old(state)@, instrs@, i as int) == Ok::<StateV, GenErrorV>(state@),
        decreases n - i,
    {
        let step = emit_inst(state, &instrs[i]);
        if let Err(e) = step {
            proof {
                lemma_run_err(old(state)@, instrs@, i + 1, n as int);
            }
            return Err(e);
        }
    }
    Ok(())
}

} // verus!
