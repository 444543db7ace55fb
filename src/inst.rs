use vstd::prelude::*;
use crate::flags::{merge_status, status_flags, x86_flags_for_test8, x86_simulate_or, X86_FLAGS_STATUS};
use crate::operand::{is_operand_width, width_mask, Operand};
use crate::status::Status;

verus! {

/// What a trapped instruction does to the emulated location.
#[derive(Debug, Clone, Copy, PartialEq, Eq, Structural)]
pub enum InstructionType {
    Read,
    Write,
    Test,
    LogicalOr,
}

/// The guest vCPU state an instruction works on: its general-purpose
/// register file and its flags word.
pub struct ZxVcpuState {
    pub regs: Vec<u64>,
    pub flags: u64,
}

/// A decoded instruction: its type, its operand width in bytes, and its
/// operand, either the register `regs[i]` of the vCPU (`reg == Some(i)`) or
/// the immediate `imm` (`reg == None`). The flags it affects are those of the
/// vCPU it is executed against.
#[derive(Debug, Clone, Copy)]
pub struct Instruction {
    pub inst_type: InstructionType,
    pub access_size: u8,
    pub imm: u32,
    pub reg: Option<usize>,
}

impl Instruction {
    /// The register operand, if any, lies in the register file of `vcpu`.
    pub open spec fn fits(self, vcpu: ZxVcpuState) -> bool {
        match self.reg {
            Some(i) => i < vcpu.regs@.len(),
            None => true,
        }
    }

    /// The raw 64 bits of the operand source: the whole register, or the
    /// immediate zero-extended.
    pub open spec fn source_bits(self, vcpu: ZxVcpuState) -> u64 {
        match self.reg {
            Some(i) => vcpu.regs@[i as int],
            None => self.imm as u64,
        }
    }

    /// The operand read at the width of `T`: the low bytes of the source.
    pub open spec fn operand_bits<T: Operand>(self, vcpu: ZxVcpuState) -> u64 {
        self.source_bits(vcpu) & width_mask(T::width())
    }

    /// The instruction has type `t` and operands the width of `T`.
    pub open spec fn matches<T: Operand>(self, t: InstructionType) -> bool {
        self.inst_type == t && self.access_size as nat == T::width()
    }
}

/// The register file after a read of `value` completes: the register
/// operand, if any, holds `value`; an immediate operand leaves it as it was.
pub open spec fn regs_after_read(inst: Instruction, regs: Seq<u64>, value: u64) -> Seq<u64> {
    match inst.reg {
        Some(i) => regs.update(i as int, value),
        None => regs,
    }
}

/// Accepts a descriptor that the instruction decoder produced for the bytes
/// `_inst_buf`: it can be emulated when its operand width is 1, 2, 4 or 8 bytes
/// and its register operand, if any, lies in the register file of
/// `vcpu_state`. Neither argument is changed.
pub fn inst_decode(
    _inst_buf: &[u8],
    _default_operand_size: u8,
    vcpu_state: &ZxVcpuState,
    inst: &Instruction,
) -> (r: Result<(), Status>)
    ensures
        r is Ok <==> is_operand_width(inst.access_size as nat) && inst.fits(*vcpu_state),
        r is Err ==> r == Err::<(), Status>(Status::NOT_SUPPORTED),
{
    let size = inst.access_size;
    if size != 1 && size != 2 && size != 4 && size != 8 {
        return Err(Status::NOT_SUPPORTED);
    }
    match inst.reg {
        Some(i) => {
            if i >= vcpu_state.regs.len() {
                return Err(Status::NOT_SUPPORTED);
            }
        },
        None => {},
    }
    Ok(())
}

/// The operand of `inst`, read at the width of `T`.
pub fn get_inst_val<T: Operand>(inst: &Instruction, vcpu: &ZxVcpuState) -> (r: T)
    requires
        inst.fits(*vcpu),
    ensures
        r.bits() == inst.operand_bits::<T>(*vcpu),
{
    let raw: u64 = match inst.reg {
        Some(i) => vcpu.regs[i],
        None => inst.imm as u64,
    };
    T::from_u64(raw)
}

/// Emulates a read of the device: `value`, zero-extended to 64 bits, goes to
/// the register operand of `inst` (an immediate operand takes nothing). Fails
/// with `NOT_SUPPORTED`, changing nothing, unless `inst` is a read of the
/// width of `T`.
pub fn inst_read<T: Operand>(
    inst: &Instruction,
    value: T,
    vcpu: &mut ZxVcpuState,
) -> (r: Result<(), Status>)
    requires
        inst.fits(*old(vcpu)),
    ensures
        r is Ok <==> inst.matches::<T>(InstructionType::Read),
        r is Ok ==> final(vcpu).regs@ == regs_after_read(*inst, old(vcpu).regs@, value.bits()),
        final(vcpu).flags == old(vcpu).flags,
        r is Err ==> r == Err::<(), Status>(Status::NOT_SUPPORTED),
        r is Err ==> final(vcpu).regs@ == old(vcpu).regs@,
{
    if inst.inst_type != InstructionType::Read || inst.access_size as usize != T::size() {
        return Err(Status::NOT_SUPPORTED);
    }
    match inst.reg {
        Some(i) => {
            vcpu.regs[i] = value.to_u64();
        },
        None => {},
    }
    Ok(())
}

/// Emulates a write to the device: `value` takes the operand of `inst`.
/// Fails with `NOT_SUPPORTED`, leaving `value` as it was, unless `inst` is a
/// write of the width of `T`.
pub fn inst_write<T: Operand>(
    inst: &Instruction,
    value: &mut T,
    vcpu: &ZxVcpuState,
) -> (r: Result<(), Status>)
    requires
        inst.fits(*vcpu),
    ensures
        r is Ok <==> inst.matches::<T>(InstructionType::Write),
        r is Ok ==> final(value).bits() == inst.operand_bits::<T>(*vcpu),
        r is Err ==> r == Err::<(), Status>(Status::NOT_SUPPORTED),
        r is Err ==> *final(value) == *old(value),
{
    if inst.inst_type != InstructionType::Write || inst.access_size as usize != T::size() {
        return Err(Status::NOT_SUPPORTED);
    }
    *value = get_inst_val::<T>(inst, vcpu);
    Ok(())
}

/// Emulates `TEST inst_val, value` on 8-bit operands, where `inst_val` is
/// what the caller takes the operand of `inst` to be: the status bits of the
/// flags word become those of `inst_val & value`, all other bits are kept.
/// Fails with `NOT_SUPPORTED`, changing nothing, unless `inst` is an 8-bit
/// test whose operand is `inst_val`.
pub fn inst_test8(
    inst: &Instruction,
    inst_val: u8,
    value: u8,
    vcpu: &mut ZxVcpuState,
) -> (r: Result<(), Status>)
    requires
        inst.fits(*old(vcpu)),
    ensures
        r is Ok <==> inst.matches::<u8>(InstructionType::Test)
            && inst.operand_bits::<u8>(*old(vcpu)) == inst_val as u64,
        r is Ok ==> final(vcpu).flags == merge_status(
            old(vcpu).flags,
            status_flags((inst_val & value) as u64, 1),
        ),
        r is Err ==> r == Err::<(), Status>(Status::NOT_SUPPORTED),
        r is Err ==> final(vcpu).flags == old(vcpu).flags,
        final(vcpu).regs@ == old(vcpu).regs@,
{
    if inst.inst_type != InstructionType::Test || inst.access_size != 1 {
        return Err(Status::NOT_SUPPORTED);
    }
    let current: u8 = get_inst_val(inst, vcpu);
    if current != inst_val {
        return Err(Status::NOT_SUPPORTED);
    }
    let status = x86_flags_for_test8(inst_val, value);
    vcpu.flags = (vcpu.flags & !X86_FLAGS_STATUS) | status as u64;
    Ok(())
}

/// Emulates `OR value, inst_val`, where `inst_val` is what the caller takes
/// the operand of `inst` to be: `value` becomes `inst_val | value`, and the
/// status bits of the flags word become those of that result, all other bits
/// kept. Fails with `NOT_SUPPORTED`, changing nothing, unless `inst` is an OR
/// of the width of `T` whose operand is `inst_val`.
pub fn inst_or<T: Operand>(
    inst: &Instruction,
    inst_val: T,
    value: &mut T,
    vcpu: &mut ZxVcpuState,
) -> (r: Result<(), Status>)
    requires
        inst.fits(*old(vcpu)),
    ensures
        r is Ok <==> inst.matches::<T>(InstructionType::LogicalOr)
            && inst.operand_bits::<T>(*old(vcpu)) == inst_val.bits(),
        r is Ok ==> final(value).bits() == inst_val.bits() | old(value).bits(),
        r is Ok ==> final(vcpu).flags == merge_status(
            old(vcpu).flags,
            status_flags(final(value).bits(), T::width()),
        ),
        r is Err ==> r == Err::<(), Status>(Status::NOT_SUPPORTED),
        r is Err ==> *final(value) == *old(value) && final(vcpu).flags == old(vcpu).flags,
        final(vcpu).regs@ == old(vcpu).regs@,
{
    if inst.inst_type != InstructionType::LogicalOr || inst.access_size as usize != T::size() {
        return Err(Status::NOT_SUPPORTED);
    }
    let current = get_inst_val::<T>(inst, vcpu);
    if current.to_u64() != inst_val.to_u64() {
        return Err(Status::NOT_SUPPORTED);
    }
    let status = x86_simulate_or(inst_val, value);
    vcpu.flags = (vcpu.flags & !X86_FLAGS_STATUS) | status as u64;
    Ok(())
}

/// Reading the operand is repeatable: two reads at one width from the same
/// instruction and vCPU state give the same value.
pub proof fn lemma_get_inst_val_repeatable<T: Operand>(
    inst: Instruction,
    vcpu: ZxVcpuState,
    first: T,
    second: T,
)
    requires
        first.bits() == inst.operand_bits::<T>(vcpu),
        second.bits() == inst.operand_bits::<T>(vcpu),
    ensures
        first == second,
{
    first.lemma_bits_injective(second);
}

} // verus!
