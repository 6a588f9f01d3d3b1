use vstd::prelude::*;

use crate::errors::AccessError;
use crate::memory::{read_memory, write_memory};
use crate::port::OsPort;
use crate::process::ProcessItem;

verus! {

/// Fixed, build-specific virtual address where the target stores its module
/// base pointer.
pub const MODULE_BASE_ADDR: u32 = 0x007A5FEC;

/// Offset from the module base to the slot that holds the address of the
/// live resource record.
pub const RECORD_PTR_OFFSET: u32 = 0xA8;

/// Width of every pointer and field this decoder touches.
pub const FIELD_BYTES: u32 = 4;

/// Byte offset of the food field inside the resource record.
pub const FOOD_OFFSET: u32 = 0;

/// Byte offset of the wood field inside the resource record.
pub const WOOD_OFFSET: u32 = 4;

/// Byte offset of the stone field inside the resource record.
pub const STONE_OFFSET: u32 = 8;

/// Byte offset of the gold field inside the resource record.
pub const GOLD_OFFSET: u32 = 12;

/// Byte offset of the population headroom field inside the resource record.
pub const LEAVE_POPULATION_OFFSET: u32 = 16;

/// Byte offset of the current population field inside the resource record.
pub const CURRENT_POPULATION_OFFSET: u32 = 44;

/// IEEE-754 single-precision bit pattern of the fixed high value written to
/// the four resource fields.
pub const RESOURCE_OVERRIDE_BITS: u32 = 0x47AFC780;

/// Bit pattern of the fixed population headroom override. A game-specific
/// magic number, preserved as configuration.
pub const LEAVE_POPULATION_OVERRIDE_BITS: u32 = 0x43340000;

/// Bit pattern of the fixed current population override. A game-specific
/// magic number, preserved as configuration.
pub const CURRENT_POPULATION_OVERRIDE_BITS: u32 = 0x42A00000;

/// One decoded snapshot of the target's resource state, constructed fresh on
/// every poll and never mutated.
///
/// The six numeric fields hold the raw 32-bit patterns exactly as the target
/// process stores them (the target interprets them as single-precision
/// floats). `is_running == false` means the target process is alive but no
/// match state exists yet; all numeric fields are then zero.
#[derive(Clone, Copy, Debug, PartialEq, Eq, Structural)]
pub struct GameInfo {
    pub pid: u32,
    pub is_running: bool,
    pub food: u32,
    pub wood: u32,
    pub stone: u32,
    pub gold: u32,
    pub leave_population: u32,
    pub current_population: u32,
}

/// The snapshot reported while the target has not loaded a match: not
/// running, every numeric field zero.
pub open spec fn spec_not_running(pid: u32) -> GameInfo {
    GameInfo {
        pid,
        is_running: false,
        food: 0,
        wood: 0,
        stone: 0,
        gold: 0,
        leave_population: 0,
        current_population: 0,
    }
}

/// Executable counterpart of [`spec_not_running`].
pub fn not_running(pid: u32) -> (r: GameInfo)
    ensures
        r == spec_not_running(pid),
{
    GameInfo {
        pid,
        is_running: false,
        food: 0,
        wood: 0,
        stone: 0,
        gold: 0,
        leave_population: 0,
        current_population: 0,
    }
}

impl Default for GameInfo {
    fn default() -> (r: GameInfo)
        ensures
            r == spec_not_running(0),
    {
        not_running(0)
    }
}

/// Address of the slot that stores the record address, for a given module
/// base. Address arithmetic wraps around the 32-bit address space.
pub open spec fn ptr_slot_addr(base: u32) -> u32 {
    base.wrapping_add(RECORD_PTR_OFFSET)
}

/// Address of one record field, for a given record address and field offset.
pub open spec fn field_addr(record: u32, offset: u32) -> u32 {
    record.wrapping_add(offset)
}

/// The module base pointer a memory image stores.
pub open spec fn spec_module_base(mem: Map<u32, u32>) -> u32 {
    mem[MODULE_BASE_ADDR]
}

/// The record address a memory image stores at the end of the pointer chain.
pub open spec fn spec_record_addr(mem: Map<u32, u32>) -> u32 {
    mem[ptr_slot_addr(spec_module_base(mem))]
}

/// Whether the two-level pointer chain resolves: both the module base and the
/// record address are non-zero. Before a match starts, one of them is zero.
pub open spec fn spec_chain_resolved(mem: Map<u32, u32>) -> bool {
    spec_module_base(mem) != 0 && spec_record_addr(mem) != 0
}

/// What one decode of a memory image yields: the not-running snapshot while
/// the chain is unresolved, otherwise the six words the record stores at the
/// fixed field offsets.
pub open spec fn spec_snapshot(mem: Map<u32, u32>, pid: u32) -> GameInfo {
    if !spec_chain_resolved(mem) {
        spec_not_running(pid)
    } else {
        let record = spec_record_addr(mem);
        GameInfo {
            pid,
            is_running: true,
            food: mem[field_addr(record, FOOD_OFFSET)],
            wood: mem[field_addr(record, WOOD_OFFSET)],
            stone: mem[field_addr(record, STONE_OFFSET)],
            gold: mem[field_addr(record, GOLD_OFFSET)],
            leave_population: mem[field_addr(record, LEAVE_POPULATION_OFFSET)],
            current_population: mem[field_addr(record, CURRENT_POPULATION_OFFSET)],
        }
    }
}

/// The memory image after one encode of the override pattern: the four
/// resource fields set to the fixed high value and the two population fields
/// set to their override constants, at the addresses the pointer chain of
/// `mem` designates.
pub open spec fn spec_encoded(mem: Map<u32, u32>) -> Map<u32, u32> {
    let record = spec_record_addr(mem);
    mem.insert(field_addr(record, FOOD_OFFSET), RESOURCE_OVERRIDE_BITS).insert(
        field_addr(record, WOOD_OFFSET),
        RESOURCE_OVERRIDE_BITS,
    ).insert(field_addr(record, STONE_OFFSET), RESOURCE_OVERRIDE_BITS).insert(
        field_addr(record, GOLD_OFFSET),
        RESOURCE_OVERRIDE_BITS,
    ).insert(field_addr(record, LEAVE_POPULATION_OFFSET), LEAVE_POPULATION_OVERRIDE_BITS).insert(
        field_addr(record, CURRENT_POPULATION_OFFSET),
        CURRENT_POPULATION_OVERRIDE_BITS,
    )
}

/// The field offset the `k`-th override write targets; the writes are issued
/// in this fixed order.
pub open spec fn override_offset(k: int) -> u32 {
    if k == 0 {
        FOOD_OFFSET
    } else if k == 1 {
        WOOD_OFFSET
    } else if k == 2 {
        STONE_OFFSET
    } else if k == 3 {
        GOLD_OFFSET
    } else if k == 4 {
        LEAVE_POPULATION_OFFSET
    } else {
        CURRENT_POPULATION_OFFSET
    }
}

/// The value the `k`-th override write stores.
pub open spec fn override_bits(k: int) -> u32 {
    if k < 4 {
        RESOURCE_OVERRIDE_BITS
    } else if k == 4 {
        LEAVE_POPULATION_OVERRIDE_BITS
    } else {
        CURRENT_POPULATION_OVERRIDE_BITS
    }
}

/// The memory image after the first `k` of the six override writes of an
/// encode of `mem`.
pub open spec fn spec_encoded_prefix(mem: Map<u32, u32>, k: int) -> Map<u32, u32>
    decreases k,
{
    if k <= 0 {
        mem
    } else {
        spec_encoded_prefix(mem, k - 1).insert(
            field_addr(spec_record_addr(mem), override_offset(k - 1)),
            override_bits(k - 1),
        )
    }
}

/// Relation between the port before and after a failed encode: exactly the
/// first `k` override writes were applied, and at most one further boundary
/// write — the failing one, which changed nothing — was issued. No write
/// beyond the failing access is ever attempted.
pub open spec fn encode_failure_state(
    pre_mem: Map<u32, u32>,
    pre_writes: nat,
    post_mem: Map<u32, u32>,
    post_writes: nat,
    k: int,
) -> bool {
    &&& 0 <= k < 6
    &&& post_mem == spec_encoded_prefix(pre_mem, k)
    &&& (post_writes == pre_writes + k || post_writes == pre_writes + k + 1)
}

/// Law: the six override writes together produce exactly [`spec_encoded`].
pub proof fn lemma_encoded_prefix_full(mem: Map<u32, u32>)
    ensures
        spec_encoded_prefix(mem, 6) == spec_encoded(mem),
{
    reveal_with_fuel(spec_encoded_prefix, 7);
}

/// Law: while the pointer chain is unresolved — the module base or the record
/// address reads as zero — the decoded snapshot is the not-running snapshot:
/// `is_running` is false and every numeric field is zero.
pub proof fn lemma_snapshot_unresolved(mem: Map<u32, u32>, pid: u32)
    requires
        !spec_chain_resolved(mem),
    ensures
        spec_snapshot(mem, pid) == spec_not_running(pid),
        !spec_snapshot(mem, pid).is_running,
{
}

/// Law: while the pointer chain resolves, the decoded snapshot is running and
/// its six fields are exactly the words the record stores, whatever they are.
pub proof fn lemma_snapshot_resolved(mem: Map<u32, u32>, pid: u32)
    requires
        spec_chain_resolved(mem),
    ensures
        ({
            let record = spec_record_addr(mem);
            let info = spec_snapshot(mem, pid);
            &&& info.is_running
            &&& info.pid == pid
            &&& info.food == mem[field_addr(record, FOOD_OFFSET)]
            &&& info.wood == mem[field_addr(record, WOOD_OFFSET)]
            &&& info.stone == mem[field_addr(record, STONE_OFFSET)]
            &&& info.gold == mem[field_addr(record, GOLD_OFFSET)]
            &&& info.leave_population == mem[field_addr(record, LEAVE_POPULATION_OFFSET)]
            &&& info.current_population == mem[field_addr(record, CURRENT_POPULATION_OFFSET)]
        }),
{
}

/// Wrapped addition by a fixed base is injective in the offset, so two
/// distinct field offsets never designate the same address.
pub proof fn lemma_field_addr_inj(record: u32, x: u32, y: u32)
    requires
        x != y,
    ensures
        field_addr(record, x) != field_addr(record, y),
{
}

/// Law: after an encode of a resolved memory image, the four resource fields
/// hold the fixed high value and the two population fields hold their
/// override constants.
pub proof fn lemma_encoded_fields(mem: Map<u32, u32>)
    requires
        spec_chain_resolved(mem),
    ensures
        ({
            let record = spec_record_addr(mem);
            let enc = spec_encoded(mem);
            &&& enc.dom().contains(field_addr(record, FOOD_OFFSET))
            &&& enc.dom().contains(field_addr(record, WOOD_OFFSET))
            &&& enc.dom().contains(field_addr(record, STONE_OFFSET))
            &&& enc.dom().contains(field_addr(record, GOLD_OFFSET))
            &&& enc.dom().contains(field_addr(record, LEAVE_POPULATION_OFFSET))
            &&& enc.dom().contains(field_addr(record, CURRENT_POPULATION_OFFSET))
            &&& enc[field_addr(record, FOOD_OFFSET)] == RESOURCE_OVERRIDE_BITS
            &&& enc[field_addr(record, WOOD_OFFSET)] == RESOURCE_OVERRIDE_BITS
            &&& enc[field_addr(record, STONE_OFFSET)] == RESOURCE_OVERRIDE_BITS
            &&& enc[field_addr(record, GOLD_OFFSET)] == RESOURCE_OVERRIDE_BITS
            &&& enc[field_addr(record, LEAVE_POPULATION_OFFSET)]
                == LEAVE_POPULATION_OVERRIDE_BITS
            &&& enc[field_addr(record, CURRENT_POPULATION_OFFSET)]
                == CURRENT_POPULATION_OVERRIDE_BITS
        }),
{
    let record = spec_record_addr(mem);
    lemma_field_addr_inj(record, FOOD_OFFSET, WOOD_OFFSET);
    lemma_field_addr_inj(record, FOOD_OFFSET, STONE_OFFSET);
    lemma_field_addr_inj(record, FOOD_OFFSET, GOLD_OFFSET);
    lemma_field_addr_inj(record, FOOD_OFFSET, LEAVE_POPULATION_OFFSET);
    lemma_field_addr_inj(record, FOOD_OFFSET, CURRENT_POPULATION_OFFSET);
    lemma_field_addr_inj(record, WOOD_OFFSET, STONE_OFFSET);
    lemma_field_addr_inj(record, WOOD_OFFSET, GOLD_OFFSET);
    lemma_field_addr_inj(record, WOOD_OFFSET, LEAVE_POPULATION_OFFSET);
    lemma_field_addr_inj(record, WOOD_OFFSET, CURRENT_POPULATION_OFFSET);
    lemma_field_addr_inj(record, STONE_OFFSET, GOLD_OFFSET);
    lemma_field_addr_inj(record, STONE_OFFSET, LEAVE_POPULATION_OFFSET);
    lemma_field_addr_inj(record, STONE_OFFSET, CURRENT_POPULATION_OFFSET);
    lemma_field_addr_inj(record, GOLD_OFFSET, LEAVE_POPULATION_OFFSET);
    lemma_field_addr_inj(record, GOLD_OFFSET, CURRENT_POPULATION_OFFSET);
    lemma_field_addr_inj(record, LEAVE_POPULATION_OFFSET, CURRENT_POPULATION_OFFSET);
}

/// Law: a decode that follows an encode observes exactly the override
/// pattern, provided the record fields do not alias the pointer chain itself
/// (an image where the record overlaps its own locating pointers is
/// degenerate and excluded).
pub proof fn lemma_decode_after_encode(mem: Map<u32, u32>, pid: u32)
    requires
        spec_chain_resolved(mem),
        field_addr(spec_record_addr(mem), FOOD_OFFSET) != MODULE_BASE_ADDR,
        field_addr(spec_record_addr(mem), WOOD_OFFSET) != MODULE_BASE_ADDR,
        field_addr(spec_record_addr(mem), STONE_OFFSET) != MODULE_BASE_ADDR,
        field_addr(spec_record_addr(mem), GOLD_OFFSET) != MODULE_BASE_ADDR,
        field_addr(spec_record_addr(mem), LEAVE_POPULATION_OFFSET) != MODULE_BASE_ADDR,
        field_addr(spec_record_addr(mem), CURRENT_POPULATION_OFFSET) != MODULE_BASE_ADDR,
        field_addr(spec_record_addr(mem), FOOD_OFFSET) != ptr_slot_addr(spec_module_base(mem)),
        field_addr(spec_record_addr(mem), WOOD_OFFSET) != ptr_slot_addr(spec_module_base(mem)),
        field_addr(spec_record_addr(mem), STONE_OFFSET) != ptr_slot_addr(spec_module_base(mem)),
        field_addr(spec_record_addr(mem), GOLD_OFFSET) != ptr_slot_addr(spec_module_base(mem)),
        field_addr(spec_record_addr(mem), LEAVE_POPULATION_OFFSET) != ptr_slot_addr(
            spec_module_base(mem),
        ),
        field_addr(spec_record_addr(mem), CURRENT_POPULATION_OFFSET) != ptr_slot_addr(
            spec_module_base(mem),
        ),
    ensures
        spec_snapshot(spec_encoded(mem), pid) == (GameInfo {
            pid,
            is_running: true,
            food: RESOURCE_OVERRIDE_BITS,
            wood: RESOURCE_OVERRIDE_BITS,
            stone: RESOURCE_OVERRIDE_BITS,
            gold: RESOURCE_OVERRIDE_BITS,
            leave_population: LEAVE_POPULATION_OVERRIDE_BITS,
            current_population: CURRENT_POPULATION_OVERRIDE_BITS,
        }),
{
    let enc = spec_encoded(mem);
    assert(spec_module_base(enc) == spec_module_base(mem));
    assert(spec_record_addr(enc) == spec_record_addr(mem));
    lemma_encoded_fields(mem);
}

/// Walk the pointer chain and decode one snapshot of the target's resource
/// state.
///
/// A successful decode returns exactly [`spec_snapshot`] of the port's memory
/// model: the not-running snapshot when either pointer is zero — in which case
/// the six field reads are never attempted (one boundary read for a zero
/// module base, two for a zero record address) — and the six record fields
/// with `is_running` set otherwise (eight boundary reads in all). Any
/// boundary failure propagates as a fatal access error, never as a
/// not-running snapshot.
pub fn decode_snapshot<P: OsPort>(port: &mut P, handle: u32, pid: u32) -> (r: Result<
    GameInfo,
    AccessError,
>)
    ensures
        final(port).mem() == old(port).mem(),
        final(port).write_calls() == old(port).write_calls(),
        final(port).enum_calls() == old(port).enum_calls(),
        r matches Ok(info) ==> info == spec_snapshot(final(port).mem(), pid),
        r matches Ok(info) ==> final(port).mem().dom().contains(MODULE_BASE_ADDR),
        (r matches Ok(info) && spec_module_base(final(port).mem()) == 0) ==> final(port).read_calls() == old(port).read_calls() + 1,
        (r matches Ok(info) && spec_module_base(final(port).mem()) != 0 && !spec_chain_resolved(
            final(port).mem(),
        )) ==> final(port).read_calls() == old(port).read_calls() + 2,
        (r matches Ok(info) && spec_chain_resolved(final(port).mem())) ==> final(port).read_calls()
            == old(port).read_calls() + 8,
        final(port).close_calls() == old(port).close_calls(),
        final(port).open_handles() == old(port).open_handles(),
        r matches Err(_) ==> old(port).read_calls() + 1 <= final(port).read_calls() <= old(port).read_calls() + 8,
        r matches Err(e) ==> (e matches AccessError::SizeMismatch { .. } || e
            matches AccessError::OsError { .. }),
{
    let base = match read_memory(port, handle, MODULE_BASE_ADDR, FIELD_BYTES) {
        Ok(v) => v,
        Err(e) => {
            return Err(e);
        },
    };
    if base == 0 {
        return Ok(not_running(pid));
    }
    let slot = base.wrapping_add(RECORD_PTR_OFFSET);
    let record = match read_memory(port, handle, slot, FIELD_BYTES) {
        Ok(v) => v,
        Err(e) => {
            return Err(e);
        },
    };
    if record == 0 {
        return Ok(not_running(pid));
    }
    let food = match read_memory(port, handle, record.wrapping_add(FOOD_OFFSET), FIELD_BYTES) {
        Ok(v) => v,
        Err(e) => {
            return Err(e);
        },
    };
    let wood = match read_memory(port, handle, record.wrapping_add(WOOD_OFFSET), FIELD_BYTES) {
        Ok(v) => v,
        Err(e) => {
            return Err(e);
        },
    };
    let stone = match read_memory(port, handle, record.wrapping_add(STONE_OFFSET), FIELD_BYTES) {
        Ok(v) => v,
        Err(e) => {
            return Err(e);
        },
    };
    let gold = match read_memory(port, handle, record.wrapping_add(GOLD_OFFSET), FIELD_BYTES) {
        Ok(v) => v,
        Err(e) => {
            return Err(e);
        },
    };
    let leave_population = match read_memory(
        port,
        handle,
        record.wrapping_add(LEAVE_POPULATION_OFFSET),
        FIELD_BYTES,
    ) {
        Ok(v) => v,
        Err(e) => {
            return Err(e);
        },
    };
    let current_population = match read_memory(
        port,
        handle,
        record.wrapping_add(CURRENT_POPULATION_OFFSET),
        FIELD_BYTES,
    ) {
        Ok(v) => v,
        Err(e) => {
            return Err(e);
        },
    };
    Ok(
        GameInfo {
            pid,
            is_running: true,
            food,
            wood,
            stone,
            gold,
            leave_population,
            current_population,
        },
    )
}

/// Re-walk the pointer chain and write the fixed override pattern into the
/// six record fields.
///
/// The chain is re-derived on every call — the target reallocates its record
/// between matches, so addresses are never cached. When either pointer is
/// zero the write is skipped silently: success, with no boundary write
/// issued. Otherwise the port's memory model afterwards is exactly
/// [`spec_encoded`] of the image the call started from, written with six
/// boundary writes. A boundary failure at any step is fatal for the call.
pub fn encode_override<P: OsPort>(port: &mut P, handle: u32) -> (r: Result<(), AccessError>)
    ensures
        final(port).enum_calls() == old(port).enum_calls(),
        final(port).close_calls() == old(port).close_calls(),
        final(port).open_handles() == old(port).open_handles(),
        old(port).read_calls() + 1 <= final(port).read_calls() <= old(port).read_calls() + 2,
        r matches Err(_) ==> exists|k: int|
            encode_failure_state(
                old(port).mem(),
                old(port).write_calls(),
                final(port).mem(),
                final(port).write_calls(),
                k,
            ),
        (r matches Ok(_) && !spec_chain_resolved(old(port).mem())) ==> final(port).mem() == old(port).mem() && final(port).write_calls() == old(port).write_calls(),
        (r matches Ok(_) && spec_chain_resolved(old(port).mem())) ==> final(port).mem()
            == spec_encoded(old(port).mem()) && final(port).write_calls() == old(port).write_calls() + 6,
        r matches Err(e) ==> (e matches AccessError::SizeMismatch { .. } || e
            matches AccessError::OsError { .. }),
{
    let base = match read_memory(port, handle, MODULE_BASE_ADDR, FIELD_BYTES) {
        Ok(v) => v,
        Err(e) => {
            proof {
                assert(encode_failure_state(
                    old(port).mem(),
                    old(port).write_calls(),
                    port.mem(),
                    port.write_calls(),
                    0,
                ));
            }
            return Err(e);
        },
    };
    if base == 0 {
        return Ok(());
    }
    let slot = base.wrapping_add(RECORD_PTR_OFFSET);
    let record = match read_memory(port, handle, slot, FIELD_BYTES) {
        Ok(v) => v,
        Err(e) => {
            proof {
                assert(encode_failure_state(
                    old(port).mem(),
                    old(port).write_calls(),
                    port.mem(),
                    port.write_calls(),
                    0,
                ));
            }
            return Err(e);
        },
    };
    if record == 0 {
        return Ok(());
    }
    match write_memory(
        port,
        handle,
        record.wrapping_add(FOOD_OFFSET),
        RESOURCE_OVERRIDE_BITS,
        FIELD_BYTES,
    ) {
        Ok(_) => {
            proof {
                assert(spec_encoded_prefix(old(port).mem(), 0) == old(port).mem());
                assert(port.mem() == spec_encoded_prefix(old(port).mem(), 1));
            }
        },
        Err(e) => {
            proof {
                assert(encode_failure_state(
                    old(port).mem(),
                    old(port).write_calls(),
                    port.mem(),
                    port.write_calls(),
                    0,
                ));
            }
            return Err(e);
        },
    }
    match write_memory(
        port,
        handle,
        record.wrapping_add(WOOD_OFFSET),
        RESOURCE_OVERRIDE_BITS,
        FIELD_BYTES,
    ) {
        Ok(_) => {
            proof {
                assert(port.mem() == spec_encoded_prefix(old(port).mem(), 2));
            }
        },
        Err(e) => {
            proof {
                assert(encode_failure_state(
                    old(port).mem(),
                    old(port).write_calls(),
                    port.mem(),
                    port.write_calls(),
                    1,
                ));
            }
            return Err(e);
        },
    }
    match write_memory(
        port,
        handle,
        record.wrapping_add(STONE_OFFSET),
        RESOURCE_OVERRIDE_BITS,
        FIELD_BYTES,
    ) {
        Ok(_) => {
            proof {
                assert(port.mem() == spec_encoded_prefix(old(port).mem(), 3));
            }
        },
        Err(e) => {
            proof {
                assert(encode_failure_state(
                    old(port).mem(),
                    old(port).write_calls(),
                    port.mem(),
                    port.write_calls(),
                    2,
                ));
            }
            return Err(e);
        },
    }
    match write_memory(
        port,
        handle,
        record.wrapping_add(GOLD_OFFSET),
        RESOURCE_OVERRIDE_BITS,
        FIELD_BYTES,
    ) {
        Ok(_) => {
            proof {
                assert(port.mem() == spec_encoded_prefix(old(port).mem(), 4));
            }
        },
        Err(e) => {
            proof {
                assert(encode_failure_state(
                    old(port).mem(),
                    old(port).write_calls(),
                    port.mem(),
                    port.write_calls(),
                    3,
                ));
            }
            return Err(e);
        },
    }
    match write_memory(
        port,
        handle,
        record.wrapping_add(LEAVE_POPULATION_OFFSET),
        LEAVE_POPULATION_OVERRIDE_BITS,
        FIELD_BYTES,
    ) {
        Ok(_) => {
            proof {
                assert(port.mem() == spec_encoded_prefix(old(port).mem(), 5));
            }
        },
        Err(e) => {
            proof {
                assert(encode_failure_state(
                    old(port).mem(),
                    old(port).write_calls(),
                    port.mem(),
                    port.write_calls(),
                    4,
                ));
            }
            return Err(e);
        },
    }
    match write_memory(
        port,
        handle,
        record.wrapping_add(CURRENT_POPULATION_OFFSET),
        CURRENT_POPULATION_OVERRIDE_BITS,
        FIELD_BYTES,
    ) {
        Ok(_) => {
            proof {
                assert(port.mem() == spec_encoded_prefix(old(port).mem(), 6));
                lemma_encoded_prefix_full(old(port).mem());
            }
        },
        Err(e) => {
            proof {
                assert(encode_failure_state(
                    old(port).mem(),
                    old(port).write_calls(),
                    port.mem(),
                    port.write_calls(),
                    5,
                ));
            }
            return Err(e);
        },
    }
    Ok(())
}

/// Owner of the cached target process record; the decoder and encoder borrow
/// its handle for the duration of one call.
pub struct WinApi {
    pub game_process: Option<ProcessItem>,
}

impl WinApi {
    /// The cached record, when present, holds a live handle opened with
    /// elevated rights.
    pub open spec fn wf(&self) -> bool {
        self.game_process matches Some(p) ==> p.wf() && p.level is Elevated
    }

    /// A fresh core with no cached target process.
    pub fn new() -> (r: WinApi)
        ensures
            r.game_process is None,
            r.wf(),
    {
        WinApi { game_process: None }
    }

    /// Elevate `p` to full read/write rights and cache it as the target.
    /// On elevation failure the cache is left as it was and the failure is
    /// surfaced.
    pub fn set_game_process<P: OsPort>(&mut self, port: &mut P, p: ProcessItem) -> (r: Result<
        (),
        AccessError,
    >)
        requires
            old(self).wf(),
            p.wf(),
        ensures
            final(port).mem() == old(port).mem(),
            final(port).read_calls() == old(port).read_calls(),
            final(port).write_calls() == old(port).write_calls(),
            final(port).enum_calls() == old(port).enum_calls(),
            final(self).wf(),
            r matches Ok(_) ==> final(self).game_process matches Some(q) && q.pid == p.pid
                && q.name == p.name && q.level is Elevated && q.wf(),
            r matches Err(e) ==> e == (AccessError::OpenProcessFailed { pid: p.pid }) && final(self).game_process == old(self).game_process,
            (r matches Ok(_) && p.handle == 0) ==> (final(self).game_process matches Some(q)
                && final(port).open_handles() == old(port).open_handles().insert(q.handle)
                && final(port).close_calls() == old(port).close_calls()),
            (r matches Err(_) && p.handle == 0) ==> final(port).open_handles() == old(port).open_handles() && final(port).close_calls() == old(port).close_calls(),
    {
        let mut q = p;
        match q.inject(port) {
            Ok(_) => {
                self.game_process = Some(q);
                Ok(())
            },
            Err(e) => Err(e),
        }
    }

    /// Decode one snapshot of the cached target process.
    ///
    /// With no cached target this is a cheap success: the default not-running
    /// snapshot, no boundary access. Otherwise a successful decode is exactly
    /// [`spec_snapshot`] of the port's memory model for the cached process,
    /// and any access failure discards the cached record — the target must be
    /// rediscovered — and is surfaced as the poll's result.
    pub fn read_game_info<P: OsPort>(&mut self, port: &mut P) -> (r: Result<GameInfo, AccessError>)
        requires
            old(self).wf(),
        ensures
            final(self).wf(),
            final(port).mem() == old(port).mem(),
            final(port).write_calls() == old(port).write_calls(),
            final(port).enum_calls() == old(port).enum_calls(),
            old(self).game_process is None ==> r == Ok::<GameInfo, AccessError>(spec_not_running(0))
                && *final(self) == *old(self) && final(port).read_calls() == old(port).read_calls(),
            old(self).game_process matches Some(p) ==> (r matches Ok(info) ==> info
                == spec_snapshot(final(port).mem(), p.pid) && *final(self) == *old(self)),
            r matches Ok(_) ==> final(port).close_calls() == old(port).close_calls()
                && final(port).open_handles() == old(port).open_handles(),
            (r matches Ok(_) && old(self).game_process is Some && spec_module_base(
                final(port).mem(),
            ) == 0) ==> final(port).read_calls() == old(port).read_calls() + 1,
            (r matches Ok(_) && old(self).game_process is Some && spec_module_base(
                final(port).mem(),
            ) != 0 && !spec_chain_resolved(final(port).mem())) ==> final(port).read_calls() == old(port).read_calls() + 2,
            (r matches Ok(_) && old(self).game_process is Some && spec_chain_resolved(
                final(port).mem(),
            )) ==> final(port).read_calls() == old(port).read_calls() + 8,
            r matches Err(_) ==> old(port).read_calls() + 1 <= final(port).read_calls() <= old(port).read_calls() + 8,
            r matches Err(_) ==> final(port).close_calls() == old(port).close_calls() + 1,
            old(self).game_process matches Some(p) ==> (r matches Err(_) ==> final(port).open_handles() == old(port).open_handles().remove(p.handle)),
            r matches Err(e) ==> final(self).game_process is None && (e
                matches AccessError::SizeMismatch { .. } || e matches AccessError::OsError { .. }),
    {
        let handle: u32;
        let pid: u32;
        match &self.game_process {
            None => {
                return Ok(not_running(0));
            },
            Some(p) => {
                handle = p.handle;
                pid = p.pid;
            },
        }
        match decode_snapshot(port, handle, pid) {
            Ok(info) => Ok(info),
            Err(e) => {
                match &mut self.game_process {
                    Some(p) => p.close(port),
                    None => {},
                }
                self.game_process = None;
                Err(e)
            },
        }
    }

    /// Write the override pattern into the cached target process.
    ///
    /// With no cached target this is a no-op success that touches the
    /// boundary not at all. A skipped write (unresolved pointer chain) is
    /// also a success that issues no boundary write. Any access failure
    /// releases and discards the cached record and is surfaced; the writes
    /// already applied are exactly a prefix of the override sequence and no
    /// write beyond the failing access is attempted.
    pub fn write_game_info<P: OsPort>(&mut self, port: &mut P) -> (r: Result<(), AccessError>)
        requires
            old(self).wf(),
        ensures
            final(self).wf(),
            final(port).enum_calls() == old(port).enum_calls(),
            old(self).game_process is None ==> r == Ok::<(), AccessError>(()) && *final(self)
                == *old(self) && final(port).mem() == old(port).mem() && final(port).write_calls()
                == old(port).write_calls() && final(port).read_calls() == old(port).read_calls(),
            old(self).game_process is Some ==> old(port).read_calls() + 1 <= final(port).read_calls() <= old(port).read_calls() + 2,
            r matches Ok(_) ==> final(port).close_calls() == old(port).close_calls()
                && final(port).open_handles() == old(port).open_handles(),
            r matches Err(_) ==> final(port).close_calls() == old(port).close_calls() + 1,
            old(self).game_process matches Some(p) ==> (r matches Err(_) ==> final(port).open_handles() == old(port).open_handles().remove(p.handle)),
            r matches Err(_) ==> exists|k: int|
                encode_failure_state(
                    old(port).mem(),
                    old(port).write_calls(),
                    final(port).mem(),
                    final(port).write_calls(),
                    k,
                ),
            (r matches Ok(_) && !spec_chain_resolved(old(port).mem())) ==> final(port).mem() == old(port).mem() && final(port).write_calls() == old(port).write_calls() && *final(self) == *old(self),
            (r matches Ok(_) && old(self).game_process is Some && spec_chain_resolved(
                old(port).mem(),
            )) ==> final(port).mem() == spec_encoded(old(port).mem()) && final(port).write_calls()
                == old(port).write_calls() + 6 && *final(self) == *old(self),
            r matches Err(e) ==> final(self).game_process is None && (e
                matches AccessError::SizeMismatch { .. } || e matches AccessError::OsError { .. }),
    {
        let handle: u32;
        match &self.game_process {
            None => {
                return Ok(());
            },
            Some(p) => {
                handle = p.handle;
            },
        }
        match encode_override(port, handle) {
            Ok(_) => Ok(()),
            Err(e) => {
                match &mut self.game_process {
                    Some(p) => p.close(port),
                    None => {},
                }
                self.game_process = None;
                Err(e)
            },
        }
    }
}

} // verus!
