//! Transfers to and from the DMP memory, which is reached 256-byte bank by bank through the
//! BANK_SEL, MEM_START_ADDR and MEM_R_W registers, in chunks of at most 16 bytes.
use vstd::prelude::*;
use crate::bus::FieldWrite;
use crate::mpu9250::{Mpu9250Error, MPU9250};
use crate::registers::RA_INT_ENABLE;

verus! {

/// The largest number of bytes moved through MEM_R_W in one transfer.
pub const DMP_MEMORY_CHUNK_SIZE: u8 = 16;

/// One transfer of a DMP memory block: `size` bytes at `address` of bank `bank`, which are the
/// bytes `offset .. offset + size` of the block.
#[derive(Clone, Copy, Debug, PartialEq, Eq)]
pub struct MemoryChunk {
    pub bank: u8,
    pub address: u8,
    pub offset: u16,
    pub size: u8,
}

/// The size of the chunk that starts at byte `offset` of a block of `data_size` bytes, at
/// `address` of its bank: 16 bytes, unless the block or the bank ends before.
pub open spec fn spec_chunk_size(offset: int, data_size: int, address: int) -> int {
    let left = data_size - offset;
    let room = 256 - address;
    if left <= 16 && left <= room {
        left
    } else if room <= 16 {
        room
    } else {
        16
    }
}

/// The number of bank boundaries a block of `data_size` bytes starting at `address` crosses
/// before its last byte.
pub open spec fn spec_bank_crossings(data_size: int, address: int) -> int {
    if data_size == 0 {
        0
    } else {
        (address + data_size - 1) / 256
    }
}

/// The bank numbers a block of `data_size` bytes at `address` of bank `bank` uses all fit in a
/// byte.
pub open spec fn spec_memory_block_fits(data_size: u16, bank: u8, address: u8) -> bool {
    bank + spec_bank_crossings(data_size as int, address as int) <= 255
}

/// `chunks` are the transfers of a block of `data_size` bytes at `address` of bank `bank`:
/// consecutive chunks in order, each as large as the rule of `spec_chunk_size` allows, each at
/// the bank and address its offset falls on.
pub open spec fn spec_memory_schedule(chunks: Seq<MemoryChunk>, data_size: u16, bank: u8, address: u8) -> bool {
    &&& (chunks.len() == 0 <==> data_size == 0)
    &&& chunks.len() > 0 ==> chunks[0].offset == 0
    &&& chunks.len() > 0 ==> chunks.last().offset + chunks.last().size == data_size
    &&& forall|k: int|
        0 <= k < chunks.len() ==> {
            let c = #[trigger] chunks[k];
            &&& c.offset < data_size
            &&& c.address as int == (address + c.offset) % 256
            &&& c.bank as int == bank + (address + c.offset) / 256
            &&& c.size as int == spec_chunk_size(c.offset as int, data_size as int, c.address as int)
        }
    &&& forall|k: int|
        0 <= k < chunks.len() - 1 ==> #[trigger] chunks[k + 1].offset == chunks[k].offset
            + chunks[k].size
}

/// Every chunk of a transfer moves between 1 and 16 bytes and stays inside its bank.
pub proof fn lemma_schedule_chunks_fit(chunks: Seq<MemoryChunk>, data_size: u16, bank: u8, address: u8)
    requires
        spec_memory_schedule(chunks, data_size, bank, address),
    ensures
        forall|k: int|
            0 <= k < chunks.len() ==> {
                let c = #[trigger] chunks[k];
                &&& 1 <= c.size <= DMP_MEMORY_CHUNK_SIZE
                &&& c.address + c.size <= 256
                &&& c.offset + c.size <= data_size
            },
{
    assert forall|k: int| 0 <= k < chunks.len() implies {
        let c = #[trigger] chunks[k];
        &&& 1 <= c.size <= DMP_MEMORY_CHUNK_SIZE
        &&& c.address + c.size <= 256
        &&& c.offset + c.size <= data_size
    } by {
        let c = chunks[k];
        assert(c.offset < data_size);
    }
}

/// The chunks of a transfer tile the block: byte `j` of the block is moved by chunk `k`
/// exactly when it lies in `offset .. offset + size` of that chunk, and every byte lies in
/// one chunk.
pub proof fn lemma_schedule_covers_block(chunks: Seq<MemoryChunk>, data_size: u16, bank: u8, address: u8, j: int)
    requires
        spec_memory_schedule(chunks, data_size, bank, address),
        0 <= j < data_size,
    ensures
        exists|k: int|
            0 <= k < chunks.len() && #[trigger] chunks[k].offset <= j < chunks[k].offset
                + chunks[k].size,
{
    lemma_cover_from(chunks, data_size, bank, address, j, chunks.len() - 1);
}

proof fn lemma_cover_from(chunks: Seq<MemoryChunk>, data_size: u16, bank: u8, address: u8, j: int, k: int)
    requires
        spec_memory_schedule(chunks, data_size, bank, address),
        0 <= j,
        0 <= k < chunks.len(),
        j < chunks[k].offset + chunks[k].size,
    ensures
        exists|i: int|
            0 <= i < chunks.len() && #[trigger] chunks[i].offset <= j < chunks[i].offset
                + chunks[i].size,
    decreases k,
{
    if chunks[k].offset <= j {
        assert(chunks[k].offset <= j < chunks[k].offset + chunks[k].size);
    } else {
        assert(k > 0);
        assert(chunks[k - 1 + 1].offset == chunks[k - 1].offset + chunks[k - 1].size);
        lemma_cover_from(chunks, data_size, bank, address, j, k - 1);
    }
}

/// The chunks of a DMP memory block, with the bytes each of them writes.
#[derive(Debug, PartialEq, Eq)]
pub struct MemoryWrite {
    pub chunks: Vec<MemoryChunk>,
    pub payloads: Vec<Vec<u8>>,
    pub verify: bool,
}

/// One command of a DMP configuration set.
#[derive(Debug, PartialEq, Eq)]
pub enum DmpConfigCommand {
    /// Write `data` to the DMP memory at `address` of bank `bank`, verifying it.
    WriteMemory { bank: u8, address: u8, data: Vec<u8> },
    /// Enable the DMP-related interrupts (INT_ENABLE gets 0x32).
    EnableDmpInterrupts,
}

/// The meaning of a `DmpConfigCommand`.
pub enum SpecDmpConfigCommand {
    WriteMemory { bank: u8, address: u8, data: Seq<u8> },
    EnableDmpInterrupts,
}

impl View for DmpConfigCommand {
    type V = SpecDmpConfigCommand;

    open spec fn view(&self) -> SpecDmpConfigCommand {
        match self {
            DmpConfigCommand::WriteMemory { bank, address, data } => SpecDmpConfigCommand::WriteMemory {
                bank: *bank,
                address: *address,
                data: data@,
            },
            DmpConfigCommand::EnableDmpInterrupts => SpecDmpConfigCommand::EnableDmpInterrupts,
        }
    }
}

/// The commands of a DMP configuration set, to be performed in order, and what the set comes
/// to after them.
#[derive(Debug, PartialEq, Eq)]
pub struct DmpConfigPlan {
    pub commands: Vec<DmpConfigCommand>,
    pub outcome: Result<(), Mpu9250Error>,
}

/// The commands of a configuration set, a string of blocks `[bank] [offset] [length]
/// [byte 0] .. [byte length - 1]`. A block of length 0 holds instead one special command byte,
/// of which only 0x01 (enable DMP interrupts) is known. The parse stops at an unknown special
/// command, or at a block that runs past the end of the data.
pub open spec fn spec_dmp_config(s: Seq<u8>) -> (Seq<SpecDmpConfigCommand>, Result<(), Mpu9250Error>)
    decreases s.len(),
{
    if s.len() == 0 {
        (seq![], Ok(()))
    } else if s.len() < 3 {
        (seq![], Err(Mpu9250Error::ConfigurationTruncated))
    } else if s[2] > 0 {
        let length = s[2] as int;
        if s.len() < 3 + length {
            (seq![], Err(Mpu9250Error::ConfigurationTruncated))
        } else {
            let rest = spec_dmp_config(s.skip(3 + length));
            (
                seq![SpecDmpConfigCommand::WriteMemory { bank: s[0], address: s[1], data: s.subrange(3, 3 + length) }]
                    + rest.0,
                rest.1,
            )
        }
    } else if s.len() < 4 {
        (seq![], Err(Mpu9250Error::ConfigurationTruncated))
    } else if s[3] == 1 {
        let rest = spec_dmp_config(s.skip(4));
        (seq![SpecDmpConfigCommand::EnableDmpInterrupts] + rest.0, rest.1)
    } else {
        (seq![], Err(Mpu9250Error::UnknownSpecialCommand))
    }
}

/// A configuration set is a string of self-delimiting blocks: after a complete set `a`, the
/// blocks of `b` parse as they would alone.
pub proof fn lemma_dmp_config_concat(a: Seq<u8>, b: Seq<u8>)
    requires
        spec_dmp_config(a).1 is Ok,
    ensures
        spec_dmp_config(a + b) == (spec_dmp_config(a).0 + spec_dmp_config(b).0, spec_dmp_config(b).1),
    decreases a.len(),
{
    if a.len() == 0 {
        assert(a + b =~= b);
        assert(seq![] + spec_dmp_config(b).0 =~= spec_dmp_config(b).0);
    } else {
        let s = a + b;
        assert(s[0] == a[0] && s[1] == a[1] && s[2] == a[2]);
        if a[2] > 0 {
            let k = 3 + a[2] as int;
            assert(s.subrange(3, k) =~= a.subrange(3, k));
            assert(s.skip(k) =~= a.skip(k) + b);
            lemma_dmp_config_concat(a.skip(k), b);
            let head = seq![SpecDmpConfigCommand::WriteMemory { bank: a[0], address: a[1], data: a.subrange(3, k) }];
            assert(head + (spec_dmp_config(a.skip(k)).0 + spec_dmp_config(b).0)
                =~= (head + spec_dmp_config(a.skip(k)).0) + spec_dmp_config(b).0);
        } else {
            assert(s[3] == a[3]);
            assert(s.skip(4) =~= a.skip(4) + b);
            lemma_dmp_config_concat(a.skip(4), b);
            let head = seq![SpecDmpConfigCommand::EnableDmpInterrupts];
            assert(head + (spec_dmp_config(a.skip(4)).0 + spec_dmp_config(b).0)
                =~= (head + spec_dmp_config(a.skip(4)).0) + spec_dmp_config(b).0);
        }
    }
}

fn memory_chunks(data_size: u16, bank: u8, address: u8) -> (chunks: Vec<MemoryChunk>)
    requires
        spec_memory_block_fits(data_size, bank, address),
    ensures
        spec_memory_schedule(chunks@, data_size, bank, address),
{
    let mut chunks: Vec<MemoryChunk> = Vec::new();
    let mut i: u16 = 0;
    let mut cur_bank: u8 = bank;
    let mut cur_addr: u8 = address;
    while i < data_size
        invariant
            i <= data_size,
            spec_memory_block_fits(data_size, bank, address),
            cur_addr as int == (address + i) % 256,
            i < data_size ==> cur_bank as int == bank + (address + i) / 256,
            chunks.len() == 0 <==> i == 0,
            chunks.len() > 0 ==> chunks@[0].offset == 0,
            chunks.len() > 0 ==> chunks@.last().offset + chunks@.last().size == i,
            forall|k: int|
                0 <= k < chunks.len() ==> {
                    let c = #[trigger] chunks@[k];
                    &&& c.offset < data_size
                    &&& c.address as int == (address + c.offset) % 256
                    &&& c.bank as int == bank + (address + c.offset) / 256
                    &&& c.size as int == spec_chunk_size(
                        c.offset as int,
                        data_size as int,
                        c.address as int,
                    )
                },
            forall|k: int|
                0 <= k < chunks.len() - 1 ==> #[trigger] chunks@[k + 1].offset == chunks@[k].offset
                    + chunks@[k].size,
        decreases data_size - i,
    {
        let room: u16 = 256 - (cur_addr as u16);
        let left: u16 = data_size - i;
        let size: u16 = if left <= 16 && left <= room {
            left
        } else if room <= 16 {
            room
        } else {
            16
        };
        let chunk = MemoryChunk { bank: cur_bank, address: cur_addr, offset: i, size: size as u8 };
        let ghost old_chunks = chunks@;
        chunks.push(chunk);
        assert(chunks@[chunks@.len() - 1] == chunk);
        assert forall|k: int| 0 <= k < chunks.len() - 1 implies #[trigger] chunks@[k + 1].offset
            == chunks@[k].offset + chunks@[k].size by {
            if k + 1 < old_chunks.len() {
                assert(chunks@[k + 1] == old_chunks[k + 1]);
                assert(chunks@[k] == old_chunks[k]);
            }
        }
        i = i + size;
        cur_addr = ((cur_addr as u16 + size) % 256) as u8;
        if i < data_size && cur_addr == 0 {
            assert((address + i) / 256 <= spec_bank_crossings(data_size as int, address as int));
            cur_bank = cur_bank + 1;
        }
    }
    chunks
}

impl MPU9250 {
    /// Whether the banks a DMP memory block of `data_size` bytes at `address` of bank `bank`
    /// spans can all be selected, bank numbers being bytes.
    pub fn memory_block_fits(data_size: u16, bank: u8, address: u8) -> (fits: bool)
        ensures
            fits == spec_memory_block_fits(data_size, bank, address),
    {
        if data_size == 0 {
            true
        } else {
            let crossings: u32 = ((address as u32) + (data_size as u32) - 1) / 256;
            (bank as u32) + crossings <= 255
        }
    }

    /// The transfers that read a DMP memory block of `data_size` bytes at `address` of bank
    /// `bank`. Before each chunk the bank and start address are selected (`set_memory_bank`
    /// with both flags off, `set_memory_start_address`); then `size` bytes are read from
    /// MEM_R_W into bytes `offset ..` of the block.
    pub fn read_memory_block(&self, data_size: u16, bank: u8, address: u8) -> (chunks: Vec<MemoryChunk>)
        requires
            spec_memory_block_fits(data_size, bank, address),
        ensures
            spec_memory_schedule(chunks@, data_size, bank, address),
    {
        memory_chunks(data_size, bank, address)
    }

    /// The transfers that write the first `data_size` bytes of `data` to the DMP memory at
    /// `address` of bank `bank`; each chunk writes its payload, the bytes of `data` at its
    /// offset. With `verify`, each chunk is read back after it is written and compared with
    /// `verify_memory_chunk`.
    pub fn write_memory_block(&self, data: &[u8], data_size: u16, bank: u8, address: u8, verify: bool) -> (w: MemoryWrite)
        requires
            data_size <= data.len(),
            spec_memory_block_fits(data_size, bank, address),
        ensures
            spec_memory_schedule(w.chunks@, data_size, bank, address),
            w.payloads.len() == w.chunks.len(),
            forall|k: int|
                0 <= k < w.chunks.len() ==> (#[trigger] w.payloads@[k])@ == data@.subrange(
                    w.chunks@[k].offset as int,
                    w.chunks@[k].offset + w.chunks@[k].size,
                ),
            w.verify == verify,
    {
        let chunks = memory_chunks(data_size, bank, address);
        let mut payloads: Vec<Vec<u8>> = Vec::new();
        let mut k: usize = 0;
        while k < chunks.len()
            invariant
                k <= chunks.len(),
                data_size <= data.len(),
                spec_memory_schedule(chunks@, data_size, bank, address),
                payloads.len() == k,
                forall|j: int|
                    0 <= j < k ==> (#[trigger] payloads@[j])@ == data@.subrange(
                        chunks@[j].offset as int,
                        chunks@[j].offset + chunks@[j].size,
                    ),
            decreases chunks.len() - k,
        {
            let c = chunks[k];
            assert(c.offset + c.size <= data_size) by {
                assert(chunks@[k as int] == c);
            }
            let start: usize = c.offset as usize;
            let end: usize = start + c.size as usize;
            let mut payload: Vec<u8> = Vec::new();
            let mut p: usize = start;
            while p < end
                invariant
                    start <= p <= end,
                    end <= data.len(),
                    payload@ == data@.subrange(start as int, p as int),
                decreases end - p,
            {
                payload.push(data[p]);
                p = p + 1;
            }
            payloads.push(payload);
            k = k + 1;
        }
        MemoryWrite { chunks, payloads, verify }
    }

    /// Parses a DMP configuration set, the first `data_size` bytes of `data` (see
    /// `spec_dmp_config` for its format), into the commands to perform in order and the
    /// outcome after them. Each memory write is to be done as by `write_memory_block` with
    /// verification.
    pub fn write_dmp_configuration_set(&self, data: &[u8], data_size: u16) -> (plan: DmpConfigPlan)
        requires
            data_size <= data.len(),
        ensures
            ({
                let expected = spec_dmp_config(data@.take(data_size as int));
                &&& plan.commands.len() == expected.0.len()
                &&& forall|k: int|
                    0 <= k < plan.commands.len() ==> (#[trigger] plan.commands@[k])@ == expected.0[k]
                &&& plan.outcome == expected.1
            }),
    {
        let ghost s = data@.take(data_size as int);
        let n: usize = data_size as usize;
        let mut commands: Vec<DmpConfigCommand> = Vec::new();
        let ghost mut done: Seq<SpecDmpConfigCommand> = seq![];
        let mut pos: usize = 0;
        assert(s.skip(0) =~= s);
        while pos < n
            invariant
                pos <= n,
                n == data_size,
                n <= data.len(),
                s == data@.take(n as int),
                commands.len() == done.len(),
                forall|k: int| 0 <= k < commands.len() ==> (#[trigger] commands@[k])@ == done[k],
                spec_dmp_config(s) == (done + spec_dmp_config(s.skip(pos as int)).0, spec_dmp_config(
                    s.skip(pos as int),
                ).1),
            decreases n - pos,
        {
            let ghost t = s.skip(pos as int);
            assert(t.len() == n - pos);
            if n - pos < 3 {
                assert(done + seq![] =~= done);
                return DmpConfigPlan { commands, outcome: Err(Mpu9250Error::ConfigurationTruncated) };
            }
            let bank = data[pos];
            let address = data[pos + 1];
            let length = data[pos + 2];
            assert(t[0] == bank && t[1] == address && t[2] == length);
            if length > 0 {
                let len: usize = length as usize;
                if n - pos - 3 < len {
                    assert(done + seq![] =~= done);
                    return DmpConfigPlan { commands, outcome: Err(Mpu9250Error::ConfigurationTruncated) };
                }
                let start: usize = pos + 3;
                let end: usize = start + len;
                let mut block: Vec<u8> = Vec::new();
                let mut p: usize = start;
                while p < end
                    invariant
                        start <= p <= end,
                        end <= n,
                        n <= data.len(),
                        block@ == data@.subrange(start as int, p as int),
                    decreases end - p,
                {
                    block.push(data[p]);
                    p = p + 1;
                }
                let ghost cmd = SpecDmpConfigCommand::WriteMemory {
                    bank,
                    address,
                    data: t.subrange(3, 3 + len as int),
                };
                assert(block@ =~= t.subrange(3, 3 + len as int));
                assert(t.skip(3 + len as int) =~= s.skip(end as int));
                let ghost rest = spec_dmp_config(s.skip(end as int));
                assert(spec_dmp_config(t) == (seq![cmd] + rest.0, rest.1));
                assert(done + (seq![cmd] + rest.0) =~= done.push(cmd) + rest.0);
                commands.push(DmpConfigCommand::WriteMemory { bank, address, data: block });
                proof {
                    done = done.push(cmd);
                }
                pos = end;
            } else {
                if n - pos < 4 {
                    assert(done + seq![] =~= done);
                    return DmpConfigPlan { commands, outcome: Err(Mpu9250Error::ConfigurationTruncated) };
                }
                let special = data[pos + 3];
                assert(t[3] == special);
                if special != 1 {
                    assert(done + seq![] =~= done);
                    return DmpConfigPlan { commands, outcome: Err(Mpu9250Error::UnknownSpecialCommand) };
                }
                let ghost cmd = SpecDmpConfigCommand::EnableDmpInterrupts;
                assert(t.skip(4) =~= s.skip(pos + 4));
                let ghost rest = spec_dmp_config(s.skip(pos + 4));
                assert(done + (seq![cmd] + rest.0) =~= done.push(cmd) + rest.0);
                commands.push(DmpConfigCommand::EnableDmpInterrupts);
                proof {
                    done = done.push(cmd);
                }
                pos = pos + 4;
            }
        }
        assert(s.skip(pos as int) =~= Seq::<u8>::empty());
        assert(done + seq![] =~= done);
        DmpConfigPlan { commands, outcome: Ok(()) }
    }

    /// The write that a `DmpConfigCommand::EnableDmpInterrupts` command performs.
    pub fn dmp_interrupts_write(&self) -> (w: FieldWrite)
        ensures
            w == self.spec_register(RA_INT_ENABLE).with_data(0x32),
    {
        self.register_write(RA_INT_ENABLE, 0x32)
    }

    /// Checks a chunk read back after writing it: a difference from what was written fails
    /// the write.
    pub fn verify_memory_chunk(written: &[u8], read_back: &[u8]) -> (r: Result<(), Mpu9250Error>)
        ensures
            r == if written@ == read_back@ {
                Ok::<(), Mpu9250Error>(())
            } else {
                Err(Mpu9250Error::WriteVerifyFailed)
            },
    {
        if written.len() != read_back.len() {
            return Err(Mpu9250Error::WriteVerifyFailed);
        }
        let mut i: usize = 0;
        while i < written.len()
            invariant
                i <= written.len(),
                written.len() == read_back.len(),
                forall|j: int| 0 <= j < i ==> written@[j] == read_back@[j],
            decreases written.len() - i,
        {
            if written[i] != read_back[i] {
                return Err(Mpu9250Error::WriteVerifyFailed);
            }
            i = i + 1;
        }
        assert(written@ =~= read_back@);
        Ok(())
    }
}

} // verus!
