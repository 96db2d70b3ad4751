//! The GPU System Processor and the messages exchanged with its firmware.

pub mod boot;
pub mod commands;
pub mod fw;
pub mod nvkv;
pub mod regs;
pub mod rm;

use vstd::prelude::*;
use vstd::string::*;
use vstd::utf8::encode_utf8;

use crate::bytes::{
    le_bytes, le_value, lemma_le_bytes_len, lemma_number_at, lemma_pow256_values, push_le, zeros,
};
use crate::error::Error;
use crate::firmware::radix3::DmaRegion;
use crate::gpu::Chipset;
use crate::gsp::fw::{law_region_argument_fields, spec_id8, LibosMemoryRegionInitArgument};

verus! {

/// Base-2 logarithm of the size of a page of the GSP.
pub const GSP_PAGE_SHIFT: usize = 12;

/// Size of a page of the GSP.
pub const GSP_PAGE_SIZE: usize = 4096;

/// Number of GSP pages to use in a RM log buffer.
pub const RM_LOG_BUFFER_NUM_PAGES: usize = 0x10;

/// The page table entries that map `count` GSP pages starting at `start`.
pub open spec fn ptes(start: u64, count: nat) -> Seq<u64> {
    Seq::new(count, |i: int| (start + i * GSP_PAGE_SIZE) as u64)
}

/// Returns a page table array, as understood by the GSP bootloader, mapping `num_pages` GSP pages
/// starting at address `start`.
///
/// The array follows one word in the first page that it maps, so it has at most 511 entries.
pub fn pte_array(start: u64, num_pages: usize) -> (array: Result<Vec<u64>, Error>)
    requires
        num_pages <= 511,
    ensures
        match array {
            Ok(array) => {
                &&& num_pages > 0 ==> start + (num_pages - 1) * GSP_PAGE_SIZE <= u64::MAX
                &&& array@ == ptes(start, num_pages as nat)
            },
            Err(error) => {
                &&& num_pages > 0 && start + (num_pages - 1) * GSP_PAGE_SIZE > u64::MAX
                &&& error == Error::EOVERFLOW
            },
        },
{
    let mut array: Vec<u64> = Vec::new();
    let mut i: usize = 0;
    while i < num_pages
        invariant
            i <= num_pages <= 511,
            i > 0 ==> start + (i - 1) * GSP_PAGE_SIZE <= u64::MAX,
            array@ == ptes(start, i as nat),
        decreases num_pages - i,
    {
        match start.checked_add(i as u64 * GSP_PAGE_SIZE as u64) {
            Some(entry) => {
                array.push(entry);
            },
            None => {
                return Err(Error::EOVERFLOW);
            },
        }
        i = i + 1;
        assert(array@ =~= ptes(start, i as nat));
    }
    Ok(array)
}

/// Length of a log buffer header's task prefix.
pub const TASK_NAME_MAX_LENGTH: usize = 8;

/// Largest length of a firmware build ID.
pub const BUILD_ID_MAX_LENGTH: usize = 32;

/// The header the GSP-RM log decoder expects ahead of a buffer's data.
///
/// The decoder needs the firmware build and the GPU it ran on to pick the right symbols, and a
/// raw dump carries neither. The header holds the architecture and the implementation of the GPU, the
/// version of the layout, the length of the build ID, the name of the task, the offset between the
/// clocks of the task and of the GPU, of which the driver knows none, the build ID, a flag for packed
/// metadata, and a reserved word.
pub open spec fn log_buffer_header(chipset: Chipset, build_id: Seq<u8>, task_prefix: Seq<u8>) -> Seq<
    u8,
> {
    le_bytes(chipset.arch().code() as nat, 4) + le_bytes((chipset.code() % 16) as nat, 4)
        + le_bytes(2, 4) + le_bytes(build_id.len(), 4) + fixed(task_prefix, 8) + le_bytes(0, 8)
        + fixed(build_id, 32) + le_bytes(1, 4) + le_bytes(0, 4)
}

/// Bytes brought to a fixed length: cut off, or filled up with zeros.
pub open spec fn fixed(bytes: Seq<u8>, len: nat) -> Seq<u8> {
    if bytes.len() >= len {
        bytes.take(len as int)
    } else {
        bytes + zeros((len - bytes.len()) as nat)
    }
}

/// Appends `bytes`, brought to a length of `len`.
fn push_fixed(out: &mut Vec<u8>, bytes: &[u8], len: usize)
    ensures
        final(out)@ == old(out)@ + fixed(bytes@, len as nat),
{
    let total: usize = bytes.len();
    let ghost before = out@;
    assert(before + Seq::<u8>::empty() =~= before);
    let mut i: usize = 0;
    while i < len
        invariant
            i <= len,
            total == bytes@.len(),
            out@ == before + fixed(bytes@, len as nat).take(i as int),
        decreases len - i,
    {
        let ghost whole = fixed(bytes@, len as nat);
        if i < total {
            out.push(bytes[i]);
        } else {
            out.push(0);
        }
        i = i + 1;
        assert(out@ =~= before + whole.take(i as int));
    }
    assert(fixed(bytes@, len as nat).take(len as int) =~= fixed(bytes@, len as nat));
}

/// Builds the header for the buffer that the task named `task_prefix` logs to.
///
/// A longer `task_prefix` is truncated, since the decoder only labels each line with it.
pub fn new_log_buffer_header(chipset: Chipset, build_id: &[u8], task_prefix: &str) -> (header: Vec<u8>)
    requires
        build_id@.len() <= 32,
    ensures
        header@ == log_buffer_header(chipset, build_id@, encode_utf8(task_prefix@)),
{
    let mut header: Vec<u8> = Vec::new();
    push_le(&mut header, chipset.arch().into_raw() as u64, 4);
    push_le(&mut header, chipset.implementation() as u64, 4);
    push_le(&mut header, 2, 4);
    push_le(&mut header, build_id.len() as u64, 4);
    push_fixed(&mut header, task_prefix.as_bytes(), TASK_NAME_MAX_LENGTH);
    push_le(&mut header, 0, 8);
    push_fixed(&mut header, build_id, BUILD_ID_MAX_LENGTH);
    push_le(&mut header, 1, 4);
    push_le(&mut header, 0, 4);
    assert(header@ =~= log_buffer_header(chipset, build_id@, encode_utf8(task_prefix@)));
    header
}

/// A log buffer header has 72 bytes, whatever the lengths of the build ID and of the name are.
pub proof fn law_log_buffer_header_size(chipset: Chipset, build_id: Seq<u8>, task_prefix: Seq<u8>)
    requires
        build_id.len() <= 32,
    ensures
        log_buffer_header(chipset, build_id, task_prefix).len() == 72,
{
    lemma_le_bytes_len(chipset.arch().code() as nat, 4);
    lemma_le_bytes_len((chipset.code() % 16) as nat, 4);
    lemma_le_bytes_len(2, 4);
    lemma_le_bytes_len(build_id.len(), 4);
    lemma_le_bytes_len(0, 8);
    lemma_le_bytes_len(1, 4);
    lemma_le_bytes_len(0, 4);
}

/// What to hand out on a read of a log buffer: a part of the header, and then a part of the buffer.
#[derive(Clone, Copy, Debug, PartialEq, Eq, Structural)]
pub struct LogRead {
    /// First byte of the header to hand out.
    pub header_start: usize,
    /// Number of bytes of the header to hand out.
    pub header_count: usize,
    /// First byte of the buffer to hand out.
    pub buffer_start: usize,
    /// Number of bytes of the buffer to hand out.
    pub buffer_count: usize,
}

/// The smaller of two numbers.
pub open spec fn smaller(a: int, b: int) -> int {
    if a <= b {
        a
    } else {
        b
    }
}

/// The number of bytes that a read hands out: what is left after the offset, as far as there is room
/// for it.
pub open spec fn read_count(offset: int, total_len: int, room: int) -> int {
    if offset >= total_len {
        0
    } else {
        smaller(total_len - offset, room)
    }
}

impl LogRead {
    /// The bytes to hand out.
    pub open spec fn bytes(self, header: Seq<u8>, buffer: Seq<u8>) -> Seq<u8> {
        header.subrange(self.header_start as int, self.header_start + self.header_count)
            + buffer.subrange(self.buffer_start as int, self.buffer_start + self.buffer_count)
    }

    /// Whether this hands out what a read of `room` bytes at `offset` is to yield: the rest of the
    /// header first, as far as there is room, and then the buffer from where the header ends.
    pub open spec fn serves(self, offset: int, header_len: int, buffer_len: int, room: int) -> bool {
        let count = read_count(offset, header_len + buffer_len, room);
        &&& self.header_start + self.header_count <= header_len
        &&& self.buffer_start + self.buffer_count <= buffer_len
        &&& self.header_count + self.buffer_count == count
        &&& self.header_count == if offset < header_len {
            smaller(header_len - offset, count)
        } else {
            0
        }
        &&& self.header_count > 0 ==> self.header_start == offset
        &&& self.buffer_count > 0 ==> header_len + self.buffer_start == offset + self.header_count
    }

    /// Plans a read of `room` bytes at `offset` from a log buffer of `buffer_len` bytes, which is served
    /// after a header of `header_len` bytes. There is no header when the firmware reported no build
    /// ID.
    ///
    /// The offset must not be negative. Reading at or after the end yields nothing.
    pub fn new(offset: i64, header_len: usize, buffer_len: usize, room: usize) -> (read: Result<
        LogRead,
        Error,
    >)
        requires
            header_len + buffer_len <= usize::MAX,
        ensures
            match read {
                Ok(read) => {
                    &&& 0 <= offset <= usize::MAX
                    &&& read.serves(
                        offset as int,
                        header_len as int,
                        buffer_len as int,
                        room as int,
                    )
                },
                Err(error) => !(0 <= offset <= usize::MAX) && error == Error::EINVAL,
            },
    {
        if offset < 0 || offset as u64 > usize::MAX as u64 {
            return Err(Error::EINVAL);
        }
        let start: usize = offset as usize;
        let total_len: usize = header_len + buffer_len;
        if start >= total_len {
            return Ok(
                LogRead { header_start: 0, header_count: 0, buffer_start: 0, buffer_count: 0 },
            );
        }
        let left: usize = total_len - start;
        let count: usize = if left <= room {
            left
        } else {
            room
        };
        let (header_start, header_count): (usize, usize) = if start < header_len {
            let header_left: usize = header_len - start;
            if header_left <= count {
                (start, header_left)
            } else {
                (start, count)
            }
        } else {
            (0, 0)
        };
        let buffer_start: usize = if start > header_len {
            start - header_len
        } else {
            0
        };
        Ok(
            LogRead {
                header_start,
                header_count,
                buffer_start,
                buffer_count: count - header_count,
            },
        )
    }

    /// Returns the number of bytes to hand out. The offset of the next read is that much further.
    pub fn written(&self) -> (count: usize)
        requires
            self.header_count + self.buffer_count <= usize::MAX,
        ensures
            count == self.header_count + self.buffer_count,
    {
        self.header_count + self.buffer_count
    }
}

/// What a read hands out is what comes at its offset when the buffer follows the header, as much as
/// there is and as there is room for.
pub proof fn law_log_read(read: LogRead, header: Seq<u8>, buffer: Seq<u8>, offset: int, room: int)
    requires
        0 <= offset,
        0 <= room,
        read.serves(offset, header.len() as int, buffer.len() as int, room),
    ensures
        ({
            let whole = header + buffer;
            let count = read_count(offset, whole.len() as int, room);
            if count > 0 {
                read.bytes(header, buffer) == whole.subrange(offset, offset + count)
            } else {
                read.bytes(header, buffer) == Seq::<u8>::empty()
            }
        }),
{
    let whole = header + buffer;
    let count = read_count(offset, whole.len() as int, room);
    if count > 0 {
        assert(read.bytes(header, buffer) =~= whole.subrange(offset, offset + count));
    } else {
        assert(read.bytes(header, buffer) =~= Seq::<u8>::empty());
    }
}

/// A task of the GSP firmware that has a log buffer.
#[derive(Clone, Copy, Debug, PartialEq, Eq, Structural)]
pub enum LogTask {
    /// Init task.
    Init,
    /// Interrupt task.
    Intr,
    /// RM task.
    Rm,
    /// MNOC task.
    Mnoc,
    /// Root task.
    Root,
    /// RM state monitor task.
    Rmon,
}

impl LogTask {
    /// The name of the task in the header of its log buffer.
    pub open spec fn spec_prefix(self) -> Seq<char> {
        match self {
            LogTask::Init => "INIT"@,
            LogTask::Intr => "INTR"@,
            LogTask::Rm => "RM"@,
            LogTask::Mnoc => "MNOC"@,
            LogTask::Root => "ROOT"@,
            LogTask::Rmon => "RMON"@,
        }
    }

    /// Returns the name of the task in the header of its log buffer.
    pub fn prefix(self) -> (prefix: &'static str)
        ensures
            prefix@ == self.spec_prefix(),
    {
        match self {
            LogTask::Init => "INIT",
            LogTask::Intr => "INTR",
            LogTask::Rm => "RM",
            LogTask::Mnoc => "MNOC",
            LogTask::Root => "ROOT",
            LogTask::Rmon => "RMON",
        }
    }

    /// The size of the log buffer in pages: one for the root and RM state monitor tasks, the default
    /// size for the others.
    pub open spec fn spec_num_pages(self) -> usize {
        if self == LogTask::Root || self == LogTask::Rmon {
            1
        } else {
            RM_LOG_BUFFER_NUM_PAGES
        }
    }

    /// Returns the size of the log buffer in pages.
    pub fn num_pages(self) -> (num_pages: usize)
        ensures
            num_pages == self.spec_num_pages(),
    {
        match self {
            LogTask::Root | LogTask::Rmon => 1,
            _ => RM_LOG_BUFFER_NUM_PAGES,
        }
    }

    /// Returns the name of the file that the log buffer is exposed as.
    pub fn file_name(self) -> (name: &'static str)
        ensures
            name@ == match self {
                LogTask::Init => "loginit"@,
                LogTask::Intr => "logintr"@,
                LogTask::Rm => "logrm"@,
                LogTask::Mnoc => "logmnoc"@,
                LogTask::Root => "logroot"@,
                LogTask::Rmon => "logrmon"@,
            },
    {
        match self {
            LogTask::Init => "loginit",
            LogTask::Intr => "logintr",
            LogTask::Rm => "logrm",
            LogTask::Mnoc => "logmnoc",
            LogTask::Root => "logroot",
            LogTask::Rmon => "logrmon",
        }
    }
}

/// The buffers that GSP-RM is told of when it boots.
#[derive(Clone, Copy, Debug, PartialEq, Eq, Structural)]
pub struct GspBuffers {
    pub loginit: DmaRegion,
    pub logintr: DmaRegion,
    pub logrm: DmaRegion,
    pub logmnoc: DmaRegion,
    pub logroot: DmaRegion,
    pub logrmon: DmaRegion,
    pub rmargs: DmaRegion,
}

/// Where the buffers that GSP-RM is told of are.
#[derive(Clone, Copy, Debug, PartialEq, Eq, Structural)]
pub struct GspBufferAddresses {
    pub loginit: u64,
    pub logintr: u64,
    pub logrm: u64,
    pub logmnoc: u64,
    pub logroot: u64,
    pub logrmon: u64,
    pub rmargs: u64,
}

/// The log buffer of a task.
pub open spec fn log_region(task: LogTask, address: u64) -> DmaRegion {
    DmaRegion { address, len: (task.spec_num_pages() * GSP_PAGE_SIZE) as u64 }
}

impl GspBuffers {
    /// The buffers at some addresses. Each log buffer is as large as that of its task, and the
    /// arguments of RM take a page.
    pub open spec fn spec_at(addresses: GspBufferAddresses) -> GspBuffers {
        GspBuffers {
            loginit: log_region(LogTask::Init, addresses.loginit),
            logintr: log_region(LogTask::Intr, addresses.logintr),
            logrm: log_region(LogTask::Rm, addresses.logrm),
            logmnoc: log_region(LogTask::Mnoc, addresses.logmnoc),
            logroot: log_region(LogTask::Root, addresses.logroot),
            logrmon: log_region(LogTask::Rmon, addresses.logrmon),
            rmargs: DmaRegion { address: addresses.rmargs, len: GSP_PAGE_SIZE as u64 },
        }
    }

    /// Returns the log buffer of a task.
    fn log(task: LogTask, address: u64) -> (region: DmaRegion)
        ensures
            region == log_region(task, address),
    {
        DmaRegion { address, len: (task.num_pages() * GSP_PAGE_SIZE) as u64 }
    }

    /// Returns the buffers at some addresses.
    pub fn at(addresses: GspBufferAddresses) -> (buffers: GspBuffers)
        ensures
            buffers == GspBuffers::spec_at(addresses),
    {
        GspBuffers {
            loginit: GspBuffers::log(LogTask::Init, addresses.loginit),
            logintr: GspBuffers::log(LogTask::Intr, addresses.logintr),
            logrm: GspBuffers::log(LogTask::Rm, addresses.logrm),
            logmnoc: GspBuffers::log(LogTask::Mnoc, addresses.logmnoc),
            logroot: GspBuffers::log(LogTask::Root, addresses.logroot),
            logrmon: GspBuffers::log(LogTask::Rmon, addresses.logrmon),
            rmargs: DmaRegion { address: addresses.rmargs, len: GSP_PAGE_SIZE as u64 },
        }
    }
}

/// The argument that passes a buffer under a name.
pub open spec fn libos_argument(name: Seq<char>, buffer: DmaRegion) -> LibosMemoryRegionInitArgument {
    LibosMemoryRegionInitArgument::spec_new(encode_utf8(name), buffer.address, buffer.len)
}

/// The arguments that pass the buffers, in the order that the firmware expects.
pub open spec fn named_arguments(buffers: GspBuffers) -> Seq<LibosMemoryRegionInitArgument> {
    seq![
        libos_argument("LOGINIT"@, buffers.loginit),
        libos_argument("LOGINTR"@, buffers.logintr),
        libos_argument("LOGRM"@, buffers.logrm),
        libos_argument("LOGMNOC"@, buffers.logmnoc),
        libos_argument("LOGROOT"@, buffers.logroot),
        libos_argument("LOGRMON"@, buffers.logrmon),
        libos_argument("RMARGS"@, buffers.rmargs),
    ]
}

/// Returns the libos arguments that fill a GSP page: those that pass the buffers, and then such that
/// pass nothing.
pub fn libos_arguments(buffers: GspBuffers) -> (arguments: Vec<LibosMemoryRegionInitArgument>)
    ensures
        arguments@ == named_arguments(buffers) + Seq::new(
            121,
            |i: int| LibosMemoryRegionInitArgument::spec_zeroed(),
        ),
{
    let mut arguments: Vec<LibosMemoryRegionInitArgument> = Vec::new();
    let loginit = buffers.loginit;
    let logintr = buffers.logintr;
    let logrm = buffers.logrm;
    let logmnoc = buffers.logmnoc;
    let logroot = buffers.logroot;
    let logrmon = buffers.logrmon;
    let rmargs = buffers.rmargs;
    arguments.push(
        LibosMemoryRegionInitArgument::new("LOGINIT".as_bytes(), loginit.address, loginit.len),
    );
    arguments.push(
        LibosMemoryRegionInitArgument::new("LOGINTR".as_bytes(), logintr.address, logintr.len),
    );
    arguments.push(LibosMemoryRegionInitArgument::new("LOGRM".as_bytes(), logrm.address, logrm.len));
    arguments.push(
        LibosMemoryRegionInitArgument::new("LOGMNOC".as_bytes(), logmnoc.address, logmnoc.len),
    );
    arguments.push(
        LibosMemoryRegionInitArgument::new("LOGROOT".as_bytes(), logroot.address, logroot.len),
    );
    arguments.push(
        LibosMemoryRegionInitArgument::new("LOGRMON".as_bytes(), logrmon.address, logrmon.len),
    );
    arguments.push(
        LibosMemoryRegionInitArgument::new("RMARGS".as_bytes(), rmargs.address, rmargs.len),
    );
    let ghost none = Seq::new(0, |i: int| LibosMemoryRegionInitArgument::spec_zeroed());
    assert(arguments@ =~= named_arguments(buffers) + none);
    let mut i: usize = 7;
    while i < GSP_PAGE_SIZE / 32
        invariant
            7 <= i <= 128,
            arguments@ == named_arguments(buffers) + Seq::new(
                (i - 7) as nat,
                |i: int| LibosMemoryRegionInitArgument::spec_zeroed(),
            ),
        decreases 128 - i,
    {
        arguments.push(LibosMemoryRegionInitArgument::zeroed());
        i = i + 1;
        assert(arguments@ =~= named_arguments(buffers) + Seq::new(
            (i - 7) as nat,
            |i: int| LibosMemoryRegionInitArgument::spec_zeroed(),
        ));
    }
    arguments
}

/// Returns the libos arguments that the GSP boots with, for buffers at these addresses: every buffer is
/// passed with the size that it has.
pub fn gsp_libos_arguments(addresses: GspBufferAddresses) -> (arguments: Vec<
    LibosMemoryRegionInitArgument,
>)
    ensures
        arguments@ == named_arguments(GspBuffers::spec_at(addresses)) + Seq::new(
            121,
            |i: int| LibosMemoryRegionInitArgument::spec_zeroed(),
        ),
{
    libos_arguments(GspBuffers::at(addresses))
}

/// Page table entry `i` is the start plus `i` pages of 4096 bytes.
pub proof fn law_page_table_entries(start: u64, count: nat, i: int)
    requires
        0 <= i < count,
        start + i * 4096 <= u64::MAX,
    ensures
        ptes(start, count).len() == count,
        ptes(start, count)[i] == start + i * 4096,
{
}

/// Bytes brought to a length keep what they have up to it and end in zeros.
pub proof fn law_fixed_length(bytes: Seq<u8>, len: nat, i: int)
    requires
        0 <= i < len,
    ensures
        fixed(bytes, len).len() == len,
        fixed(bytes, len)[i] == if i < bytes.len() {
            bytes[i]
        } else {
            0
        },
{
}

/// Where the fields of a log buffer header are: the generation of the chipset at 0 and its
/// implementation at 4, which together are its number, the version 2 at 8, the length of the build ID
/// at 12, the name of the task at 16, no offset at 24, the build ID at 32, the flag 1 at 64 and zero
/// at 68.
pub proof fn law_log_buffer_header_fields(chipset: Chipset, build_id: Seq<u8>, task_prefix: Seq<u8>)
    requires
        build_id.len() <= 32,
    ensures
        ({
            let header = log_buffer_header(chipset, build_id, task_prefix);
            &&& header.len() == 72
            &&& le_value(header.subrange(0, 4)) == chipset.code() / 16
            &&& le_value(header.subrange(4, 8)) == chipset.code() % 16
            &&& le_value(header.subrange(8, 12)) == 2
            &&& le_value(header.subrange(12, 16)) == build_id.len()
            &&& header.subrange(16, 24) == fixed(task_prefix, 8)
            &&& le_value(header.subrange(24, 32)) == 0
            &&& header.subrange(32, 64) == fixed(build_id, 32)
            &&& le_value(header.subrange(64, 68)) == 1
            &&& le_value(header.subrange(68, 72)) == 0
        }),
{
    let header = log_buffer_header(chipset, build_id, task_prefix);
    let arch = chipset.arch().code() as nat;
    let implementation = (chipset.code() % 16) as nat;
    law_log_buffer_header_size(chipset, build_id, task_prefix);
    crate::gpu::law_chipset_codes(chipset);
    lemma_pow256_values();
    lemma_le_bytes_len(arch, 4);
    lemma_le_bytes_len(implementation, 4);
    lemma_le_bytes_len(2, 4);
    lemma_le_bytes_len(build_id.len(), 4);
    lemma_le_bytes_len(0, 8);
    lemma_le_bytes_len(1, 4);
    lemma_le_bytes_len(0, 4);
    assert(header.subrange(0, 4) =~= le_bytes(arch, 4));
    assert(header.subrange(4, 8) =~= le_bytes(implementation, 4));
    assert(header.subrange(8, 12) =~= le_bytes(2, 4));
    assert(header.subrange(12, 16) =~= le_bytes(build_id.len(), 4));
    assert(header.subrange(16, 24) =~= fixed(task_prefix, 8));
    assert(header.subrange(24, 32) =~= le_bytes(0, 8));
    assert(header.subrange(32, 64) =~= fixed(build_id, 32));
    assert(header.subrange(64, 68) =~= le_bytes(1, 4));
    assert(header.subrange(68, 72) =~= le_bytes(0, 4));
    lemma_number_at(header, 0, arch, 4);
    lemma_number_at(header, 4, implementation, 4);
    lemma_number_at(header, 8, 2, 4);
    lemma_number_at(header, 12, build_id.len(), 4);
    lemma_number_at(header, 24, 0, 8);
    lemma_number_at(header, 64, 1, 4);
    lemma_number_at(header, 68, 0, 4);
}

/// A read hands out as much as there is room for, or all that is left. It hands out the header first,
/// from the offset on, and of the buffer only what comes after the header.
pub proof fn law_read_amount(
    read: LogRead,
    offset: int,
    header_len: int,
    buffer_len: int,
    room: int,
)
    requires
        0 <= offset,
        0 <= header_len,
        0 <= buffer_len,
        0 <= room,
        read.serves(offset, header_len, buffer_len, room),
    ensures
        ({
            let count = read.header_count + read.buffer_count;
            let left = header_len + buffer_len - offset;
            &&& count <= room
            &&& left <= 0 ==> count == 0
            &&& left > 0 ==> count <= left && (count == left || count == room)
            &&& read.buffer_count > 0 ==> offset + read.header_count >= header_len
            &&& read.header_count > 0 ==> read.header_start == offset && offset + read.header_count
                <= header_len
        }),
{
}

/// The names that the tasks have in the headers of their log buffers, and the sizes of these: a page for
/// the root and RM state monitor tasks, sixteen pages for the others.
pub proof fn law_log_tasks(task: LogTask)
    ensures
        LogTask::Init.spec_prefix() == "INIT"@,
        LogTask::Intr.spec_prefix() == "INTR"@,
        LogTask::Rm.spec_prefix() == "RM"@,
        LogTask::Mnoc.spec_prefix() == "MNOC"@,
        LogTask::Root.spec_prefix() == "ROOT"@,
        LogTask::Rmon.spec_prefix() == "RMON"@,
        task.spec_num_pages() == 1 <==> task == LogTask::Root || task == LogTask::Rmon,
        task.spec_num_pages() == 16 <==> task != LogTask::Root && task != LogTask::Rmon,
        GSP_PAGE_SIZE == 4096,
        GSP_PAGE_SHIFT == 12,
{
}

/// Where the buffers are, and how large: the log buffers of the root and RM state monitor tasks and the
/// arguments of RM have 4096 bytes, the other log buffers 65536.
pub proof fn law_buffers(addresses: GspBufferAddresses)
    ensures
        ({
            let buffers = GspBuffers::spec_at(addresses);
            &&& buffers.loginit == (DmaRegion { address: addresses.loginit, len: 0x1_0000 })
            &&& buffers.logintr == (DmaRegion { address: addresses.logintr, len: 0x1_0000 })
            &&& buffers.logrm == (DmaRegion { address: addresses.logrm, len: 0x1_0000 })
            &&& buffers.logmnoc == (DmaRegion { address: addresses.logmnoc, len: 0x1_0000 })
            &&& buffers.logroot == (DmaRegion { address: addresses.logroot, len: 0x1000 })
            &&& buffers.logrmon == (DmaRegion { address: addresses.logrmon, len: 0x1000 })
            &&& buffers.rmargs == (DmaRegion { address: addresses.rmargs, len: 0x1000 })
        }),
{
}

/// The arguments that pass the buffers: which buffer each of them passes, and under which name.
pub proof fn law_named_arguments(buffers: GspBuffers, i: int)
    requires
        0 <= i < 7,
    ensures
        named_arguments(buffers).len() == 7,
        ({
            let regions = seq![
                buffers.loginit,
                buffers.logintr,
                buffers.logrm,
                buffers.logmnoc,
                buffers.logroot,
                buffers.logrmon,
                buffers.rmargs,
            ];
            let names = seq![
                "LOGINIT"@,
                "LOGINTR"@,
                "LOGRM"@,
                "LOGMNOC"@,
                "LOGROOT"@,
                "LOGRMON"@,
                "RMARGS"@,
            ];
            let argument = named_arguments(buffers)[i];
            &&& argument.id8 == spec_id8(encode_utf8(names[i]))
            &&& argument.pa == regions[i].address
            &&& argument.size == regions[i].len
            &&& argument.kind == 1
            &&& argument.loc == 1
        }),
{
    let names = seq![
        "LOGINIT"@,
        "LOGINTR"@,
        "LOGRM"@,
        "LOGMNOC"@,
        "LOGROOT"@,
        "LOGRMON"@,
        "RMARGS"@,
    ];
    law_region_argument_fields(
        encode_utf8(names[i]),
        named_arguments(buffers)[i].pa,
        named_arguments(buffers)[i].size,
    );
}

} // verus!
