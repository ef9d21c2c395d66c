//! The apploader: the sequence of disc loads that the console's boot ROM performs for it (the boot
//! header, the boot info, the file system table, the executable's header and its sections), and
//! the memory writes it asks for between them.
use vstd::prelude::*;

use crate::bytes::{spec_u32_be, u32_be_at};

verus! {

/// Disc offset of the boot header.
pub const BOOT_HEADER_DISC_OFFSET: usize = 0x420;

/// Bytes loaded for the boot header: its size rounded up to 32.
pub const BOOT_HEADER_LOAD_SIZE: usize = 64;

/// Disc offset of the boot info.
pub const BOOT_INFO_DISC_OFFSET: usize = 0x440;

/// Where the boot info is loaded.
pub const BOOT_INFO_LOAD_ADDR: usize = 0x8120_6000;

/// Where the file system table is loaded.
pub const FST_LOAD_ADDR: usize = 0x8120_8000;

/// Size of the executable's header.
pub const DOL_HEADER_SIZE: usize = 228;

/// Bytes loaded for the executable's header: its size rounded up to 32.
pub const DOL_HEADER_LOAD_SIZE: usize = 256;

/// Number of sections of an executable.
pub const DOL_SECTION_COUNT: usize = 18;

/// A load that the boot ROM performs: `len` bytes from disc offset `offset` to address `addr`.
#[derive(Clone, Copy, Debug, PartialEq, Eq, Structural)]
pub struct LoadCommand {
    /// Destination address.
    pub addr: usize,
    /// Number of bytes.
    pub len: usize,
    /// Disc offset.
    pub offset: usize,
}

/// A memory write that the apploader performs between loads.
#[derive(Clone, Copy, Debug, PartialEq, Eq, Structural)]
pub enum Effect {
    /// Store the boot info address in the OS globals.
    SetBootInfoAddress(usize),
    /// Store the file system table address in the OS globals.
    SetFstAddress(usize),
    /// Store the file system table size in the OS globals.
    SetFstSize(usize),
    /// Zero `size` bytes at `start` (the executable's BSS).
    ClearBss { start: usize, size: usize },
}

/// Where the apploader is in its sequence.
#[derive(Clone, Copy, Debug, PartialEq, Eq, Structural)]
pub enum State {
    /// Next: load the boot header.
    FetchBootHeader,
    /// Next: load the boot info.
    FetchBootInfo,
    /// Next: load the file system table.
    FetchFst,
    /// Next: load the executable's header.
    FetchDolHeader,
    /// Next: load the first non-empty section at or after `index`.
    LoadDolSection { index: usize },
    /// Next: clear the BSS.
    ClearBss,
    /// Everything is loaded.
    Done,
}

/// The fields of the boot header that the apploader uses.
#[derive(Clone, Copy, Debug, PartialEq, Eq, Structural)]
pub struct BootHeader {
    /// Disc offset of the executable.
    pub dol_offset: u32,
    /// Disc offset of the file system table.
    pub fst_offset: u32,
    /// Size of the file system table.
    pub fst_size: u32,
}

impl BootHeader {
    /// An all-zero header.
    pub fn zeroed() -> (r: Self)
        ensures
            r.dol_offset == 0 && r.fst_offset == 0 && r.fst_size == 0,
    {
        BootHeader { dol_offset: 0, fst_offset: 0, fst_size: 0 }
    }

    /// Reads the header from the loaded bytes (big-endian words).
    pub fn from_bytes(b: &[u8]) -> (r: Self)
        requires
            b@.len() >= 12,
        ensures
            r.dol_offset == spec_u32_be(b@, 0),
            r.fst_offset == spec_u32_be(b@, 4),
            r.fst_size == spec_u32_be(b@, 8),
    {
        BootHeader {
            dol_offset: u32_be_at(b, 0),
            fst_offset: u32_be_at(b, 4),
            fst_size: u32_be_at(b, 8),
        }
    }
}

/// The header of an executable: where each of its sections is on the disc, where it goes in
/// memory and how big it is, and its BSS and entry point.
#[derive(Clone, Copy, Debug)]
pub struct DolHeader {
    /// Offset of each section from the start of the executable.
    pub section_offsets: [u32; 18],
    /// Load address of each section.
    pub section_load_addrs: [u32; 18],
    /// Size of each section.
    pub section_sizes: [u32; 18],
    /// Start of the BSS.
    pub bss_start: u32,
    /// Size of the BSS.
    pub bss_size: u32,
    /// Entry point.
    pub entry_point: u32,
}

impl DolHeader {
    /// An all-zero header.
    pub fn zeroed() -> (r: Self)
        ensures
            forall|i: int| 0 <= i < 18 ==> r.section_sizes@[i] == 0,
    {
        DolHeader {
            section_offsets: [0; 18],
            section_load_addrs: [0; 18],
            section_sizes: [0; 18],
            bss_start: 0,
            bss_size: 0,
            entry_point: 0,
        }
    }

    /// Reads the header from the loaded bytes (big-endian words).
    pub fn from_bytes(b: &[u8]) -> (r: Self)
        requires
            b@.len() >= DOL_HEADER_SIZE,
        ensures
            forall|i: int| 0 <= i < 18 ==> #[trigger] r.section_offsets@[i] == spec_u32_be(b@, 4 * i),
            forall|i: int|
                0 <= i < 18 ==> #[trigger] r.section_load_addrs@[i] == spec_u32_be(b@, 72 + 4 * i),
            forall|i: int| 0 <= i < 18 ==> #[trigger] r.section_sizes@[i] == spec_u32_be(b@, 144 + 4 * i),
            r.bss_start == spec_u32_be(b@, 216),
            r.bss_size == spec_u32_be(b@, 220),
            r.entry_point == spec_u32_be(b@, 224),
    {
        let mut h = Self::zeroed();
        let mut i: usize = 0;
        while i < DOL_SECTION_COUNT
            invariant
                i <= 18,
                b@.len() >= DOL_HEADER_SIZE,
                forall|j: int| 0 <= j < i ==> #[trigger] h.section_offsets@[j] == spec_u32_be(b@, 4 * j),
                forall|j: int|
                    0 <= j < i ==> #[trigger] h.section_load_addrs@[j] == spec_u32_be(b@, 72 + 4 * j),
                forall|j: int|
                    0 <= j < i ==> #[trigger] h.section_sizes@[j] == spec_u32_be(b@, 144 + 4 * j),
            decreases 18 - i,
        {
            h.section_offsets[i] = u32_be_at(b, 4 * i);
            h.section_load_addrs[i] = u32_be_at(b, 72 + 4 * i);
            h.section_sizes[i] = u32_be_at(b, 144 + 4 * i);
            i = i + 1;
        }
        h.bss_start = u32_be_at(b, 216);
        h.bss_size = u32_be_at(b, 220);
        h.entry_point = u32_be_at(b, 224);
        h
    }
}

/// The first section at or after `i` whose size is not zero.
pub open spec fn spec_next_section(dol: DolHeader, i: nat) -> Option<nat>
    decreases 18 - i,
{
    if i >= 18 {
        None
    } else if dol.section_sizes@[i as int] > 0 {
        Some(i)
    } else {
        spec_next_section(dol, i + 1)
    }
}

/// The load of section `i`: from the executable's disc offset plus the section's offset (in 32-bit
/// arithmetic) to its load address.
pub open spec fn spec_section_command(boot: BootHeader, dol: DolHeader, i: nat) -> LoadCommand {
    LoadCommand {
        addr: dol.section_load_addrs@[i as int] as usize,
        len: dol.section_sizes@[i as int] as usize,
        offset: ((boot.dol_offset as nat + dol.section_offsets@[i as int] as nat) % 0x1_0000_0000)
            as usize,
    }
}

/// The apploader.
pub struct AppLoader {
    state: State,
    boot_header: BootHeader,
    dol_header: DolHeader,
    boot_header_addr: usize,
    dol_header_addr: usize,
    boot_info_size: usize,
}

/// One call of the apploader's main function: the memory writes it performs and the load it asks
/// for, or `None` when everything is loaded.
pub struct Step {
    /// Memory writes, in order.
    pub effects: Vec<Effect>,
    /// The next load.
    pub command: Option<LoadCommand>,
}

impl AppLoader {
    /// The state.
    pub closed spec fn spec_state(&self) -> State {
        self.state
    }

    /// The boot header as last loaded.
    pub closed spec fn spec_boot_header(&self) -> BootHeader {
        self.boot_header
    }

    /// The executable's header as last loaded.
    pub closed spec fn spec_dol_header(&self) -> DolHeader {
        self.dol_header
    }

    /// Where the boot header is to be loaded.
    pub closed spec fn spec_boot_header_addr(&self) -> usize {
        self.boot_header_addr
    }

    /// Where the executable's header is to be loaded.
    pub closed spec fn spec_dol_header_addr(&self) -> usize {
        self.dol_header_addr
    }

    /// Size of the boot info block.
    pub closed spec fn spec_boot_info_size(&self) -> usize {
        self.boot_info_size
    }

    /// A new apploader. The boot header and the executable's header are loaded to the given
    /// addresses, and handed back with [`Self::set_boot_header`] and [`Self::set_dol_header`];
    /// the boot info block, of `boot_info_size` bytes, goes to `BOOT_INFO_LOAD_ADDR`.
    pub fn new(boot_header_addr: usize, dol_header_addr: usize, boot_info_size: usize) -> (r: Self)
        ensures
            r.spec_state() == State::FetchBootHeader,
            r.spec_boot_header_addr() == boot_header_addr,
            r.spec_dol_header_addr() == dol_header_addr,
            r.spec_boot_info_size() == boot_info_size,
    {
        AppLoader {
            state: State::FetchBootHeader,
            boot_header: BootHeader::zeroed(),
            dol_header: DolHeader::zeroed(),
            boot_header_addr,
            dol_header_addr,
            boot_info_size,
        }
    }

    /// Hands over the boot header that the boot ROM loaded.
    pub fn set_boot_header(&mut self, header: BootHeader)
        ensures
            final(self).spec_boot_header() == header,
            final(self).spec_state() == old(self).spec_state(),
            final(self).spec_dol_header() == old(self).spec_dol_header(),
            final(self).spec_boot_header_addr() == old(self).spec_boot_header_addr(),
            final(self).spec_dol_header_addr() == old(self).spec_dol_header_addr(),
            final(self).spec_boot_info_size() == old(self).spec_boot_info_size(),
    {
        self.boot_header = header;
    }

    /// Hands over the executable's header that the boot ROM loaded.
    pub fn set_dol_header(&mut self, header: DolHeader)
        ensures
            final(self).spec_dol_header() == header,
            final(self).spec_state() == old(self).spec_state(),
            final(self).spec_boot_header() == old(self).spec_boot_header(),
            final(self).spec_boot_header_addr() == old(self).spec_boot_header_addr(),
            final(self).spec_dol_header_addr() == old(self).spec_dol_header_addr(),
            final(self).spec_boot_info_size() == old(self).spec_boot_info_size(),
    {
        self.dol_header = header;
    }

    /// Looks for the first non-empty section at or after `index`.
    fn find_section(&self, index: usize) -> (r: Option<usize>)
        ensures
            match r {
                Some(i) => i < 18 && spec_next_section(self.dol_header, index as nat) == Some(
                    i as nat,
                ),
                None => spec_next_section(self.dol_header, index as nat) is None,
            },
    {
        let mut i = index;
        while i < DOL_SECTION_COUNT
            invariant
                index <= i,
                spec_next_section(self.dol_header, index as nat) == spec_next_section(
                    self.dol_header,
                    i as nat,
                ),
            decreases 18 - i,
        {
            if self.dol_header.section_sizes[i] > 0 {
                return Some(i);
            }
            i = i + 1;
        }
        None
    }

    /// Advances the sequence by one load: performs the memory writes that come before it and
    /// returns the load, or `None` once everything is loaded.
    pub fn main(&mut self) -> (r: Step)
        ensures
            final(self).spec_boot_header() == old(self).spec_boot_header(),
            final(self).spec_dol_header() == old(self).spec_dol_header(),
            final(self).spec_boot_header_addr() == old(self).spec_boot_header_addr(),
            final(self).spec_dol_header_addr() == old(self).spec_dol_header_addr(),
            final(self).spec_boot_info_size() == old(self).spec_boot_info_size(),
            ({
                let boot = old(self).spec_boot_header();
                let dol = old(self).spec_dol_header();
                match old(self).spec_state() {
                    State::FetchBootHeader => {
                        &&& final(self).spec_state() == State::FetchBootInfo
                        &&& r.effects@ == Seq::<Effect>::empty()
                        &&& r.command == Some(
                            LoadCommand {
                                addr: old(self).spec_boot_header_addr(),
                                len: BOOT_HEADER_LOAD_SIZE,
                                offset: BOOT_HEADER_DISC_OFFSET,
                            },
                        )
                    },
                    State::FetchBootInfo => {
                        &&& final(self).spec_state() == State::FetchFst
                        &&& r.effects@ == seq![Effect::SetBootInfoAddress(BOOT_INFO_LOAD_ADDR)]
                        &&& r.command == Some(
                            LoadCommand {
                                addr: BOOT_INFO_LOAD_ADDR,
                                len: old(self).spec_boot_info_size(),
                                offset: BOOT_INFO_DISC_OFFSET,
                            },
                        )
                    },
                    State::FetchFst => {
                        &&& final(self).spec_state() == State::FetchDolHeader
                        &&& r.effects@ == seq![
                            Effect::SetFstAddress(FST_LOAD_ADDR),
                            Effect::SetFstSize(boot.fst_size as usize),
                        ]
                        &&& r.command == Some(
                            LoadCommand {
                                addr: FST_LOAD_ADDR,
                                len: boot.fst_size as usize,
                                offset: boot.fst_offset as usize,
                            },
                        )
                    },
                    State::FetchDolHeader => {
                        &&& final(self).spec_state() == State::LoadDolSection { index: 0 }
                        &&& r.effects@ == Seq::<Effect>::empty()
                        &&& r.command == Some(
                            LoadCommand {
                                addr: old(self).spec_dol_header_addr(),
                                len: DOL_HEADER_LOAD_SIZE,
                                offset: boot.dol_offset as usize,
                            },
                        )
                    },
                    State::LoadDolSection { index } => match spec_next_section(dol, index as nat) {
                        Some(i) => {
                            &&& final(self).spec_state() == State::LoadDolSection {
                                index: (i + 1) as usize,
                            }
                            &&& r.effects@ == Seq::<Effect>::empty()
                            &&& r.command == Some(spec_section_command(boot, dol, i))
                        },
                        None => {
                            &&& final(self).spec_state() == State::Done
                            &&& r.effects@ == seq![
                                Effect::ClearBss {
                                    start: dol.bss_start as usize,
                                    size: dol.bss_size as usize,
                                },
                            ]
                            &&& r.command is None
                        },
                    },
                    State::ClearBss => {
                        &&& final(self).spec_state() == State::Done
                        &&& r.effects@ == seq![
                            Effect::ClearBss {
                                start: dol.bss_start as usize,
                                size: dol.bss_size as usize,
                            },
                        ]
                        &&& r.command is None
                    },
                    State::Done => {
                        &&& final(self).spec_state() == State::Done
                        &&& r.effects@ == Seq::<Effect>::empty()
                        &&& r.command is None
                    },
                }
            }),
    {
        let mut effects: Vec<Effect> = Vec::new();
        match self.state {
            State::FetchBootHeader => {
                self.state = State::FetchBootInfo;
                Step {
                    effects,
                    command: Some(
                        LoadCommand {
                            addr: self.boot_header_addr,
                            len: BOOT_HEADER_LOAD_SIZE,
                            offset: BOOT_HEADER_DISC_OFFSET,
                        },
                    ),
                }
            },
            State::FetchBootInfo => {
                self.state = State::FetchFst;
                effects.push(Effect::SetBootInfoAddress(BOOT_INFO_LOAD_ADDR));
                Step {
                    effects,
                    command: Some(
                        LoadCommand {
                            addr: BOOT_INFO_LOAD_ADDR,
                            len: self.boot_info_size,
                            offset: BOOT_INFO_DISC_OFFSET,
                        },
                    ),
                }
            },
            State::FetchFst => {
                self.state = State::FetchDolHeader;
                effects.push(Effect::SetFstAddress(FST_LOAD_ADDR));
                effects.push(Effect::SetFstSize(self.boot_header.fst_size as usize));
                Step {
                    effects,
                    command: Some(
                        LoadCommand {
                            addr: FST_LOAD_ADDR,
                            len: self.boot_header.fst_size as usize,
                            offset: self.boot_header.fst_offset as usize,
                        },
                    ),
                }
            },
            State::FetchDolHeader => {
                self.state = State::LoadDolSection { index: 0 };
                Step {
                    effects,
                    command: Some(
                        LoadCommand {
                            addr: self.dol_header_addr,
                            len: DOL_HEADER_LOAD_SIZE,
                            offset: self.boot_header.dol_offset as usize,
                        },
                    ),
                }
            },
            State::LoadDolSection { index } => {
                match self.find_section(index) {
                    Some(i) => {
                        self.state = State::LoadDolSection { index: i + 1 };
                        let offset = self.boot_header.dol_offset.wrapping_add(
                            self.dol_header.section_offsets[i],
                        );
                        Step {
                            effects,
                            command: Some(
                                LoadCommand {
                                    addr: self.dol_header.section_load_addrs[i] as usize,
                                    len: self.dol_header.section_sizes[i] as usize,
                                    offset: offset as usize,
                                },
                            ),
                        }
                    },
                    None => {
                        self.state = State::Done;
                        effects.push(
                            Effect::ClearBss {
                                start: self.dol_header.bss_start as usize,
                                size: self.dol_header.bss_size as usize,
                            },
                        );
                        Step { effects, command: None }
                    },
                }
            },
            State::ClearBss => {
                self.state = State::Done;
                effects.push(
                    Effect::ClearBss {
                        start: self.dol_header.bss_start as usize,
                        size: self.dol_header.bss_size as usize,
                    },
                );
                Step { effects, command: None }
            },
            State::Done => Step { effects, command: None },
        }
    }

    /// The executable's entry point.
    pub fn entry_point(&self) -> (r: usize)
        ensures
            r == self.spec_dol_header().entry_point as usize,
    {
        self.dol_header.entry_point as usize
    }
}


/// What `spec_next_section` finds is a non-empty section at or after `i`, with only empty
/// sections between.
pub proof fn lemma_next_section(dol: DolHeader, i: nat)
    ensures
        spec_next_section(dol, i) matches Some(k) ==> {
            &&& i <= k < 18
            &&& dol.section_sizes@[k as int] > 0
            &&& forall|j: nat| i <= j < k ==> dol.section_sizes@[j as int] == 0
        },
        spec_next_section(dol, i) is None ==> forall|j: nat| i <= j < 18 ==> dol.section_sizes@[j as int] == 0,
    decreases 18 - i,
{
    if i < 18 && dol.section_sizes@[i as int] == 0 {
        lemma_next_section(dol, i + 1);
    }
}

/// The sections that the loading steps load from section `i` on, in the order they are loaded:
/// each step loads the next non-empty section and continues after it.
pub open spec fn spec_section_order(dol: DolHeader, i: nat) -> Seq<nat>
    decreases 18 - i,
{
    proof {
        lemma_next_section(dol, i);
    }
    match spec_next_section(dol, i) {
        Some(k) => seq![k] + spec_section_order(dol, k + 1),
        None => Seq::empty(),
    }
}

/// The apploader loads exactly the non-empty sections of the executable, each once, in
/// increasing order.
pub proof fn lemma_sections_loaded_in_order(dol: DolHeader, i: nat)
    requires
        i <= 18,
    ensures
        forall|a: int, b: int|
            0 <= a < b < spec_section_order(dol, i).len() ==> spec_section_order(dol, i)[a]
                < spec_section_order(dol, i)[b],
        forall|a: int|
            0 <= a < spec_section_order(dol, i).len() ==> i <= spec_section_order(dol, i)[a] < 18
                && dol.section_sizes@[spec_section_order(dol, i)[a] as int] > 0,
        forall|j: nat|
            i <= j < 18 && dol.section_sizes@[j as int] > 0 ==> spec_section_order(
                dol,
                i,
            ).contains(j),
    decreases 18 - i,
{
    lemma_next_section(dol, i);
    match spec_next_section(dol, i) {
        Some(k) => {
            lemma_sections_loaded_in_order(dol, k + 1);
            let rest = spec_section_order(dol, k + 1);
            let all = spec_section_order(dol, i);
            assert(all == seq![k] + rest);
            assert forall|a: int, b: int| 0 <= a < b < all.len() implies all[a] < all[b] by {
                if a == 0 {
                    assert(all[b] == rest[b - 1]);
                } else {
                    assert(all[a] == rest[a - 1]);
                    assert(all[b] == rest[b - 1]);
                }
            }
            assert forall|a: int| 0 <= a < all.len() implies i <= all[a] < 18
                && dol.section_sizes@[all[a] as int] > 0 by {
                if a > 0 {
                    assert(all[a] == rest[a - 1]);
                }
            }
            assert forall|j: nat| i <= j < 18 && dol.section_sizes@[j as int] > 0 implies all.contains(j) by {
                if j == k {
                    assert(all[0] == k);
                } else {
                    assert(j > k);
                    assert(rest.contains(j));
                    let m = choose|m: int| 0 <= m < rest.len() && rest[m] == j;
                    assert(all[m + 1] == j);
                }
            }
        },
        None => {},
    }
}

} // verus!
