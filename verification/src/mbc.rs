use vstd::prelude::*;

verus! {

/// Bytes of cartridge ROM the controller serves: two fixed 16 KiB banks.
pub const ROM_SIZE: usize = 0x8000;

/// The cartridge header, as laid out in ROM at 0x0100..=0x014F.
pub struct Header {
    pub entry_point: Vec<u8>,
    pub nintendo_logo: Vec<u8>,
    pub title: Vec<u8>,
    pub manufacturer_code: Vec<u8>,
    pub cgb_flag: u8,
    pub new_licensee_code: Vec<u8>,
    pub sgb_flag: u8,
    pub cartridge_type: u8,
    pub rom_size: u8,
    pub ram_size: u8,
    pub destination_code: u8,
    pub old_licensee_code: u8,
    pub mask_rom_version_number: u8,
    pub header_checksum: u8,
    pub global_checksum: Vec<u8>,
}

/// ROM controller: parses the cartridge header and serves reads from the
/// fixed ROM region.
pub struct Mbc {
    pub header: Header,
    pub rom: Vec<u8>,
}

impl View for Mbc {
    type V = Seq<u8>;

    open spec fn view(&self) -> Seq<u8> {
        self.rom@
    }
}

/// Copies `data[start..end]` into a fresh vector.
fn copy_range(data: &[u8], start: usize, end: usize) -> (r: Vec<u8>)
    requires
        start <= end <= data@.len(),
    ensures
        r@ == data@.subrange(start as int, end as int),
{
    let mut r: Vec<u8> = Vec::new();
    let mut i: usize = start;
    while i < end
        invariant
            start <= i <= end <= data@.len(),
            r@ == data@.subrange(start as int, i as int),
        decreases end - i,
    {
        r.push(data[i]);
        i = i + 1;
        proof {
            assert(r@ =~= data@.subrange(start as int, i as int));
        }
    }
    r
}

impl Mbc {
    /// The controller always holds exactly the two fixed ROM banks.
    pub open spec fn wf(self) -> bool {
        self@.len() == ROM_SIZE
    }

    /// Builds the controller from a cartridge image: the header fields are
    /// the documented byte ranges of the image, the ROM its first 32 KiB.
    pub fn new(data: &[u8]) -> (r: Mbc)
        requires
            data@.len() >= ROM_SIZE,
        ensures
            r.wf(),
            r@ == data@.subrange(0, ROM_SIZE as int),
            r.header.entry_point@ == data@.subrange(0x0100, 0x0104),
            r.header.nintendo_logo@ == data@.subrange(0x0104, 0x0134),
            r.header.title@ == data@.subrange(0x0134, 0x0144),
            r.header.manufacturer_code@ == data@.subrange(0x013f, 0x0143),
            r.header.cgb_flag == data@[0x0143],
            r.header.new_licensee_code@ == data@.subrange(0x0144, 0x0146),
            r.header.sgb_flag == data@[0x0146],
            r.header.cartridge_type == data@[0x0147],
            r.header.rom_size == data@[0x0148],
            r.header.ram_size == data@[0x0149],
            r.header.destination_code == data@[0x014a],
            r.header.old_licensee_code == data@[0x014b],
            r.header.mask_rom_version_number == data@[0x014c],
            r.header.header_checksum == data@[0x014d],
            r.header.global_checksum@ == data@.subrange(0x014e, 0x0150),
    {
        let header = Header {
            entry_point: copy_range(data, 0x0100, 0x0104),
            nintendo_logo: copy_range(data, 0x0104, 0x0134),
            title: copy_range(data, 0x0134, 0x0144),
            manufacturer_code: copy_range(data, 0x013f, 0x0143),
            cgb_flag: data[0x0143],
            new_licensee_code: copy_range(data, 0x0144, 0x0146),
            sgb_flag: data[0x0146],
            cartridge_type: data[0x0147],
            rom_size: data[0x0148],
            ram_size: data[0x0149],
            destination_code: data[0x014a],
            old_licensee_code: data[0x014b],
            mask_rom_version_number: data[0x014c],
            header_checksum: data[0x014d],
            global_checksum: copy_range(data, 0x014e, 0x0150),
        };
        Mbc {
            header,
            rom: copy_range(data, 0x0000, ROM_SIZE),
        }
    }

    /// Serves one byte of the fixed ROM region.
    pub fn read(&self, addr: u16) -> (r: u8)
        requires
            self.wf(),
            addr < ROM_SIZE,
        ensures
            r == self@[addr as int],
    {
        self.rom[addr as usize]
    }
}

} // verus!
