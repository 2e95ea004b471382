//! Fixed-layout definitions of the image format: the two header shapes
//! (32-bit and 64-bit), the two section-descriptor shapes, the identification
//! constants, and the width tag that lets callers dispatch on the class once.

#![allow(non_camel_case_types)]

use vstd::prelude::*;

verus! {

/// Number of identification bytes at the start of an image.
pub const EI_NIDENT: usize = 16;

/// Index of the width-class byte inside the identification bytes.
pub const EI_CLASS: usize = 4;

/// Width-class byte of a 32-bit image.
pub const ELFCLASS32: u8 = 1;

/// Width-class byte of a 64-bit image.
pub const ELFCLASS64: u8 = 2;

/// Length of the magic signature.
pub const SELFMAG: usize = 4;

/// Image type of a fixed-address executable; any other type is
/// position-independent and needs base correction.
pub const ET_EXEC: u16 = 2;

/// 32-bit image header, deserialized field by field from the first 52 bytes.
pub struct Elf32_Ehdr {
    pub e_ident: [u8; 16],
    pub e_type: u16,
    pub e_machine: u16,
    pub e_version: u32,
    pub e_entry: u32,
    pub e_phoff: u32,
    pub e_shoff: u32,
    pub e_flags: u32,
    pub e_ehsize: u16,
    pub e_phentsize: u16,
    pub e_phnum: u16,
    pub e_shentsize: u16,
    pub e_shnum: u16,
    pub e_shstrndx: u16,
}

/// 64-bit image header, deserialized field by field from the first 64 bytes.
pub struct Elf64_Ehdr {
    pub e_ident: [u8; 16],
    pub e_type: u16,
    pub e_machine: u16,
    pub e_version: u32,
    pub e_entry: u64,
    pub e_phoff: u64,
    pub e_shoff: u64,
    pub e_flags: u32,
    pub e_ehsize: u16,
    pub e_phentsize: u16,
    pub e_phnum: u16,
    pub e_shentsize: u16,
    pub e_shnum: u16,
    pub e_shstrndx: u16,
}

/// 32-bit section descriptor (40 bytes on disk).
pub struct Elf32_Shdr {
    pub sh_name: u32,
    pub sh_type: u32,
    pub sh_flags: u32,
    pub sh_addr: u32,
    pub sh_offset: u32,
    pub sh_size: u32,
    pub sh_link: u32,
    pub sh_info: u32,
    pub sh_addralign: u32,
    pub sh_entsize: u32,
}

/// 64-bit section descriptor (64 bytes on disk).
pub struct Elf64_Shdr {
    pub sh_name: u32,
    pub sh_type: u32,
    pub sh_flags: u64,
    pub sh_addr: u64,
    pub sh_offset: u64,
    pub sh_size: u64,
    pub sh_link: u32,
    pub sh_info: u32,
    pub sh_addralign: u64,
    pub sh_entsize: u64,
}

impl Elf32_Shdr {
    /// An all-zero descriptor.
    pub fn new() -> (r: Self)
        ensures
            r.sh_name == 0 && r.sh_type == 0 && r.sh_flags == 0 && r.sh_addr == 0,
            r.sh_offset == 0 && r.sh_size == 0 && r.sh_link == 0 && r.sh_info == 0,
            r.sh_addralign == 0 && r.sh_entsize == 0,
    {
        Elf32_Shdr {
            sh_name: 0,
            sh_type: 0,
            sh_flags: 0,
            sh_addr: 0,
            sh_offset: 0,
            sh_size: 0,
            sh_link: 0,
            sh_info: 0,
            sh_addralign: 0,
            sh_entsize: 0,
        }
    }
}

impl Elf64_Shdr {
    /// An all-zero descriptor.
    pub fn new() -> (r: Self)
        ensures
            r.sh_name == 0 && r.sh_type == 0 && r.sh_flags == 0 && r.sh_addr == 0,
            r.sh_offset == 0 && r.sh_size == 0 && r.sh_link == 0 && r.sh_info == 0,
            r.sh_addralign == 0 && r.sh_entsize == 0,
    {
        Elf64_Shdr {
            sh_name: 0,
            sh_type: 0,
            sh_flags: 0,
            sh_addr: 0,
            sh_offset: 0,
            sh_size: 0,
            sh_link: 0,
            sh_info: 0,
            sh_addralign: 0,
            sh_entsize: 0,
        }
    }
}

impl Elf32_Ehdr {
    /// An all-zero header.
    pub fn new() -> (r: Self)
        ensures
            r.e_ident@ == Seq::new(16, |i: int| 0u8),
            r.e_type == 0 && r.e_machine == 0 && r.e_version == 0 && r.e_entry == 0,
            r.e_phoff == 0 && r.e_shoff == 0 && r.e_flags == 0 && r.e_ehsize == 0,
            r.e_phentsize == 0 && r.e_phnum == 0 && r.e_shentsize == 0,
            r.e_shnum == 0 && r.e_shstrndx == 0,
    {
        let r = Elf32_Ehdr {
            e_ident: [0u8; 16],
            e_type: 0,
            e_machine: 0,
            e_version: 0,
            e_entry: 0,
            e_phoff: 0,
            e_shoff: 0,
            e_flags: 0,
            e_ehsize: 0,
            e_phentsize: 0,
            e_phnum: 0,
            e_shentsize: 0,
            e_shnum: 0,
            e_shstrndx: 0,
        };
        proof {
            assert(r.e_ident@ =~= Seq::new(16, |i: int| 0u8));
        }
        r
    }
}

impl Elf64_Ehdr {
    /// An all-zero header.
    pub fn new() -> (r: Self)
        ensures
            r.e_ident@ == Seq::new(16, |i: int| 0u8),
            r.e_type == 0 && r.e_machine == 0 && r.e_version == 0 && r.e_entry == 0,
            r.e_phoff == 0 && r.e_shoff == 0 && r.e_flags == 0 && r.e_ehsize == 0,
            r.e_phentsize == 0 && r.e_phnum == 0 && r.e_shentsize == 0,
            r.e_shnum == 0 && r.e_shstrndx == 0,
    {
        let r = Elf64_Ehdr {
            e_ident: [0u8; 16],
            e_type: 0,
            e_machine: 0,
            e_version: 0,
            e_entry: 0,
            e_phoff: 0,
            e_shoff: 0,
            e_flags: 0,
            e_ehsize: 0,
            e_phentsize: 0,
            e_phnum: 0,
            e_shentsize: 0,
            e_shnum: 0,
            e_shstrndx: 0,
        };
        proof {
            assert(r.e_ident@ =~= Seq::new(16, |i: int| 0u8));
        }
        r
    }
}

/// Width tag over the two header shapes: every consumer dispatches on this
/// once instead of re-inspecting raw identification bytes.
pub enum ElfW<A, B> {
    Elf32(A),
    Elf64(B),
}

/// Shared capability set of the two header shapes and of the width tag.
pub trait ElfW_Ehdr {
    /// The width-class byte the header carries.
    spec fn class_spec(&self) -> u8;

    /// The magic signature bytes the header carries.
    spec fn magic_spec(&self) -> Seq<u8>;

    /// The image type the header carries.
    spec fn etype_spec(&self) -> u16;

    fn get_class(&self) -> (r: u8)
        ensures
            r == self.class_spec(),
    ;

    fn get_magic(&self) -> (r: Vec<u8>)
        ensures
            r@ == self.magic_spec(),
    ;

    fn get_type(&self) -> (r: u16)
        ensures
            r == self.etype_spec(),
    ;
}

impl ElfW_Ehdr for Elf32_Ehdr {
    open spec fn class_spec(&self) -> u8 {
        self.e_ident@[EI_CLASS as int]
    }

    open spec fn magic_spec(&self) -> Seq<u8> {
        self.e_ident@.subrange(0, SELFMAG as int)
    }

    open spec fn etype_spec(&self) -> u16 {
        self.e_type
    }

    fn get_class(&self) -> (r: u8) {
        self.e_ident[EI_CLASS]
    }

    fn get_magic(&self) -> (r: Vec<u8>) {
        let mut v: Vec<u8> = Vec::new();
        v.push(self.e_ident[0]);
        v.push(self.e_ident[1]);
        v.push(self.e_ident[2]);
        v.push(self.e_ident[3]);
        proof {
            assert(v@ =~= self.magic_spec());
        }
        v
    }

    fn get_type(&self) -> (r: u16) {
        self.e_type
    }
}

impl ElfW_Ehdr for Elf64_Ehdr {
    open spec fn class_spec(&self) -> u8 {
        self.e_ident@[EI_CLASS as int]
    }

    open spec fn magic_spec(&self) -> Seq<u8> {
        self.e_ident@.subrange(0, SELFMAG as int)
    }

    open spec fn etype_spec(&self) -> u16 {
        self.e_type
    }

    fn get_class(&self) -> (r: u8) {
        self.e_ident[EI_CLASS]
    }

    fn get_magic(&self) -> (r: Vec<u8>) {
        let mut v: Vec<u8> = Vec::new();
        v.push(self.e_ident[0]);
        v.push(self.e_ident[1]);
        v.push(self.e_ident[2]);
        v.push(self.e_ident[3]);
        proof {
            assert(v@ =~= self.magic_spec());
        }
        v
    }

    fn get_type(&self) -> (r: u16) {
        self.e_type
    }
}

impl<A: ElfW_Ehdr, B: ElfW_Ehdr> ElfW_Ehdr for ElfW<A, B> {
    open spec fn class_spec(&self) -> u8 {
        match self {
            ElfW::Elf32(e) => e.class_spec(),
            ElfW::Elf64(e) => e.class_spec(),
        }
    }

    open spec fn magic_spec(&self) -> Seq<u8> {
        match self {
            ElfW::Elf32(e) => e.magic_spec(),
            ElfW::Elf64(e) => e.magic_spec(),
        }
    }

    open spec fn etype_spec(&self) -> u16 {
        match self {
            ElfW::Elf32(e) => e.etype_spec(),
            ElfW::Elf64(e) => e.etype_spec(),
        }
    }

    fn get_class(&self) -> (r: u8) {
        match self {
            ElfW::Elf32(e) => e.get_class(),
            ElfW::Elf64(e) => e.get_class(),
        }
    }

    fn get_magic(&self) -> (r: Vec<u8>) {
        match self {
            ElfW::Elf32(e) => e.get_magic(),
            ElfW::Elf64(e) => e.get_magic(),
        }
    }

    fn get_type(&self) -> (r: u16) {
        match self {
            ElfW::Elf32(e) => e.get_type(),
            ElfW::Elf64(e) => e.get_type(),
        }
    }
}

} // verus!
