//! The check that an image has to pass before it is written anywhere.

use vstd::prelude::*;

verus! {

/// The length of the identification block at the start of an ELF file. A
/// shorter buffer cannot be an ELF image.
pub const ELF_IDENT_LEN: usize = 16;

/// The four bytes every ELF file starts with: `0x7f`, `E`, `L`, `F`.
pub open spec fn elf_magic() -> Seq<u8> {
    seq![0x7fu8, 0x45u8, 0x4cu8, 0x46u8]
}

/// An image is accepted when it holds a whole identification block and starts
/// with the magic bytes. Nothing else of it is looked at.
pub open spec fn is_elf_image(bytes: Seq<u8>) -> bool {
    bytes.len() >= ELF_IDENT_LEN && bytes.subrange(0, 4) == elf_magic()
}

/// Tells whether `bytes` is accepted as an ELF image.
pub fn validate_elf_header(bytes: &[u8]) -> (ok: bool)
    ensures
        ok == is_elf_image(bytes@),
{
    if bytes.len() < ELF_IDENT_LEN {
        return false;
    }
    let ok = bytes[0] == 0x7f && bytes[1] == 0x45 && bytes[2] == 0x4c && bytes[3] == 0x46;
    proof {
        let head = bytes@.subrange(0, 4);
        if ok {
            assert(head =~= elf_magic());
        } else {
            assert(head[0] == bytes@[0] && head[1] == bytes@[1] && head[2] == bytes@[2] && head[3]
                == bytes@[3]);
            assert(elf_magic()[0] == 0x7f && elf_magic()[1] == 0x45 && elf_magic()[2] == 0x4c
                && elf_magic()[3] == 0x46);
        }
    }
    ok
}

} // verus!
