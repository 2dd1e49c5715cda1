//! The path under which the kernel shows an open descriptor of this process.

use vstd::prelude::*;
use crate::cstring::{c_string, lemma_c_string_of_padded, nul_padded};

verus! {

/// The size of the buffer a path is written into.
pub const EXEC_PATH_LEN: usize = 20;

/// The ASCII digit `0`; the other digits follow it.
pub const DIGIT_ZERO: u8 = 0x30;

/// The ASCII digit `9`.
pub const DIGIT_NINE: u8 = 0x39;

/// `/proc/self/fd/`, the directory of the descriptors of this process.
pub open spec fn fd_directory() -> Seq<u8> {
    seq![
        0x2fu8, 0x70u8, 0x72u8, 0x6fu8, 0x63u8, 0x2fu8, 0x73u8, 0x65u8, 0x6cu8, 0x66u8, 0x2fu8,
        0x66u8, 0x64u8, 0x2fu8,
    ]
}

/// The decimal digits of `n` in ASCII, most significant first, without
/// leading zeros.
pub open spec fn decimal(n: nat) -> Seq<u8>
    decreases n,
{
    if n < 10 {
        seq![(DIGIT_ZERO + n) as u8]
    } else {
        decimal(n / 10).push((DIGIT_ZERO + n % 10) as u8)
    }
}

/// The text `/proc/self/fd/<fd>`.
pub open spec fn fd_path(fd: u16) -> Seq<u8> {
    fd_directory() + decimal(fd as nat)
}

/// A number of at most five digits has one to five of them.
pub proof fn lemma_decimal_len(fd: u16)
    ensures
        1 <= decimal(fd as nat).len() <= 5,
        forall|i: int|
            0 <= i < decimal(fd as nat).len() ==> DIGIT_ZERO <= #[trigger] decimal(
                fd as nat,
            )[i] <= DIGIT_NINE,
{
    reveal_with_fuel(decimal, 5);
}

/// The buffer of a path reads back as the path: no byte of it is zero, and
/// nothing but zero bytes follows it.
pub proof fn lemma_path_reads_back(fd: u16)
    ensures
        fd_path(fd).len() < EXEC_PATH_LEN,
        c_string(nul_padded(fd_path(fd), EXEC_PATH_LEN as nat)) == fd_path(fd),
{
    lemma_decimal_len(fd);
    let text = fd_path(fd);
    assert forall|i: int| 0 <= i < text.len() implies text[i] != 0u8 by {
        if i >= 14 {
            assert(text[i] == decimal(fd as nat)[i - 14]);
        }
    }
    lemma_c_string_of_padded(text, EXEC_PATH_LEN as nat);
}

/// Writes the path of descriptor `fd` into a fresh buffer, NUL-terminated.
pub fn build_path(fd: u16) -> (path: [u8; EXEC_PATH_LEN])
    ensures
        path@ == nul_padded(fd_path(fd), EXEC_PATH_LEN as nat),
{
    let mut path: [u8; EXEC_PATH_LEN] = [
        0x2f, 0x70, 0x72, 0x6f, 0x63, 0x2f, 0x73, 0x65, 0x6c, 0x66, 0x2f, 0x66, 0x64, 0x2f,
        0, 0, 0, 0, 0, 0,
    ];
    let mut idx: usize = 14;
    if fd >= 10000 {
        path[idx] = DIGIT_ZERO + (fd / 10000) as u8;
        idx += 1;
    }
    if fd >= 1000 {
        path[idx] = DIGIT_ZERO + ((fd / 1000) % 10) as u8;
        idx += 1;
    }
    if fd >= 100 {
        path[idx] = DIGIT_ZERO + ((fd / 100) % 10) as u8;
        idx += 1;
    }
    if fd >= 10 {
        path[idx] = DIGIT_ZERO + ((fd / 10) % 10) as u8;
        idx += 1;
    }
    path[idx] = DIGIT_ZERO + (fd % 10) as u8;
    proof {
        reveal_with_fuel(decimal, 5);
        assert(path@ =~= nul_padded(fd_path(fd), EXEC_PATH_LEN as nat));
    }
    path
}

} // verus!
