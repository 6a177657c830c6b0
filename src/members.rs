//! Vocabulary of the member records kept behind the guard.
use vstd::prelude::*;

verus! {

/// A member's occupation.
#[derive(Debug, Clone, Copy, PartialEq, Eq)]
pub enum StatusMember {
    Pekerja,
    IbuRumahTangga,
    Pelajar,
    Mahasiswa,
    Pengangguran,
}

/// A member's gender.
#[derive(Debug, Clone, Copy, PartialEq, Eq)]
pub enum GenderMember {
    LakiLaki,
    Perempuan,
}

} // verus!
