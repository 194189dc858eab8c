//! The computations behind the file operations of husky.
use vstd::prelude::*;

verus! {

/// The struct that contains the local filesystem operations.
pub struct LocalFilesystem {}

impl LocalFilesystem {
    /// The permission bits of a hook script once its owner may execute it:
    /// the owner's execute bit is set, every other bit is kept.
    pub fn execute_mode(mode: u32) -> (res: u32)
        ensures
            res == mode | 0o100u32,
            res & 0o100u32 == 0o100u32,
            res & !0o100u32 == mode & !0o100u32,
    {
        let res = mode | 0o100u32;
        assert(res & 0o100u32 == 0o100u32) by (bit_vector)
            requires
                res == mode | 0o100u32,
        ;
        assert(res & !0o100u32 == mode & !0o100u32) by (bit_vector)
            requires
                res == mode | 0o100u32,
        ;
        res
    }
}

/// Setting the execute permission twice is setting it once.
pub proof fn lemma_execute_mode_idempotent(mode: u32)
    ensures
        (mode | 0o100u32) | 0o100u32 == mode | 0o100u32,
{
    assert((mode | 0o100u32) | 0o100u32 == mode | 0o100u32) by (bit_vector);
}

} // verus!
