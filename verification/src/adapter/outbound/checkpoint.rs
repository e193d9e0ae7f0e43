//! The binary checkpoint envelope: a magic number and a format version around
//! the model snapshot.
use vstd::prelude::*;
use vstd::string::*;
use crate::domain::entity::error::TransformerError;
use crate::text::{decimal_digits, push_decimal};

verus! {

/// The first four bytes of every checkpoint: `TRRS`.
pub const MAGIC: [u8; 4] = [84u8, 82u8, 82u8, 83u8];

/// The checkpoint format version this library reads and writes.
pub const VERSION: u32 = 1;

/// Accepts an envelope with the expected magic and version; otherwise reports
/// the wrong magic first, then an unsupported version.
pub fn check_envelope(magic: &[u8; 4], version: u32) -> (r: Result<(), TransformerError>)
    ensures
        magic@ != seq![84u8, 82u8, 82u8, 83u8] ==> (r matches Err(TransformerError::Checkpoint(m)) && m@ == "wrong magic"@),
        magic@ == seq![84u8, 82u8, 82u8, 83u8] && version != 1 ==> (r matches Err(
            TransformerError::Checkpoint(m),
        ) && m@ == "unsupported version "@ + decimal_digits(version as nat)),
        magic@ == seq![84u8, 82u8, 82u8, 83u8] && version == 1 ==> r is Ok,
{
    if !(magic[0] == 84u8 && magic[1] == 82u8 && magic[2] == 82u8 && magic[3] == 83u8) {
        assert(magic@ != seq![84u8, 82u8, 82u8, 83u8]);
        return Err(TransformerError::Checkpoint(String::from_str("wrong magic")));
    }
    assert(magic@ =~= seq![84u8, 82u8, 82u8, 83u8]);
    if version != VERSION {
        let mut m = String::from_str("unsupported version ");
        push_decimal(&mut m, version as u64);
        return Err(TransformerError::Checkpoint(m));
    }
    Ok(())
}

} // verus!
