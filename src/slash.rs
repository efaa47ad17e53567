use vstd::prelude::*;
use crate::block::BeaconBlockHeader;
use crate::caches::Slasher;
use crate::errors::{BlockError, BlockSlashInfo};
use crate::signature::verify_header_signature;

verus! {

/// The header a failed block hands to the slasher, if any: one whose proposer
/// signature is known to be valid or, unchecked so far, verifies now.
pub open spec fn slashable_header(info: BlockSlashInfo<BlockError>, validator_count: u64) -> Option<BeaconBlockHeader> {
    match info {
        BlockSlashInfo::SignatureNotChecked(h, _) => if h.message.proposer_index < validator_count
            && h.signature_valid {
            Some(h.message)
        } else {
            None
        },
        BlockSlashInfo::SignatureInvalid(_) => None,
        BlockSlashInfo::SignatureValid(h, _) => Some(h.message),
    }
}

/// `after` is `before` with `header`, if any, handed to the slasher, if one
/// is configured.
pub open spec fn slasher_after(before: Option<Slasher>, after: Option<Slasher>, header: Option<BeaconBlockHeader>) -> bool {
    match before {
        None => after == before,
        Some(s0) => match header {
            Some(h) => after is Some && after->0.headers@ == s0.headers@.push(h),
            None => after == before,
        },
    }
}

/// Hands what a failed block offers to the slasher, if one is configured,
/// and returns the block's error.
pub fn process_block_slash_info(
    slasher: &mut Option<Slasher>,
    validator_count: u64,
    info: BlockSlashInfo<BlockError>,
) -> (r: BlockError)
    ensures
        r == info.error_spec(),
        slasher_after(*old(slasher), *final(slasher), slashable_header(info, validator_count)),
{
    match slasher {
        Some(s) => {
            match info {
                BlockSlashInfo::SignatureNotChecked(header, e) => {
                    if verify_header_signature(validator_count, &header).is_ok() {
                        s.accept_block_header(header.message);
                    }
                    e
                },
                BlockSlashInfo::SignatureInvalid(e) => e,
                BlockSlashInfo::SignatureValid(header, e) => {
                    s.accept_block_header(header.message);
                    e
                },
            }
        },
        None => info.into_error(),
    }
}

} // verus!
