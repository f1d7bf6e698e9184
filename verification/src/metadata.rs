use vstd::prelude::*;
use crate::version::{pre_0_6_0, Version};

verus! {

/// One choice of how the compiler embeds a content hash of the source into
/// the trailing bytes of the compiled bytecode. `NoSelection` leaves the
/// setting out entirely: releases before 0.6.0 have no such knob.
#[derive(Debug, Clone, Copy, PartialEq, Eq, Structural)]
pub enum MetadataVariant {
    NoSelection,
    Ipfs,
    NoHash,
    Bzzr1,
}

/// The ordered variant list for a release: a single `NoSelection` before
/// 0.6.0, otherwise every hash algorithm, most commonly deployed first.
pub open spec fn settings_metadata_spec(v: Version) -> Seq<MetadataVariant> {
    if pre_0_6_0(v) {
        seq![MetadataVariant::NoSelection]
    } else {
        seq![MetadataVariant::Ipfs, MetadataVariant::NoHash, MetadataVariant::Bzzr1]
    }
}

/// Enumerates the settings-metadata variants worth trying for a release.
/// The multi-file input form never says which option the deployer used, so
/// the search tries each in turn; the order reflects how often each option
/// occurs in practice, which sets expected search cost, not correctness.
pub fn settings_metadata(compiler_version: &Version) -> (r: Vec<MetadataVariant>)
    ensures
        r@ == settings_metadata_spec(*compiler_version),
{
    let mut r: Vec<MetadataVariant> = Vec::new();
    if compiler_version.is_pre_0_6_0() {
        r.push(MetadataVariant::NoSelection);
        proof {
            assert(r@ =~= settings_metadata_spec(*compiler_version));
        }
    } else {
        r.push(MetadataVariant::Ipfs);
        r.push(MetadataVariant::NoHash);
        r.push(MetadataVariant::Bzzr1);
        proof {
            assert(r@ =~= settings_metadata_spec(*compiler_version));
        }
    }
    r
}

/// Before release 0.6.0 there is exactly one variant to try: the compiler
/// offers no metadata-hash choice, so there is nothing to search.
pub proof fn lemma_variants_single_before_0_6_0(v: Version)
    requires
        pre_0_6_0(v),
    ensures
        settings_metadata_spec(v).len() == 1,
        settings_metadata_spec(v)[0] == MetadataVariant::NoSelection,
{
}

/// From release 0.6.0 on, the variant list is the full algorithm list, in
/// its fixed likelihood order, with no duplicates.
pub proof fn lemma_variants_full_from_0_6_0(v: Version)
    requires
        !pre_0_6_0(v),
    ensures
        settings_metadata_spec(v) == seq![
            MetadataVariant::Ipfs,
            MetadataVariant::NoHash,
            MetadataVariant::Bzzr1,
        ],
        settings_metadata_spec(v).len() == 3,
        forall|i: int, j: int|
            0 <= i < j < settings_metadata_spec(v).len() ==> settings_metadata_spec(v)[i]
                != settings_metadata_spec(v)[j],
{
}

} // verus!
