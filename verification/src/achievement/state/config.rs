//! The singleton configuration account.

use vstd::prelude::*;
use vstd::utf8::encode_utf8;

use crate::pubkey::Pubkey;

verus! {

/// Singleton config holding the shared collection that every claimed
/// achievement NFT is minted into, plus the base URI its metadata is served
/// from.
pub struct AchievementConfig {
    pub admin: Pubkey,
    pub collection: Pubkey,
    /// Base URI for off-chain badge metadata JSON; the badge's slug is
    /// appended (e.g. `<base_uri>/first-gig.json`). Stored on chain so that a
    /// wrong or moved metadata host can be corrected with `set_base_uri`
    /// instead of a program redeploy.
    pub base_uri: String,
    pub bump: u8,
}

/// The configuration as values.
pub struct AchievementConfigView {
    pub admin: Pubkey,
    pub collection: Pubkey,
    pub base_uri: Seq<char>,
    pub bump: u8,
}

impl View for AchievementConfig {
    type V = AchievementConfigView;

    open spec fn view(&self) -> AchievementConfigView {
        AchievementConfigView {
            admin: self.admin,
            collection: self.collection,
            base_uri: self.base_uri@,
            bump: self.bump,
        }
    }
}

/// The number of bytes that a base URI takes when stored.
pub open spec fn stored_len(uri: Seq<char>) -> nat {
    encode_utf8(uri).len()
}

/// A base URI that the configuration accepts: not empty, and no longer than
/// the space reserved for it.
pub open spec fn base_uri_acceptable(uri: Seq<char>) -> bool {
    uri.len() > 0 && stored_len(uri) <= AchievementConfig::MAX_BASE_URI_LEN
}

impl AchievementConfigView {
    /// What every stored configuration satisfies: its base URI is
    /// acceptable.
    pub open spec fn well_formed(self) -> bool {
        base_uri_acceptable(self.base_uri)
    }
}

impl AchievementConfig {
    /// The most bytes that the stored base URI may take.
    pub const MAX_BASE_URI_LEN: usize = 128;

    /// The account's size: discriminator, admin, collection, base URI
    /// (length prefix and bytes) and bump.
    pub const INIT_SPACE: usize = 8 + 32 + 32 + 4 + Self::MAX_BASE_URI_LEN + 1;
}

} // verus!
