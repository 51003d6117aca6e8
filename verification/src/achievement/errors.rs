//! The achievement program's own errors.

use vstd::prelude::*;

use crate::framework::custom_error_offset;

verus! {

/// Why an achievement instruction was refused.
#[derive(Clone, Copy, Debug, PartialEq, Eq, Structural)]
pub enum AchievementError {
    CollectionAlreadyInitialized,
    BadgeNotEarned,
    ProfileMismatch,
    AlreadyClaimed,
    Unauthorized,
    BaseUriTooLong,
}

/// The position of an error in the program's error list.
pub open spec fn achievement_error_index(e: AchievementError) -> u32 {
    match e {
        AchievementError::CollectionAlreadyInitialized => 0,
        AchievementError::BadgeNotEarned => 1,
        AchievementError::ProfileMismatch => 2,
        AchievementError::AlreadyClaimed => 3,
        AchievementError::Unauthorized => 4,
        AchievementError::BaseUriTooLong => 5,
    }
}

/// The message reported with an error.
pub open spec fn achievement_error_message(e: AchievementError) -> Seq<char> {
    match e {
        AchievementError::CollectionAlreadyInitialized => "Achievement collection has already been initialized"@,
        AchievementError::BadgeNotEarned => "Badge has not been earned by this profile"@,
        AchievementError::ProfileMismatch => "Badge does not belong to the claiming profile"@,
        AchievementError::AlreadyClaimed => "Achievement has already been claimed"@,
        AchievementError::Unauthorized => "Signer is not the achievement config admin"@,
        AchievementError::BaseUriTooLong => "Metadata base URI is empty or exceeds the maximum length"@,
    }
}

impl AchievementError {
    /// The error number reported on chain: the framework's offset for
    /// program errors plus the error's position.
    pub fn code(&self) -> (n: u32)
        ensures
            n == 6000 + achievement_error_index(*self),
    {
        let index: u32 = match self {
            AchievementError::CollectionAlreadyInitialized => 0,
            AchievementError::BadgeNotEarned => 1,
            AchievementError::ProfileMismatch => 2,
            AchievementError::AlreadyClaimed => 3,
            AchievementError::Unauthorized => 4,
            AchievementError::BaseUriTooLong => 5,
        };
        custom_error_offset() + index
    }

    /// The message reported with the error.
    pub fn message(&self) -> (msg: &'static str)
        ensures
            msg@ == achievement_error_message(*self),
    {
        match self {
            AchievementError::CollectionAlreadyInitialized => "Achievement collection has already been initialized",
            AchievementError::BadgeNotEarned => "Badge has not been earned by this profile",
            AchievementError::ProfileMismatch => "Badge does not belong to the claiming profile",
            AchievementError::AlreadyClaimed => "Achievement has already been claimed",
            AchievementError::Unauthorized => "Signer is not the achievement config admin",
            AchievementError::BaseUriTooLong => "Metadata base URI is empty or exceeds the maximum length",
        }
    }
}

} // verus!
