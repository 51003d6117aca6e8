//! Seeds, the fallback metadata host, and the display name, slug and
//! metadata URI of each badge.

use vstd::prelude::*;

use crate::reputation::BadgeType;

verus! {

/// Seed of the singleton configuration account's address: `config`.
pub const CONFIG_SEED: [u8; 6] = [99, 111, 110, 102, 105, 103];

/// Seed of each claimed achievement's address: `achievement`.
pub const ACHIEVEMENT_SEED: [u8; 11] = [97, 99, 104, 105, 101, 118, 101, 109, 101, 110, 116];

/// Fallback base URI, used only when `init_collection` is called with an
/// empty string. The live value lives in `AchievementConfig::base_uri` so
/// that it can be corrected without redeploying the program.
pub const DEFAULT_METADATA_BASE_URI: &'static str = "https://paygig.app/achievements";

/// The display name of a badge.
pub open spec fn badge_name_view(badge_type: BadgeType) -> Seq<char> {
    match badge_type {
        BadgeType::FirstGig => "First Gig"@,
        BadgeType::TenCompletedJobs => "Ten Gigs"@,
        BadgeType::HundredCompletedJobs => "Hundred Gigs"@,
        BadgeType::FiveStarPerformer => "Five Star"@,
        BadgeType::TrustedFreelancer => "Trusted Freelancer"@,
        BadgeType::FastDeliverer => "Fast Deliverer"@,
        BadgeType::TopRated => "Top Rated"@,
    }
}

/// The URL slug of a badge.
pub open spec fn badge_slug_view(badge_type: BadgeType) -> Seq<char> {
    match badge_type {
        BadgeType::FirstGig => "first-gig"@,
        BadgeType::TenCompletedJobs => "ten-gigs"@,
        BadgeType::HundredCompletedJobs => "hundred-gigs"@,
        BadgeType::FiveStarPerformer => "five-star"@,
        BadgeType::TrustedFreelancer => "trusted-freelancer"@,
        BadgeType::FastDeliverer => "fast-deliverer"@,
        BadgeType::TopRated => "top-rated"@,
    }
}

/// `s` without the slashes it ends with.
pub open spec fn trim_trailing_slashes(s: Seq<char>) -> Seq<char>
    decreases s.len(),
{
    if s.len() > 0 && s.last() == '/' {
        trim_trailing_slashes(s.drop_last())
    } else {
        s
    }
}

/// The metadata URI of a badge under a base URI: the base without its
/// trailing slashes, a slash, the badge's slug and `.json`.
pub open spec fn badge_uri_view(base_uri: Seq<char>, badge_type: BadgeType) -> Seq<char> {
    trim_trailing_slashes(base_uri) + "/"@ + badge_slug_view(badge_type) + ".json"@
}

/// The display name of a badge.
pub fn badge_name(badge_type: BadgeType) -> (name: &'static str)
    ensures
        name@ == badge_name_view(badge_type),
{
    match badge_type {
        BadgeType::FirstGig => "First Gig",
        BadgeType::TenCompletedJobs => "Ten Gigs",
        BadgeType::HundredCompletedJobs => "Hundred Gigs",
        BadgeType::FiveStarPerformer => "Five Star",
        BadgeType::TrustedFreelancer => "Trusted Freelancer",
        BadgeType::FastDeliverer => "Fast Deliverer",
        BadgeType::TopRated => "Top Rated",
    }
}

/// The URL slug of a badge.
pub fn badge_slug(badge_type: BadgeType) -> (slug: &'static str)
    ensures
        slug@ == badge_slug_view(badge_type),
{
    match badge_type {
        BadgeType::FirstGig => "first-gig",
        BadgeType::TenCompletedJobs => "ten-gigs",
        BadgeType::HundredCompletedJobs => "hundred-gigs",
        BadgeType::FiveStarPerformer => "five-star",
        BadgeType::TrustedFreelancer => "trusted-freelancer",
        BadgeType::FastDeliverer => "fast-deliverer",
        BadgeType::TopRated => "top-rated",
    }
}

/// Builds a badge's metadata URI from the stored base and the badge slug.
/// Any trailing slash on `base_uri` is trimmed so both `https://host/x`
/// and `https://host/x/` produce the same result.
pub fn badge_uri(base_uri: &str, badge_type: BadgeType) -> (uri: String)
    ensures
        uri@ == badge_uri_view(base_uri@, badge_type),
{
    let n: usize = base_uri.unicode_len();
    let mut end: usize = n;
    assert(base_uri@.subrange(0, n as int) =~= base_uri@);
    while end > 0 && base_uri.get_char(end - 1) == '/'
        invariant
            n == base_uri@.len(),
            end <= n,
            trim_trailing_slashes(base_uri@) == trim_trailing_slashes(
                base_uri@.subrange(0, end as int),
            ),
        decreases end,
    {
        assert(base_uri@.subrange(0, end as int).drop_last() =~= base_uri@.subrange(
            0,
            end - 1,
        ));
        end -= 1;
    }
    let kept = base_uri.substring_char(0, end);
    let mut uri = String::from_str(kept);
    uri.append("/");
    uri.append(badge_slug(badge_type));
    uri.append(".json");
    uri
}

/// Trailing slashes on the base do not change a badge's metadata URI: a
/// base with one more slash at its end gives the same URI.
pub proof fn badge_uri_ignores_trailing_slash(base_uri: Seq<char>, badge_type: BadgeType)
    ensures
        badge_uri_view(base_uri.push('/'), badge_type) == badge_uri_view(base_uri, badge_type),
{
    assert(base_uri.push('/').drop_last() =~= base_uri);
}

/// Trimming trailing slashes twice trims nothing more.
pub proof fn trim_trailing_slashes_idempotent(s: Seq<char>)
    ensures
        trim_trailing_slashes(trim_trailing_slashes(s)) == trim_trailing_slashes(s),
    decreases s.len(),
{
    if s.len() > 0 && s.last() == '/' {
        trim_trailing_slashes_idempotent(s.drop_last());
    }
}

} // verus!
