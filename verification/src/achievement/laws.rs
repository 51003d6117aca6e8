//! What holds of the achievement program across all inputs.

use vstd::prelude::*;

use crate::reputation::BadgeType;
use crate::achievement::constants::{badge_name_view, badge_slug_view, badge_uri_view};
use crate::achievement::instructions::set_base_uri::{set_base_uri_outcome, SetBaseUri};
use crate::achievement::errors::AchievementError;
use crate::achievement::instructions::init_collection::{
    init_collection_outcome, InitCollection,
};
use crate::achievement::instructions::set_base_uri::config_seeds;
use crate::achievement::state::config::{AchievementConfig, AchievementConfigView};
use crate::achievement::constants::{trim_trailing_slashes, DEFAULT_METADATA_BASE_URI};
use crate::achievement::instructions::init_collection::{
    config_search_seeds, default_base_uri_acceptable,
};
use crate::framework::{
    bumped_program_address, found_bump, found_key, program_address, Account, Context,
    InstructionError,
};
use vstd::utf8::encode_utf8;

verus! {

/// Length, first and third character of each badge's slug, which together
/// tell the badges apart.
spec fn slug_signature(b: BadgeType) -> (nat, char, char) {
    match b {
        BadgeType::FirstGig => (9, 'f', 'r'),
        BadgeType::TenCompletedJobs => (8, 't', 'n'),
        BadgeType::HundredCompletedJobs => (12, 'h', 'n'),
        BadgeType::FiveStarPerformer => (9, 'f', 'v'),
        BadgeType::TrustedFreelancer => (18, 't', 'u'),
        BadgeType::FastDeliverer => (14, 'f', 's'),
        BadgeType::TopRated => (9, 't', 'p'),
    }
}

/// Length, first and third character of each badge's display name.
spec fn name_signature(b: BadgeType) -> (nat, char, char) {
    match b {
        BadgeType::FirstGig => (9, 'F', 'r'),
        BadgeType::TenCompletedJobs => (8, 'T', 'n'),
        BadgeType::HundredCompletedJobs => (12, 'H', 'n'),
        BadgeType::FiveStarPerformer => (9, 'F', 'v'),
        BadgeType::TrustedFreelancer => (18, 'T', 'u'),
        BadgeType::FastDeliverer => (14, 'F', 's'),
        BadgeType::TopRated => (9, 'T', 'p'),
    }
}

proof fn slug_has_signature(b: BadgeType)
    ensures
        ({
            let s = badge_slug_view(b);
            s.len() >= 3 && (s.len(), s[0], s[2]) == slug_signature(b)
        }),
{
    match b {
        BadgeType::FirstGig => reveal_strlit("first-gig"),
        BadgeType::TenCompletedJobs => reveal_strlit("ten-gigs"),
        BadgeType::HundredCompletedJobs => reveal_strlit("hundred-gigs"),
        BadgeType::FiveStarPerformer => reveal_strlit("five-star"),
        BadgeType::TrustedFreelancer => reveal_strlit("trusted-freelancer"),
        BadgeType::FastDeliverer => reveal_strlit("fast-deliverer"),
        BadgeType::TopRated => reveal_strlit("top-rated"),
    }
}

proof fn name_has_signature(b: BadgeType)
    ensures
        ({
            let s = badge_name_view(b);
            s.len() >= 3 && (s.len(), s[0], s[2]) == name_signature(b)
        }),
{
    match b {
        BadgeType::FirstGig => reveal_strlit("First Gig"),
        BadgeType::TenCompletedJobs => reveal_strlit("Ten Gigs"),
        BadgeType::HundredCompletedJobs => reveal_strlit("Hundred Gigs"),
        BadgeType::FiveStarPerformer => reveal_strlit("Five Star"),
        BadgeType::TrustedFreelancer => reveal_strlit("Trusted Freelancer"),
        BadgeType::FastDeliverer => reveal_strlit("Fast Deliverer"),
        BadgeType::TopRated => reveal_strlit("Top Rated"),
    }
}

/// Different badges have different slugs, so each badge has metadata of its
/// own.
pub proof fn badge_slugs_distinct(a: BadgeType, b: BadgeType)
    ensures
        badge_slug_view(a) == badge_slug_view(b) ==> a == b,
{
    slug_has_signature(a);
    slug_has_signature(b);
}

/// Different badges have different display names.
pub proof fn badge_names_distinct(a: BadgeType, b: BadgeType)
    ensures
        badge_name_view(a) == badge_name_view(b) ==> a == b,
{
    name_has_signature(a);
    name_has_signature(b);
}

/// Under one base URI, different badges get different metadata URIs.
pub proof fn badge_uris_distinct(base_uri: Seq<char>, a: BadgeType, b: BadgeType)
    ensures
        badge_uri_view(base_uri, a) == badge_uri_view(base_uri, b) ==> a == b,
{
    let head = crate::achievement::constants::trim_trailing_slashes(base_uri) + "/"@;
    let (ua, ub) = (badge_uri_view(base_uri, a), badge_uri_view(base_uri, b));
    if ua == ub {
        let (sa, sb) = (badge_slug_view(a), badge_slug_view(b));
        assert(ua =~= head + sa + ".json"@);
        assert(ub =~= head + sb + ".json"@);
        assert(sa.len() == sb.len());
        assert(sa =~= ua.subrange(head.len() as int, (head.len() + sa.len()) as int));
        assert(sb =~= ub.subrange(head.len() as int, (head.len() + sb.len()) as int));
        badge_slugs_distinct(a, b);
    }
}

/// Only the configuration's admin can change the base URI: with any other
/// signer, `set_base_uri` fails.
pub proof fn only_admin_sets_base_uri(ctx: Context<SetBaseUri>, base_uri: Seq<char>)
    requires
        ctx.accounts.config.data.admin@ != ctx.accounts.admin.key@,
    ensures
        set_base_uri_outcome(ctx, base_uri) is Err,
{
}

/// A signer other than the admin is refused with `Unauthorized` whenever
/// the configuration passes the earlier account constraints (it sits at its
/// derived address and is writable).
pub proof fn non_admin_refused_as_unauthorized(ctx: Context<SetBaseUri>, base_uri: Seq<char>)
    requires
        program_address(config_seeds(ctx.accounts.config.data.bump), ctx.program_id@) == Some(
            ctx.accounts.config.key@,
        ),
        ctx.accounts.config.is_writable,
        ctx.accounts.config.data.admin@ != ctx.accounts.admin.key@,
    ensures
        set_base_uri_outcome(ctx, base_uri) == Err::<AchievementConfigView, _>(
            InstructionError::Program(AchievementError::Unauthorized),
        ),
{
}

/// The admin can always repoint the metadata host to an acceptable base URI
/// once the configuration is in place at its derived address, as
/// `init_collection` leaves it.
pub proof fn admin_can_update_base_uri(ctx: Context<SetBaseUri>, base_uri: Seq<char>)
    requires
        program_address(config_seeds(ctx.accounts.config.data.bump), ctx.program_id@) == Some(
            ctx.accounts.config.key@,
        ),
        ctx.accounts.config.is_writable,
        ctx.accounts.config.data.admin@ == ctx.accounts.admin.key@,
        crate::achievement::state::config::base_uri_acceptable(base_uri),
    ensures
        set_base_uri_outcome(ctx, base_uri) is Ok,
{
}

/// The setup accounts of `ctx` with the configuration account holding
/// `data`.
pub open spec fn with_config_data(
    ctx: Context<InitCollection>,
    data: Option<AchievementConfig>,
) -> Context<InitCollection> {
    Context {
        accounts: InitCollection {
            config: Account { data, ..ctx.accounts.config },
            ..ctx.accounts
        },
        ..ctx
    }
}

/// The collection is set up once: an existing configuration is never
/// replaced by `init_collection`.
pub proof fn existing_config_never_replaced(ctx: Context<InitCollection>, base_uri: Seq<char>)
    requires
        ctx.accounts.config.data is Some,
    ensures
        init_collection_outcome(ctx, base_uri) is Err,
{
}

/// Once `init_collection` has succeeded, every later `init_collection` on
/// the same configuration account, with any base URI, is refused with
/// `CollectionAlreadyInitialized`.
pub proof fn init_collection_happens_once(
    ctx: Context<InitCollection>,
    first: Seq<char>,
    second: Seq<char>,
    stored: AchievementConfig,
)
    requires
        init_collection_outcome(ctx, first) is Ok,
    ensures
        init_collection_outcome(with_config_data(ctx, Some(stored)), second) == Err::<
            AchievementConfigView,
            _,
        >(InstructionError::Program(AchievementError::CollectionAlreadyInitialized)),
{
}

/// A successful `set_base_uri` stores exactly the new base URI, leaves the
/// admin, collection and bump as they were, and leaves the configuration
/// well formed; badge URIs are from then on built from the new base.
pub proof fn set_base_uri_stores_the_new_base(
    ctx: Context<SetBaseUri>,
    base_uri: Seq<char>,
    badge_type: BadgeType,
)
    requires
        set_base_uri_outcome(ctx, base_uri) is Ok,
    ensures
        ({
            let config = set_base_uri_outcome(ctx, base_uri)->Ok_0;
            &&& config.well_formed()
            &&& config.base_uri == base_uri
            &&& config.admin == ctx.accounts.config.data.admin
            &&& config.collection == ctx.accounts.config.data.collection
            &&& config.bump == ctx.accounts.config.data.bump
            &&& badge_uri_view(config.base_uri, badge_type) == badge_uri_view(base_uri, badge_type)
        }),
{
}

/// Trimming removes only slashes, and all of them at the end: the trimmed
/// text is a prefix of `s`, everything after it is `/`, and it does not
/// itself end in `/`.
pub proof fn trimming_removes_only_trailing_slashes(s: Seq<char>)
    ensures
        ({
            let t = trim_trailing_slashes(s);
            &&& t.len() <= s.len()
            &&& t == s.subrange(0, t.len() as int)
            &&& forall|i: int| t.len() <= i < s.len() ==> s[i] == '/'
            &&& t.len() == 0 || t.last() != '/'
        }),
    decreases s.len(),
{
    if s.len() > 0 && s.last() == '/' {
        trimming_removes_only_trailing_slashes(s.drop_last());
        let t = trim_trailing_slashes(s);
        assert(t == s.drop_last().subrange(0, t.len() as int));
        assert(t =~= s.subrange(0, t.len() as int));
        assert forall|i: int| t.len() <= i < s.len() implies s[i] == '/' by {
            if i < s.len() - 1 {
                assert(s.drop_last()[i] == s[i]);
            }
        }
    } else {
        assert(s =~= s.subrange(0, s.len() as int));
    }
}

/// A base URI that does not end in `/` is kept whole: the metadata URI is
/// the base, a slash, the badge's slug and `.json`.
pub proof fn badge_uri_keeps_base_without_trailing_slash(base_uri: Seq<char>, badge_type: BadgeType)
    requires
        base_uri.len() == 0 || base_uri.last() != '/',
    ensures
        badge_uri_view(base_uri, badge_type) == base_uri + "/"@ + badge_slug_view(badge_type)
            + ".json"@,
{
}

/// With its accounts in order (the configuration at its derived address and
/// writable, signed for by its admin), `set_base_uri` succeeds exactly for a
/// non-empty base URI of at most 128 bytes in UTF-8, and stores it.
pub proof fn admin_sets_every_base_uri_that_fits(ctx: Context<SetBaseUri>, base_uri: Seq<char>)
    requires
        program_address(config_seeds(ctx.accounts.config.data.bump), ctx.program_id@) == Some(
            ctx.accounts.config.key@,
        ),
        ctx.accounts.config.is_writable,
        ctx.accounts.config.data.admin@ == ctx.accounts.admin.key@,
    ensures
        set_base_uri_outcome(ctx, base_uri) is Ok <==> (base_uri.len() > 0 && encode_utf8(
            base_uri,
        ).len() <= 128),
        set_base_uri_outcome(ctx, base_uri) is Ok ==> set_base_uri_outcome(
            ctx,
            base_uri,
        )->Ok_0.base_uri == base_uri,
{
}

/// `set_base_uri` never stores an empty base URI or one of more than 128
/// bytes in UTF-8.
pub proof fn set_base_uri_stores_only_what_fits(ctx: Context<SetBaseUri>, base_uri: Seq<char>)
    requires
        set_base_uri_outcome(ctx, base_uri) is Ok,
    ensures
        base_uri.len() > 0,
        encode_utf8(base_uri).len() <= 128,
{
}

/// On a configuration account that does not exist yet, at the address that
/// `CONFIG_SEED` derives, `init_collection` succeeds for an empty base URI
/// and for every base URI of at most 128 bytes in UTF-8, and records the
/// signer as admin, the collection, the found bump and the base URI (the
/// fallback host where it is empty).
pub proof fn init_collection_accepts_every_base_uri_that_fits(
    ctx: Context<InitCollection>,
    base_uri: Seq<char>,
)
    requires
        bumped_program_address(config_search_seeds(), ctx.program_id@) is Some,
        found_key(bumped_program_address(config_search_seeds(), ctx.program_id@))
            == ctx.accounts.config.key@,
        ctx.accounts.config.data is None,
        base_uri.len() == 0 || encode_utf8(base_uri).len() <= 128,
    ensures
        init_collection_outcome(ctx, base_uri) is Ok,
        ({
            let config = init_collection_outcome(ctx, base_uri)->Ok_0;
            &&& config.base_uri == (if base_uri.len() == 0 {
                DEFAULT_METADATA_BASE_URI@
            } else {
                base_uri
            })
            &&& config.admin == ctx.accounts.admin.key
            &&& config.collection == ctx.accounts.collection.key
            &&& config.bump == found_bump(bumped_program_address(config_search_seeds(), ctx.program_id@))
        }),
{
    default_base_uri_acceptable();
}

/// `init_collection` refuses a non-empty base URI of more than 128 bytes in
/// UTF-8, and stores only a non-empty base URI of at most 128 bytes.
pub proof fn init_collection_stores_only_what_fits(ctx: Context<InitCollection>, base_uri: Seq<char>)
    ensures
        base_uri.len() > 0 && encode_utf8(base_uri).len() > 128 ==> init_collection_outcome(
            ctx,
            base_uri,
        ) is Err,
        init_collection_outcome(ctx, base_uri) is Ok ==> ({
            let stored = init_collection_outcome(ctx, base_uri)->Ok_0.base_uri;
            stored.len() > 0 && encode_utf8(stored).len() <= 128
        }),
{
    default_base_uri_acceptable();
}

} // verus!
