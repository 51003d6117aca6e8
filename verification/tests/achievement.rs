use anchor_lang::prelude::Pubkey as AnchorPubkey;

use paygig::achievement::constants::{
    badge_name, badge_slug, badge_uri, ACHIEVEMENT_SEED, CONFIG_SEED, DEFAULT_METADATA_BASE_URI,
};
use paygig::achievement::errors::AchievementError;
use paygig::achievement::instructions::init_collection::InitCollection;
use paygig::achievement::instructions::set_base_uri::SetBaseUri;
use paygig::achievement::state::config::AchievementConfig;
use paygig::achievement::{init_collection, set_base_uri, BadgeType};
use paygig::framework::{
    Account, Context, FrameworkError, InstructionError, Signer, UncheckedAccount,
};
use paygig::pubkey::Pubkey;

const ALL_BADGES: [BadgeType; 7] = [
    BadgeType::FirstGig,
    BadgeType::TenCompletedJobs,
    BadgeType::HundredCompletedJobs,
    BadgeType::FiveStarPerformer,
    BadgeType::TrustedFreelancer,
    BadgeType::FastDeliverer,
    BadgeType::TopRated,
];

fn key(b: u8) -> Pubkey {
    Pubkey::new_from_array([b; 32])
}

fn program_id() -> Pubkey {
    key(42)
}

/// The configuration's address and bump, as the framework derives them.
fn config_address(program: &Pubkey) -> (Pubkey, u8) {
    let (pda, bump) = AnchorPubkey::find_program_address(
        &[&CONFIG_SEED[..]],
        &AnchorPubkey::new_from_array(program.to_bytes()),
    );
    (Pubkey::new_from_array(pda.to_bytes()), bump)
}

fn config_ctx(admin: Pubkey, signer: Pubkey, base_uri: &str) -> Context<SetBaseUri> {
    let (address, bump) = config_address(&program_id());
    Context {
        program_id: program_id(),
        accounts: SetBaseUri {
            admin: Signer { key: signer, is_writable: false },
            config: Account {
                key: address,
                is_writable: true,
                data: AchievementConfig {
                    admin,
                    collection: key(7),
                    base_uri: base_uri.to_string(),
                    bump,
                },
            },
        },
    }
}

#[test]
fn seeds_spell_their_names() {
    assert_eq!(&CONFIG_SEED[..], b"config");
    assert_eq!(&ACHIEVEMENT_SEED[..], b"achievement");
    assert_eq!(DEFAULT_METADATA_BASE_URI, "https://paygig.app/achievements");
}

#[test]
fn badge_names_and_slugs() {
    let names: Vec<&str> = ALL_BADGES.iter().map(|b| badge_name(*b)).collect();
    let slugs: Vec<&str> = ALL_BADGES.iter().map(|b| badge_slug(*b)).collect();
    assert_eq!(
        names,
        vec![
            "First Gig",
            "Ten Gigs",
            "Hundred Gigs",
            "Five Star",
            "Trusted Freelancer",
            "Fast Deliverer",
            "Top Rated"
        ]
    );
    assert_eq!(
        slugs,
        vec![
            "first-gig",
            "ten-gigs",
            "hundred-gigs",
            "five-star",
            "trusted-freelancer",
            "fast-deliverer",
            "top-rated"
        ]
    );
}

#[test]
fn badge_uri_appends_slug_and_json() {
    assert_eq!(
        badge_uri("https://paygig.app/achievements", BadgeType::FirstGig),
        "https://paygig.app/achievements/first-gig.json"
    );
    assert_eq!(
        badge_uri("https://host/x", BadgeType::TopRated),
        "https://host/x/top-rated.json"
    );
}

#[test]
fn badge_uri_trims_trailing_slashes() {
    for badge in ALL_BADGES {
        let plain = badge_uri("https://host/x", badge);
        assert_eq!(badge_uri("https://host/x/", badge), plain);
        assert_eq!(badge_uri("https://host/x///", badge), plain);
    }
    assert_eq!(badge_uri("", BadgeType::FastDeliverer), "/fast-deliverer.json");
    assert_eq!(badge_uri("///", BadgeType::FastDeliverer), "/fast-deliverer.json");
    assert_eq!(badge_uri("a/b/", BadgeType::TenCompletedJobs), "a/b/ten-gigs.json");
}

#[test]
fn badge_uri_keeps_non_ascii_base() {
    assert_eq!(
        badge_uri("https://hôst/été/", BadgeType::FiveStarPerformer),
        "https://hôst/été/five-star.json"
    );
}

#[test]
fn badge_uris_differ_per_badge() {
    let uris: Vec<String> = ALL_BADGES.iter().map(|b| badge_uri("https://h", *b)).collect();
    for i in 0..uris.len() {
        for j in 0..uris.len() {
            assert_eq!(uris[i] == uris[j], i == j);
        }
    }
}

#[test]
fn error_codes_and_messages() {
    let errors = [
        AchievementError::CollectionAlreadyInitialized,
        AchievementError::BadgeNotEarned,
        AchievementError::ProfileMismatch,
        AchievementError::AlreadyClaimed,
        AchievementError::Unauthorized,
        AchievementError::BaseUriTooLong,
    ];
    let codes: Vec<u32> = errors.iter().map(|e| e.code()).collect();
    assert_eq!(codes, vec![6000, 6001, 6002, 6003, 6004, 6005]);
    assert_eq!(
        AchievementError::BaseUriTooLong.message(),
        "Metadata base URI is empty or exceeds the maximum length"
    );
    assert_eq!(
        AchievementError::Unauthorized.message(),
        "Signer is not the achievement config admin"
    );
    assert_eq!(
        AchievementError::CollectionAlreadyInitialized.message(),
        "Achievement collection has already been initialized"
    );
}

#[test]
fn framework_error_numbers() {
    assert_eq!(FrameworkError::ConstraintMut.number(), Some(2000));
    assert_eq!(FrameworkError::ConstraintSeeds.number(), Some(2006));
    assert_eq!(FrameworkError::ConstraintClose.number(), Some(2011));
    assert_eq!(FrameworkError::ConstraintDuplicateMutableAccount.number(), Some(2040));
    assert_eq!(FrameworkError::NoViableBump.number(), None);
}

#[test]
fn config_space() {
    assert_eq!(AchievementConfig::MAX_BASE_URI_LEN, 128);
    assert_eq!(AchievementConfig::INIT_SPACE, 205);
}

fn init_ctx(config_key: Pubkey) -> Context<InitCollection> {
    Context {
        program_id: program_id(),
        accounts: InitCollection {
            admin: Signer { key: key(1), is_writable: true },
            collection: UncheckedAccount { key: key(2) },
            config: Account { key: config_key, is_writable: true, data: None },
        },
    }
}

#[test]
fn init_collection_falls_back_to_default_host() {
    let (address, bump) = config_address(&program_id());
    let mut ctx = init_ctx(address);
    let create = init_collection(&mut ctx, "Achievements".to_string(), "https://c/meta.json".to_string(), String::new()).unwrap();
    assert_eq!(create.collection, key(2));
    assert_eq!(create.name, "Achievements");
    assert_eq!(create.uri, "https://c/meta.json");
    let config = ctx.accounts.config.data.as_ref().unwrap();
    assert_eq!(config.base_uri, DEFAULT_METADATA_BASE_URI);
    assert_eq!(config.admin, key(1));
    assert_eq!(config.collection, key(2));
    assert_eq!(config.bump, bump);
}

#[test]
fn init_collection_records_given_host() {
    let (address, _) = config_address(&program_id());
    let mut ctx = init_ctx(address);
    init_collection(&mut ctx, String::new(), String::new(), "https://cdn.example/b".to_string()).unwrap();
    assert_eq!(ctx.accounts.config.data.as_ref().unwrap().base_uri, "https://cdn.example/b");
    let mut ctx = init_ctx(address);
    assert_eq!(
        init_collection(&mut ctx, String::new(), String::new(), "x".repeat(129)).err(),
        Some(InstructionError::Program(AchievementError::BaseUriTooLong))
    );
    assert!(ctx.accounts.config.data.is_none());
}

#[test]
fn init_collection_happens_once() {
    let (address, _) = config_address(&program_id());
    let mut ctx = init_ctx(address);
    init_collection(&mut ctx, String::new(), String::new(), "https://first".to_string()).unwrap();
    ctx.accounts.admin.key = key(3);
    assert_eq!(
        init_collection(&mut ctx, String::new(), String::new(), "https://second".to_string()).err(),
        Some(InstructionError::Program(AchievementError::CollectionAlreadyInitialized))
    );
    let config = ctx.accounts.config.data.as_ref().unwrap();
    assert_eq!(config.base_uri, "https://first");
    assert_eq!(config.admin, key(1));
}

#[test]
fn init_collection_checks_config_address() {
    let mut ctx = init_ctx(key(9));
    assert_eq!(
        init_collection(&mut ctx, String::new(), String::new(), String::new()).err(),
        Some(InstructionError::Framework(FrameworkError::ConstraintSeeds))
    );
    assert!(ctx.accounts.config.data.is_none());
}

#[test]
fn setup_then_update_by_admin() {
    let (address, _) = config_address(&program_id());
    let mut init = init_ctx(address);
    init_collection(&mut init, String::new(), String::new(), String::new()).unwrap();
    let mut ctx = Context {
        program_id: program_id(),
        accounts: SetBaseUri {
            admin: Signer { key: key(1), is_writable: false },
            config: Account { key: address, is_writable: true, data: init.accounts.config.data.unwrap() },
        },
    };
    assert_eq!(set_base_uri(&mut ctx, "https://moved.host".to_string()), Ok(()));
    assert_eq!(
        badge_uri(&ctx.accounts.config.data.base_uri, BadgeType::TopRated),
        "https://moved.host/top-rated.json"
    );
}

#[test]
fn set_base_uri_replaces_host() {
    let mut ctx = config_ctx(key(1), key(1), "https://old.host");
    let r = set_base_uri(&mut ctx, "https://new.host/".to_string());
    assert_eq!(r, Ok(()));
    assert_eq!(ctx.accounts.config.data.base_uri, "https://new.host/");
    assert_eq!(ctx.accounts.config.data.admin, key(1));
    assert_eq!(ctx.accounts.config.data.collection, key(7));
    assert_eq!(
        badge_uri(&ctx.accounts.config.data.base_uri, BadgeType::FirstGig),
        "https://new.host/first-gig.json"
    );
}

#[test]
fn set_base_uri_refuses_non_admin() {
    let mut ctx = config_ctx(key(1), key(2), "https://old.host");
    let r = set_base_uri(&mut ctx, "https://new.host".to_string());
    assert_eq!(r, Err(InstructionError::Program(AchievementError::Unauthorized)));
    assert_eq!(ctx.accounts.config.data.base_uri, "https://old.host");
}

#[test]
fn set_base_uri_refuses_empty_and_long() {
    let mut ctx = config_ctx(key(1), key(1), "https://old.host");
    let tooo_long = Err(InstructionError::Program(AchievementError::BaseUriTooLong));
    assert_eq!(set_base_uri(&mut ctx, String::new()), tooo_long);
    assert_eq!(set_base_uri(&mut ctx, "a".repeat(129)), tooo_long);
    assert_eq!(ctx.accounts.config.data.base_uri, "https://old.host");
    assert_eq!(set_base_uri(&mut ctx, "a".repeat(128)), Ok(()));
    assert_eq!(ctx.accounts.config.data.base_uri.len(), 128);
}

#[test]
fn set_base_uri_counts_bytes_not_chars() {
    let mut ctx = config_ctx(key(1), key(1), "https://old.host");
    // 64 two-byte characters fill the 128 bytes exactly; 65 do not fit.
    assert_eq!(set_base_uri(&mut ctx, "é".repeat(64)), Ok(()));
    assert_eq!(
        set_base_uri(&mut ctx, "é".repeat(65)),
        Err(InstructionError::Program(AchievementError::BaseUriTooLong))
    );
    assert_eq!(ctx.accounts.config.data.base_uri, "é".repeat(64));
}

#[test]
fn set_base_uri_checks_config_address_first() {
    let mut ctx = config_ctx(key(1), key(2), "https://old.host");
    ctx.accounts.config.key = key(9);
    assert_eq!(
        set_base_uri(&mut ctx, String::new()),
        Err(InstructionError::Framework(FrameworkError::ConstraintSeeds))
    );
    let mut ctx = config_ctx(key(1), key(1), "https://old.host");
    ctx.accounts.config.data.bump = ctx.accounts.config.data.bump.wrapping_sub(1);
    assert_eq!(
        set_base_uri(&mut ctx, "https://new.host".to_string()),
        Err(InstructionError::Framework(FrameworkError::ConstraintSeeds))
    );
}

#[test]
fn set_base_uri_needs_writable_config() {
    let mut ctx = config_ctx(key(1), key(2), "https://old.host");
    ctx.accounts.config.is_writable = false;
    assert_eq!(
        set_base_uri(&mut ctx, "https://new.host".to_string()),
        Err(InstructionError::Framework(FrameworkError::ConstraintMut))
    );
}
