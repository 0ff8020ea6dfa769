use aioos_license::error::{AioosError, Failure};
use aioos_license::instructions::register_license::{handler, handler_at, validate};
use aioos_license::instructions::update_ptas_state;
use aioos_license::instructions::{LicenseRegistered, RegisterLicense, UpdatePtasState};
use aioos_license::register_license;
use aioos_license::state::{Identity, LicenseAccount, ProgramConfig, PtasState};

fn id(byte: u8) -> Identity {
    Identity { bytes: [byte; 32] }
}

fn config(total: u64) -> ProgramConfig {
    ProgramConfig { authority: id(1), total_licenses: total, bump: 255 }
}

fn stale_license() -> LicenseAccount {
    LicenseAccount {
        agent_id: "stale".to_string(),
        owner: id(40),
        nft_mint: id(41),
        ptas_state: PtasState::Executing,
        license_type: "stale".to_string(),
        permission_level: "stale".to_string(),
        jurisdiction: "stale".to_string(),
        created_at: -1,
        revoked: true,
        audit_count: 99,
        bump: 1,
    }
}

fn request(total: u64) -> RegisterLicense {
    RegisterLicense {
        license: stale_license(),
        config: config(total),
        nft_mint: id(3),
        owner: id(2),
        license_bump: 254,
    }
}

fn register(
    ctx: &mut RegisterLicense,
    agent_id: &str,
    license_type: &str,
    permission_level: &str,
    jurisdiction: &str,
) -> Result<LicenseRegistered, AioosError> {
    handler_at(
        ctx,
        agent_id.to_string(),
        license_type.to_string(),
        permission_level.to_string(),
        jurisdiction.to_string(),
        1_700_000_000,
    )
}

#[test]
fn registration_fills_every_field_of_the_license() {
    let mut ctx = request(10);
    let event = register(&mut ctx, "agent-1", "advisory", "advisory_only", "US");
    assert_eq!(
        event,
        Ok(LicenseRegistered {
            agent_id: "agent-1".to_string(),
            owner: id(2),
            nft_mint: id(3),
            license_type: "advisory".to_string(),
            permission_level: "advisory_only".to_string(),
        })
    );
    assert_eq!(
        ctx.license,
        LicenseAccount {
            agent_id: "agent-1".to_string(),
            owner: id(2),
            nft_mint: id(3),
            ptas_state: PtasState::Dormant,
            license_type: "advisory".to_string(),
            permission_level: "advisory_only".to_string(),
            jurisdiction: "US".to_string(),
            created_at: 1_700_000_000,
            revoked: false,
            audit_count: 0,
            bump: 254,
        }
    );
    assert_eq!(ctx.config, config(11));
    assert_eq!(ctx.owner, id(2));
    assert_eq!(ctx.nft_mint, id(3));
    assert_eq!(ctx.license_bump, 254);
}

#[test]
fn each_registration_counts_once() {
    let mut total = config(0);
    for n in 0..5u64 {
        let mut ctx = RegisterLicense {
            license: stale_license(),
            config: total,
            nft_mint: id(3),
            owner: id(2),
            license_bump: 254,
        };
        register(&mut ctx, &format!("agent-{}", n), "t", "p", "j").unwrap();
        assert_eq!(ctx.config.total_licenses, n + 1);
        assert_eq!(ctx.config.authority, id(1));
        total = ctx.config;
    }
}

#[test]
fn the_last_license_below_the_limit_can_be_registered() {
    let mut ctx = request(u64::MAX - 1);
    assert!(register(&mut ctx, "a", "t", "p", "j").is_ok());
    assert_eq!(ctx.config.total_licenses, u64::MAX);
}

#[test]
fn anyone_may_register_and_becomes_the_owner() {
    let mut ctx = request(0);
    ctx.owner = id(77);
    register(&mut ctx, "a", "t", "p", "j").unwrap();
    assert_eq!(ctx.license.owner, id(77));
    let mut upd = UpdatePtasState { license: ctx.license, owner: id(77) };
    assert!(update_ptas_state::handler_at(&mut upd, PtasState::Activating, 0).is_ok());
}

#[test]
fn empty_texts_are_within_their_bounds() {
    let mut ctx = request(0);
    assert!(register(&mut ctx, "", "", "", "").is_ok());
    assert_eq!(ctx.license.agent_id, "");
}

#[test]
fn texts_at_their_bounds_are_taken() {
    let mut ctx = request(0);
    assert!(register(&mut ctx, &"a".repeat(64), &"t".repeat(64), &"p".repeat(32), &"j".repeat(64))
        .is_ok());
    assert_eq!(ctx.license.agent_id.len(), 64);
    assert_eq!(ctx.license.license_type.len(), 64);
    assert_eq!(ctx.license.permission_level.len(), 32);
    assert_eq!(ctx.license.jurisdiction.len(), 64);
}

#[test]
fn an_agent_id_of_65_bytes_is_too_long() {
    let mut ctx = request(10);
    assert_eq!(
        register(&mut ctx, &"a".repeat(65), "t", "p", "j"),
        Err(AioosError::AgentIdTooLong)
    );
    assert_eq!(ctx, request(10));
}

#[test]
fn a_license_type_of_65_bytes_is_too_long() {
    let mut ctx = request(10);
    assert_eq!(
        register(&mut ctx, "a", &"t".repeat(65), "p", "j"),
        Err(AioosError::LicenseTypeTooLong)
    );
    assert_eq!(ctx, request(10));
}

#[test]
fn a_permission_level_of_33_bytes_is_too_long() {
    let mut ctx = request(10);
    assert_eq!(
        register(&mut ctx, "a", "t", &"p".repeat(33), "j"),
        Err(AioosError::PermissionLevelTooLong)
    );
    assert_eq!(ctx, request(10));
}

#[test]
fn a_jurisdiction_of_65_bytes_is_too_long() {
    let mut ctx = request(10);
    assert_eq!(
        register(&mut ctx, "a", "t", "p", &"j".repeat(65)),
        Err(AioosError::JurisdictionTooLong)
    );
    assert_eq!(ctx, request(10));
}

#[test]
fn the_first_oversized_text_is_reported() {
    let long = "x".repeat(65);
    let mut ctx = request(0);
    assert_eq!(register(&mut ctx, &long, &long, &long, &long), Err(AioosError::AgentIdTooLong));
    assert_eq!(register(&mut ctx, "a", &long, &long, &long), Err(AioosError::LicenseTypeTooLong));
    assert_eq!(
        register(&mut ctx, "a", "t", &long, &long),
        Err(AioosError::PermissionLevelTooLong)
    );
    assert_eq!(register(&mut ctx, "a", "t", "p", &long), Err(AioosError::JurisdictionTooLong));
    assert_eq!(ctx, request(0));
}

#[test]
fn registration_bounds_count_bytes_not_characters() {
    // 22 characters of three bytes each are 66 bytes.
    let mut ctx = request(0);
    assert_eq!(
        register(&mut ctx, &"\u{20ac}".repeat(22), "t", "p", "j"),
        Err(AioosError::AgentIdTooLong)
    );
    // 16 characters of two bytes each are 32 bytes, 17 are 34.
    assert!(register(&mut ctx, "a", "t", &"\u{e9}".repeat(16), "j").is_ok());
    let mut ctx = request(0);
    assert_eq!(
        register(&mut ctx, "a", "t", &"\u{e9}".repeat(17), "j"),
        Err(AioosError::PermissionLevelTooLong)
    );
}

#[test]
fn an_oversized_registration_is_refused_even_at_the_counter_limit() {
    let mut ctx = request(u64::MAX);
    assert_eq!(
        register(&mut ctx, &"a".repeat(65), "t", "p", "j"),
        Err(AioosError::AgentIdTooLong)
    );
    assert_eq!(ctx, request(u64::MAX));
}

#[test]
fn a_refused_registration_is_refused_without_the_clock() {
    let long = "x".repeat(65);
    for (texts, why) in [
        ([long.as_str(), "t", "p", "j"], AioosError::AgentIdTooLong),
        (["a", long.as_str(), "p", "j"], AioosError::LicenseTypeTooLong),
        (["a", "t", long.as_str(), "j"], AioosError::PermissionLevelTooLong),
        (["a", "t", "p", long.as_str()], AioosError::JurisdictionTooLong),
    ] {
        let [agent_id, license_type, permission_level, jurisdiction] = texts.map(str::to_string);
        let mut a = request(5);
        let mut b = request(5);
        assert_eq!(
            handler(
                &mut a,
                agent_id.clone(),
                license_type.clone(),
                permission_level.clone(),
                jurisdiction.clone()
            ),
            Err(Failure::Refused(why))
        );
        assert_eq!(
            register_license(&mut b, agent_id, license_type, permission_level, jurisdiction),
            Err(Failure::Refused(why))
        );
        assert_eq!(a, request(5));
        assert_eq!(b, request(5));
    }
}

#[test]
fn a_registration_takes_the_time_it_is_given() {
    let mut ctx = request(5);
    handler_at(&mut ctx, "a".to_string(), "t".to_string(), "p".to_string(), "j".to_string(), -40)
        .unwrap();
    assert_eq!(ctx.license.created_at, -40);
}

#[test]
fn validate_names_the_first_oversized_text() {
    let ok = "x".to_string();
    let long64 = "x".repeat(65);
    let long32 = "x".repeat(33);
    assert_eq!(validate(&ok, &ok, &ok, &ok), None);
    assert_eq!(validate(&"x".repeat(64), &"x".repeat(64), &"x".repeat(32), &"x".repeat(64)), None);
    assert_eq!(validate(&long64, &ok, &ok, &ok), Some(AioosError::AgentIdTooLong));
    assert_eq!(validate(&ok, &long64, &ok, &ok), Some(AioosError::LicenseTypeTooLong));
    assert_eq!(validate(&ok, &ok, &long32, &ok), Some(AioosError::PermissionLevelTooLong));
    assert_eq!(validate(&ok, &ok, &ok, &long64), Some(AioosError::JurisdictionTooLong));
    assert_eq!(validate(&ok, &long64, &long32, &long64), Some(AioosError::LicenseTypeTooLong));
    // 33 bytes fit every bound but that of the permission level.
    assert_eq!(validate(&long32, &long32, &ok, &long32), None);
}
