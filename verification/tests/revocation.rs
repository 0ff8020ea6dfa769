use aioos_license::error::{AioosError, Failure};
use aioos_license::instructions::revoke_license::{handler, handler_at, validate};
use aioos_license::instructions::{LicenseRevoked, RevokeLicense};
use aioos_license::revoke_license;
use aioos_license::state::{Identity, LicenseAccount, ProgramConfig, PtasState};

const LIVE: [PtasState; 5] = [
    PtasState::Dormant,
    PtasState::Activating,
    PtasState::Active,
    PtasState::Executing,
    PtasState::Hibernating,
];

fn id(byte: u8) -> Identity {
    Identity { bytes: [byte; 32] }
}

const AUTHORITY: u8 = 1;
const OWNER: u8 = 2;

fn config() -> ProgramConfig {
    ProgramConfig { authority: id(AUTHORITY), total_licenses: 4, bump: 255 }
}

fn license_in(state: PtasState) -> LicenseAccount {
    LicenseAccount {
        agent_id: "agent-7".to_string(),
        owner: id(OWNER),
        nft_mint: id(3),
        ptas_state: state,
        license_type: "legal_agent".to_string(),
        permission_level: "autonomous".to_string(),
        jurisdiction: "EU".to_string(),
        created_at: 1_650_000_000,
        revoked: state == PtasState::Revoked,
        audit_count: 12,
        bump: 201,
    }
}

fn revoked_from(state: PtasState) -> LicenseAccount {
    let mut license = license_in(state);
    license.ptas_state = PtasState::Revoked;
    license.revoked = true;
    license
}

#[test]
fn the_owner_revokes_from_every_live_state() {
    for state in LIVE {
        let mut ctx =
            RevokeLicense { license: license_in(state), config: config(), authority: id(OWNER) };
        assert_eq!(
            handler_at(&mut ctx, 900),
            Ok(Some(LicenseRevoked {
                agent_id: "agent-7".to_string(),
                revoked_by: id(OWNER),
                previous_state: state,
                timestamp: 900,
            }))
        );
        assert_eq!(ctx.license, revoked_from(state));
        assert_eq!(ctx.config, config());
    }
}

#[test]
fn the_authority_revokes_without_the_owner() {
    let mut ctx = RevokeLicense {
        license: license_in(PtasState::Executing),
        config: config(),
        authority: id(AUTHORITY),
    };
    let event = handler_at(&mut ctx, 901).unwrap().unwrap();
    assert_eq!(event.revoked_by, id(AUTHORITY));
    assert_eq!(event.previous_state, PtasState::Executing);
    assert_eq!(ctx.license, revoked_from(PtasState::Executing));
}

#[test]
fn a_stranger_cannot_revoke() {
    for state in LIVE {
        let mut ctx =
            RevokeLicense { license: license_in(state), config: config(), authority: id(9) };
        assert_eq!(handler_at(&mut ctx, 902), Err(AioosError::Unauthorized));
        assert_eq!(ctx.license, license_in(state));
    }
}

#[test]
fn revoking_twice_is_a_no_op_success() {
    let mut ctx = RevokeLicense {
        license: license_in(PtasState::Active),
        config: config(),
        authority: id(OWNER),
    };
    assert!(handler_at(&mut ctx, 903).unwrap().is_some());
    let after_first = ctx.license.clone();
    assert_eq!(handler_at(&mut ctx, 904), Ok(None));
    assert_eq!(ctx.license, after_first);
    ctx.authority = id(AUTHORITY);
    assert_eq!(handler_at(&mut ctx, 905), Ok(None));
    assert_eq!(ctx.license, after_first);
}

#[test]
fn revoking_a_revoked_license_succeeds_for_anyone() {
    let mut ctx = RevokeLicense {
        license: license_in(PtasState::Revoked),
        config: config(),
        authority: id(9),
    };
    assert_eq!(handler_at(&mut ctx, 906), Ok(None));
    assert_eq!(ctx.license, license_in(PtasState::Revoked));
}

#[test]
fn a_refused_revocation_is_refused_without_the_clock() {
    let mut a = RevokeLicense {
        license: license_in(PtasState::Hibernating),
        config: config(),
        authority: id(9),
    };
    let mut b = a.clone();
    assert_eq!(validate(&a), Some(AioosError::Unauthorized));
    assert_eq!(handler(&mut a), Err(Failure::Refused(AioosError::Unauthorized)));
    assert_eq!(revoke_license(&mut b), Err(Failure::Refused(AioosError::Unauthorized)));
    assert_eq!(a.license, license_in(PtasState::Hibernating));
    assert_eq!(b.license, license_in(PtasState::Hibernating));
}

#[test]
fn revoking_a_revoked_license_does_not_ask_the_clock() {
    for caller in [OWNER, AUTHORITY, 9] {
        let mut a = RevokeLicense {
            license: license_in(PtasState::Revoked),
            config: config(),
            authority: id(caller),
        };
        let mut b = a.clone();
        assert_eq!(validate(&a), None);
        assert_eq!(handler(&mut a), Ok(None));
        assert_eq!(revoke_license(&mut b), Ok(None));
        assert_eq!(a.license, license_in(PtasState::Revoked));
        assert_eq!(b.license, license_in(PtasState::Revoked));
    }
}

#[test]
fn the_two_shapes_of_authorization() {
    let license = license_in(PtasState::Active);
    assert!(license.is_owner(&id(OWNER)));
    assert!(!license.is_owner(&id(AUTHORITY)));
    assert!(!license.is_owner(&id(9)));
    assert!(license.is_owner_or_authority(&config(), &id(OWNER)));
    assert!(license.is_owner_or_authority(&config(), &id(AUTHORITY)));
    assert!(!license.is_owner_or_authority(&config(), &id(9)));
    let mut nearly = id(OWNER);
    nearly.bytes[0] = 0;
    assert!(!license.is_owner(&nearly));
    assert!(!license.is_owner_or_authority(&config(), &nearly));
}
