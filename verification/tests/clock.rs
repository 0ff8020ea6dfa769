use aioos_license::error::Failure;
use aioos_license::instructions::{LogAction, RegisterLicense, RevokeLicense, UpdatePtasState};
use aioos_license::state::{AuditEntry, Identity, LicenseAccount, ProgramConfig, PtasState};
use aioos_license::{log_action, register_license, revoke_license, update_ptas_state};
use anchor_lang::prelude::ProgramError;

fn id(byte: u8) -> Identity {
    Identity { bytes: [byte; 32] }
}

fn config(total: u64) -> ProgramConfig {
    ProgramConfig { authority: id(1), total_licenses: total, bump: 255 }
}

fn license_in(state: PtasState) -> LicenseAccount {
    LicenseAccount {
        agent_id: "agent-7".to_string(),
        owner: id(2),
        nft_mint: id(3),
        ptas_state: state,
        license_type: "financial_advisor".to_string(),
        permission_level: "autonomous".to_string(),
        jurisdiction: "US".to_string(),
        created_at: 1_650_000_000,
        revoked: state == PtasState::Revoked,
        audit_count: 12,
        bump: 201,
    }
}

fn blank_entry() -> AuditEntry {
    AuditEntry {
        license: id(0),
        action: String::new(),
        details: String::new(),
        timestamp: 0,
        actor: id(0),
        bump: 0,
    }
}

fn blank_license() -> LicenseAccount {
    LicenseAccount {
        agent_id: String::new(),
        owner: id(0),
        nft_mint: id(0),
        ptas_state: PtasState::Dormant,
        license_type: String::new(),
        permission_level: String::new(),
        jurisdiction: String::new(),
        created_at: 0,
        revoked: false,
        audit_count: 0,
        bump: 0,
    }
}

// Outside a running chain there is no clock to read: a request that is not
// refused then fails, with the error that reading the clock gave.
#[test]
fn without_a_clock_nothing_is_changed() {
    let unavailable = || Failure::ClockUnavailable(ProgramError::UnsupportedSysvar);

    let mut ctx = UpdatePtasState { license: license_in(PtasState::Dormant), owner: id(2) };
    assert_eq!(update_ptas_state(&mut ctx, PtasState::Activating), Err(unavailable()));
    assert_eq!(ctx.license, license_in(PtasState::Dormant));

    let mut ctx = RegisterLicense {
        license: blank_license(),
        config: config(7),
        nft_mint: id(3),
        owner: id(2),
        license_bump: 254,
    };
    assert_eq!(
        register_license(
            &mut ctx,
            "a".to_string(),
            "t".to_string(),
            "p".to_string(),
            "j".to_string()
        ),
        Err(unavailable())
    );
    assert_eq!(ctx.license, blank_license());
    assert_eq!(ctx.config, config(7));

    let mut ctx = RevokeLicense {
        license: license_in(PtasState::Active),
        config: config(7),
        authority: id(2),
    };
    assert_eq!(revoke_license(&mut ctx), Err(unavailable()));
    assert_eq!(ctx.license, license_in(PtasState::Active));

    let mut ctx = LogAction {
        audit_entry: blank_entry(),
        license: license_in(PtasState::Active),
        license_key: id(4),
        owner: id(2),
        actor: id(2),
        audit_entry_bump: 77,
    };
    assert_eq!(log_action(&mut ctx, "a".to_string(), "d".to_string()), Err(unavailable()));
    assert_eq!(ctx.license, license_in(PtasState::Active));
    assert_eq!(ctx.audit_entry, blank_entry());
}
