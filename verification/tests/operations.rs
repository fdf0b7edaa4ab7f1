use stake_ledger::account::StakeAccount;
use stake_ledger::error::StakeError;
use stake_ledger::identity::Identity;
use stake_ledger::instructions::{
    claim_points, create_pda_account, get_points, stake, unstake, Action, ClaimPoints,
    CreatePdaAccount, GetPoints, PointsReport, Stake, Staged, Unstake,
};
use stake_ledger::reward::{MintRoute, RewardIssuance, RewardMint, RewardTokenAccount};

const T0: i64 = 1_700_000_000;
const DAY: i64 = 86_400;
const UNIT: u64 = 1_000_000_000;

fn owner() -> Identity {
    Identity::new([1u8; 32])
}

fn stranger() -> Identity {
    Identity::new([2u8; 32])
}

fn record(staked_amount: u64, total_points: u64, last_update_time: i64) -> StakeAccount {
    StakeAccount {
        owner: owner(),
        staked_amount,
        total_points,
        last_update_time,
        bump: 253,
    }
}

fn route() -> MintRoute {
    MintRoute {
        reward_mint: RewardMint {
            key: Identity::new([10u8; 32]),
            mint_authority: Some(Identity::new([11u8; 32])),
        },
        mint_authority: Identity::new([11u8; 32]),
        mint_authority_bump: 250,
        user_token_account: RewardTokenAccount {
            owner: owner(),
            mint: Identity::new([10u8; 32]),
        },
    }
}

#[test]
fn creation_opens_an_empty_record_at_now() {
    let created = create_pda_account(
        &CreatePdaAccount {
            payer: owner(),
            bump: 253,
        },
        T0,
    );
    assert_eq!(created, record(0, 0, T0));
}

#[test]
fn stake_rolls_forward_then_adds_the_amount() {
    let ctx = Stake {
        user: owner(),
        pda_account: record(UNIT, 7, T0),
    };
    let staged = stake(&ctx, 5, T0 + DAY).unwrap();
    assert_eq!(
        staged,
        Staged {
            before: record(UNIT, 7, T0),
            after: record(UNIT + 5, 1_000_007, T0 + DAY),
            action: Action::Deposit {
                from: owner(),
                amount: 5
            },
        }
    );
}

#[test]
fn stake_of_nothing_is_an_invalid_amount() {
    let ctx = Stake {
        user: owner(),
        pda_account: record(UNIT, 7, T0),
    };
    assert_eq!(stake(&ctx, 0, T0), Err(StakeError::InvalidAmount));
}

#[test]
fn stake_before_the_watermark_is_an_invalid_timestamp() {
    let ctx = Stake {
        user: owner(),
        pda_account: record(UNIT, 7, T0),
    };
    assert_eq!(stake(&ctx, 1, T0 - 1), Err(StakeError::InvalidTimestamp));
}

#[test]
fn stake_beyond_64_bits_overflows() {
    let ctx = Stake {
        user: owner(),
        pda_account: record(u64::MAX - 4, 0, T0),
    };
    assert_eq!(stake(&ctx, 5, T0), Err(StakeError::Overflow));
    assert_eq!(ctx.pda_account, record(u64::MAX - 4, 0, T0));
    let staged = stake(&ctx, 4, T0).unwrap();
    assert_eq!(staged.after, record(u64::MAX, 0, T0));
}

#[test]
fn stake_with_points_beyond_64_bits_overflows() {
    let ctx = Stake {
        user: owner(),
        pda_account: record(UNIT, u64::MAX, T0),
    };
    assert_eq!(stake(&ctx, 1, T0 + DAY), Err(StakeError::Overflow));
}

#[test]
fn unstake_rolls_forward_then_takes_the_amount() {
    let ctx = Unstake {
        user: owner(),
        pda_account: record(3 * UNIT, 0, T0),
    };
    let staged = unstake(&ctx, UNIT, T0 + DAY).unwrap();
    assert_eq!(
        staged,
        Staged {
            before: record(3 * UNIT, 0, T0),
            after: record(2 * UNIT, 3_000_000, T0 + DAY),
            action: Action::Withdraw {
                to: owner(),
                amount: UNIT,
                bump: 253
            },
        }
    );
}

#[test]
fn unstake_of_nothing_is_an_invalid_amount() {
    let ctx = Unstake {
        user: owner(),
        pda_account: record(UNIT, 0, T0),
    };
    assert_eq!(unstake(&ctx, 0, T0), Err(StakeError::InvalidAmount));
}

#[test]
fn unstake_above_the_principal_is_insufficient_stake() {
    let ctx = Unstake {
        user: owner(),
        pda_account: record(UNIT, 0, T0),
    };
    assert_eq!(
        unstake(&ctx, UNIT + 1, T0),
        Err(StakeError::InsufficientStake)
    );
    // the principal is looked at before the time
    assert_eq!(
        unstake(&ctx, UNIT + 1, T0 - 1),
        Err(StakeError::InsufficientStake)
    );
}

#[test]
fn unstake_before_the_watermark_is_an_invalid_timestamp() {
    let ctx = Unstake {
        user: owner(),
        pda_account: record(UNIT, 0, T0),
    };
    assert_eq!(unstake(&ctx, UNIT, T0 - 1), Err(StakeError::InvalidTimestamp));
}

#[test]
fn claim_issues_whole_points_and_forfeits_the_fraction() {
    let ctx = ClaimPoints {
        user: owner(),
        pda_account: record(0, 2_500_000, T0),
        reward: RewardIssuance::Recorded,
    };
    let staged = claim_points(&ctx, T0).unwrap();
    assert_eq!(staged.action, Action::Record { units: 2 });
    assert_eq!(staged.after, record(0, 0, T0));
    assert_eq!(staged.settle(true).total_points, 0);
}

#[test]
fn claim_counts_the_points_earned_up_to_now() {
    let ctx = ClaimPoints {
        user: owner(),
        pda_account: record(UNIT, 2_500_000, T0),
        reward: RewardIssuance::Minted(route()),
    };
    let staged = claim_points(&ctx, T0 + DAY / 2).unwrap();
    assert_eq!(
        staged,
        Staged {
            before: record(UNIT, 2_500_000, T0),
            after: record(UNIT, 0, T0 + DAY / 2),
            action: Action::Mint {
                units: 3,
                authority_bump: 250
            },
        }
    );
}

#[test]
fn claim_of_less_than_one_point_issues_nothing_and_still_resets() {
    let ctx = ClaimPoints {
        user: owner(),
        pda_account: record(0, 999_999, T0),
        reward: RewardIssuance::Recorded,
    };
    let staged = claim_points(&ctx, T0 + 1).unwrap();
    assert_eq!(staged.action, Action::Record { units: 0 });
    assert_eq!(staged.after, record(0, 0, T0 + 1));
}

#[test]
fn failed_issuance_keeps_the_points() {
    let ctx = ClaimPoints {
        user: owner(),
        pda_account: record(UNIT, 2_500_000, T0),
        reward: RewardIssuance::Minted(route()),
    };
    let staged = claim_points(&ctx, T0 + DAY).unwrap();
    assert_eq!(staged.settle(false), record(UNIT, 2_500_000, T0));
    assert_eq!(staged.settle(true), record(UNIT, 0, T0 + DAY));
}

#[test]
fn failed_transfer_keeps_the_record() {
    let ctx = Stake {
        user: owner(),
        pda_account: record(UNIT, 7, T0),
    };
    let staged = stake(&ctx, 5, T0 + DAY).unwrap();
    assert_eq!(staged.settle(false), record(UNIT, 7, T0));
    let ctx = Unstake {
        user: owner(),
        pda_account: record(UNIT, 7, T0),
    };
    let staged = unstake(&ctx, 5, T0 + DAY).unwrap();
    assert_eq!(staged.settle(false), record(UNIT, 7, T0));
}

#[test]
fn claim_before_the_watermark_is_an_invalid_timestamp() {
    let ctx = ClaimPoints {
        user: owner(),
        pda_account: record(UNIT, 2_500_000, T0),
        reward: RewardIssuance::Recorded,
    };
    assert_eq!(
        claim_points(&ctx, T0 - 1),
        Err(StakeError::InvalidTimestamp)
    );
}

#[test]
fn claim_from_a_mint_under_another_authority_is_refused() {
    let mut wrong = route();
    wrong.reward_mint.mint_authority = Some(Identity::new([12u8; 32]));
    let ctx = ClaimPoints {
        user: owner(),
        pda_account: record(UNIT, 2_500_000, T0),
        reward: RewardIssuance::Minted(wrong),
    };
    assert_eq!(
        claim_points(&ctx, T0),
        Err(StakeError::InvalidMintAuthority)
    );
    wrong.reward_mint.mint_authority = None;
    let ctx = ClaimPoints {
        user: owner(),
        pda_account: record(UNIT, 2_500_000, T0),
        reward: RewardIssuance::Minted(wrong),
    };
    assert_eq!(
        claim_points(&ctx, T0),
        Err(StakeError::InvalidMintAuthority)
    );
}

#[test]
fn claim_into_a_holding_of_another_token_is_refused() {
    let mut wrong = route();
    wrong.user_token_account.mint = Identity::new([13u8; 32]);
    let ctx = ClaimPoints {
        user: owner(),
        pda_account: record(UNIT, 2_500_000, T0),
        reward: RewardIssuance::Minted(wrong),
    };
    assert_eq!(
        claim_points(&ctx, T0),
        Err(StakeError::InvalidTokenAccount)
    );
}

#[test]
fn claim_into_a_holding_of_someone_else_is_unauthorized() {
    let mut wrong = route();
    wrong.user_token_account.owner = stranger();
    let ctx = ClaimPoints {
        user: owner(),
        pda_account: record(UNIT, 2_500_000, T0),
        reward: RewardIssuance::Minted(wrong),
    };
    assert_eq!(claim_points(&ctx, T0), Err(StakeError::Unauthorized));
    assert_eq!(wrong.user_token_account.owner, stranger());
    assert_eq!(
        RewardIssuance::Minted(wrong).check(&owner()),
        Err(StakeError::Unauthorized)
    );
    assert_eq!(RewardIssuance::Minted(route()).check(&owner()), Ok(()));
    assert_eq!(RewardIssuance::Recorded.check(&stranger()), Ok(()));
}

#[test]
fn inspection_projects_without_storing() {
    let ctx = GetPoints {
        user: owner(),
        pda_account: record(UNIT, 250_000, T0),
    };
    let report = get_points(&ctx, T0 + DAY).unwrap();
    assert_eq!(
        report,
        PointsReport {
            current_total_points: 1_250_000,
            staked_amount: UNIT
        }
    );
    assert_eq!(report.whole_points(), 1);
    assert_eq!(report.whole_stake(), 1);
    assert_eq!(ctx.pda_account, record(UNIT, 250_000, T0));
}

#[test]
fn inspection_twice_at_the_same_time_reports_the_same() {
    let ctx = GetPoints {
        user: owner(),
        pda_account: record(3 * UNIT / 2, 250_000, T0),
    };
    let first = get_points(&ctx, T0 + 12_345);
    let second = get_points(&ctx, T0 + 12_345);
    assert_eq!(first, second);
    assert_eq!(first.unwrap().current_total_points, 250_000 + 214_322);
    assert_eq!(ctx.pda_account, record(3 * UNIT / 2, 250_000, T0));
    let at_watermark = get_points(&ctx, T0).unwrap();
    assert_eq!(at_watermark.current_total_points, 250_000);
    assert_eq!(at_watermark.staked_amount, 3 * UNIT / 2);
    assert_eq!(at_watermark.whole_points(), 0);
    assert_eq!(at_watermark.whole_stake(), 1);
}

#[test]
fn inspection_fails_as_a_roll_forward_would() {
    let ctx = GetPoints {
        user: owner(),
        pda_account: record(UNIT, u64::MAX, T0),
    };
    assert_eq!(get_points(&ctx, T0 - 1), Err(StakeError::InvalidTimestamp));
    assert_eq!(get_points(&ctx, T0 + DAY), Err(StakeError::Overflow));
    assert!(get_points(&ctx, T0).is_ok());
}

#[test]
fn strangers_are_unauthorized_whatever_else_is_wrong() {
    let account = record(UNIT, 2_500_000, T0);
    let user = stranger();
    for (amount, now) in [(1u64, T0), (0, T0), (u64::MAX, T0 - 5), (UNIT, T0 + DAY)] {
        assert_eq!(
            stake(
                &Stake {
                    user,
                    pda_account: account
                },
                amount,
                now
            ),
            Err(StakeError::Unauthorized)
        );
        assert_eq!(
            unstake(
                &Unstake {
                    user,
                    pda_account: account
                },
                amount,
                now
            ),
            Err(StakeError::Unauthorized)
        );
        assert_eq!(
            claim_points(
                &ClaimPoints {
                    user,
                    pda_account: account,
                    reward: RewardIssuance::Recorded
                },
                now
            ),
            Err(StakeError::Unauthorized)
        );
        assert_eq!(
            get_points(
                &GetPoints {
                    user,
                    pda_account: account
                },
                now
            ),
            Err(StakeError::Unauthorized)
        );
    }
    assert_eq!(account, record(UNIT, 2_500_000, T0));
}

#[test]
fn movements_without_a_gap_conserve_the_principal() {
    let mut account = record(10, 77, T0);
    let movements: [(bool, u64); 6] = [
        (true, 5),
        (false, 15),
        (true, UNIT),
        (true, 1),
        (false, UNIT),
        (false, 1),
    ];
    let mut net: i128 = 0;
    for (deposit, amount) in movements {
        let staged = if deposit {
            net += amount as i128;
            stake(
                &Stake {
                    user: owner(),
                    pda_account: account,
                },
                amount,
                T0,
            )
        } else {
            net -= amount as i128;
            unstake(
                &Unstake {
                    user: owner(),
                    pda_account: account,
                },
                amount,
                T0,
            )
        }
        .unwrap();
        account = staged.settle(true);
    }
    assert_eq!(net, -10);
    assert_eq!(account, record(0, 77, T0));
}

#[test]
fn a_day_of_one_whole_unit_from_creation_to_withdrawal() {
    let created = create_pda_account(
        &CreatePdaAccount {
            payer: owner(),
            bump: 253,
        },
        T0,
    );
    let staged = stake(
        &Stake {
            user: owner(),
            pda_account: created,
        },
        1_000_000_000,
        T0,
    )
    .unwrap();
    let account = staged.settle(true);
    assert_eq!(account, record(1_000_000_000, 0, T0));

    let report = get_points(
        &GetPoints {
            user: owner(),
            pda_account: account,
        },
        T0 + 86_400,
    )
    .unwrap();
    assert_eq!(report.current_total_points, 1_000_000);
    assert_eq!(report.staked_amount, 1_000_000_000);
    assert_eq!(report.whole_points(), 1);

    let staged = unstake(
        &Unstake {
            user: owner(),
            pda_account: account,
        },
        1_000_000_000,
        T0 + 86_400,
    )
    .unwrap();
    let account = staged.settle(true);
    assert_eq!(account.staked_amount, 0);
    assert_eq!(account, record(0, 1_000_000, T0 + 86_400));

    for amount in [1u64, 1_000_000_000, u64::MAX] {
        assert_eq!(
            unstake(
                &Unstake {
                    user: owner(),
                    pda_account: account,
                },
                amount,
                T0 + 86_400,
            ),
            Err(StakeError::InsufficientStake)
        );
    }
}

#[test]
fn no_operation_ends_in_an_underflow() {
    // The withdrawal is checked against the principal first, so the
    // subtraction behind it cannot fail.
    let ctx = Unstake {
        user: owner(),
        pda_account: record(u64::MAX, 0, T0),
    };
    assert_eq!(unstake(&ctx, u64::MAX, T0).unwrap().after, record(0, 0, T0));
    let ctx = Unstake {
        user: owner(),
        pda_account: record(0, 0, T0),
    };
    let refused = unstake(&ctx, 1, T0);
    assert_ne!(refused, Err(StakeError::Underflow));
    assert_eq!(refused, Err(StakeError::InsufficientStake));
}
