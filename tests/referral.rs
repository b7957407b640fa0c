use exa_pay::referral::{LeaderboardEntry, ReferralService};

#[test]
fn masking() {
    assert_eq!(ReferralService::mask_username("abc"), "***");
    assert_eq!(ReferralService::mask_username(""), "***");
    assert_eq!(ReferralService::mask_username("abcd"), "a***");
    assert_eq!(ReferralService::mask_username("abcdef"), "a***");
    assert_eq!(ReferralService::mask_username("abcdefg"), "abc***");
}

#[test]
fn masking_counts_bytes() {
    assert_eq!(ReferralService::mask_username("aéb"), "a***");
    assert_eq!(ReferralService::mask_username("éé"), "***");
    assert_eq!(ReferralService::mask_username("ab€"), "a***");
    assert_eq!(ReferralService::mask_username("éabcd"), "***");
    assert_eq!(ReferralService::mask_username("abcdéf"), "abc***");
}

#[test]
fn leaderboard_lines() {
    let rows = vec![
        LeaderboardEntry { username: Some("alexander".to_string()), referral_count: 9 },
        LeaderboardEntry { username: None, referral_count: 5 },
        LeaderboardEntry { username: Some("bob".to_string()), referral_count: 3 },
        LeaderboardEntry { username: Some("carol".to_string()), referral_count: 1 },
    ];
    let d = ReferralService::display_rows(&rows);
    assert_eq!(d.len(), 4);
    assert_eq!(d[0].rank, 1);
    assert_eq!(d[0].username, "ale***");
    assert_eq!(d[0].medal.as_deref(), Some("🥇"));
    assert_eq!(d[1].username, "Ano***");
    assert_eq!(d[1].medal.as_deref(), Some("🥈"));
    assert_eq!(d[2].username, "***");
    assert_eq!(d[2].referral_count, 3);
    assert_eq!(d[2].medal.as_deref(), Some("🥉"));
    assert_eq!(d[3].rank, 4);
    assert_eq!(d[3].username, "c***");
    assert_eq!(d[3].medal, None);
}
