use artchain::wallet::{
    lamports_to_sol_parts, network_name, rpc_endpoint, wallet_balance_result, wallet_request,
    WalletAction, WalletResponse, LAMPORTS_PER_SOL,
};

#[test]
fn invalid_address_is_rejected_without_a_query() {
    for bad in [
        "not-an-address",
        "",
        "0OIl",
        "JCK39hgE32NjNTbjCfUfh4uhwP9sm7KRL6GBSCpfWYS4extra-characters-beyond-the-limit",
    ] {
        let action = wallet_request(bad);
        assert!(matches!(
            action,
            WalletAction::Respond(WalletResponse::InvalidAddress)
        ));
    }
    let msg = WalletResponse::InvalidAddress.error_message();
    assert_eq!(msg.as_deref(), Some("Invalid wallet address"));
}

#[test]
fn valid_address_asks_for_a_balance_query() {
    let action = wallet_request("JCK39hgE32NjNTbjCfUfh4uhwP9sm7KRL6GBSCpfWYS4");
    assert!(matches!(action, WalletAction::QueryBalance(_)));
}

#[test]
fn failed_query_gives_the_fixed_error_body() {
    let r = wallet_balance_result("JCK39hgE32NjNTbjCfUfh4uhwP9sm7KRL6GBSCpfWYS4".to_string(), Err(()));
    assert!(matches!(r, WalletResponse::BalanceUnavailable));
    assert_eq!(r.error_message().as_deref(), Some("Failed to get balance"));
}

#[test]
fn successful_query_echoes_address_and_balance() {
    let input = "JCK39hgE32NjNTbjCfUfh4uhwP9sm7KRL6GBSCpfWYS4";
    let r = wallet_balance_result(input.to_string(), Ok(2_500_000_000));
    match r {
        WalletResponse::Balance { address, lamports } => {
            assert_eq!(address, input);
            assert_eq!(lamports, 2_500_000_000);
        }
        _ => panic!("a successful query must give a balance body"),
    }
}

#[test]
fn balance_body_has_no_error_message() {
    let r = wallet_balance_result("a".to_string(), Ok(1));
    assert!(r.error_message().is_none());
}

#[test]
fn sol_conversion_divides_by_the_fixed_constant() {
    assert_eq!(LAMPORTS_PER_SOL, 1_000_000_000);
    assert_eq!(lamports_to_sol_parts(2_500_000_000), (2, 500_000_000));
    assert_eq!(lamports_to_sol_parts(0), (0, 0));
    assert_eq!(lamports_to_sol_parts(999_999_999), (0, 999_999_999));
    assert_eq!(lamports_to_sol_parts(1_000_000_000), (1, 0));
    assert_eq!(lamports_to_sol_parts(u64::MAX), (18_446_744_073, 709_551_615));
}

#[test]
fn fixed_labels() {
    assert_eq!(network_name(), "devnet");
    assert_eq!(rpc_endpoint(), "https://api.devnet.solana.com");
}
