use icp_canister::state::CanisterState;
use icp_canister::types::{
    CanisterError, GlobalSettings, WalletType, Web3AuthRequest, Web3Session, NANOS_PER_DAY,
};

const HOUR: u64 = NANOS_PER_DAY / 24;

fn request(address: &str, timestamp: u64) -> Web3AuthRequest {
    Web3AuthRequest {
        wallet_address: address.to_string(),
        signature: "sig".to_string(),
        message: "hello".to_string(),
        timestamp,
    }
}

#[test]
fn touched_session_slides_its_expiry() {
    let mut s = Web3Session::open("0xabc".to_string(), WalletType::MetaMask, "1".to_string(), 0);
    let timeout = 10;
    for k in 1..20u64 {
        assert!(s.touch(k * 9, timeout).is_ok());
        assert_eq!(s.last_activity, k * 9);
    }
    assert_eq!(s.connected_at, 0);
    assert!(s.validate(171 + 10, timeout).is_ok());
}

#[test]
fn idle_session_is_rejected() {
    let mut s = Web3Session::open("0xabc".to_string(), WalletType::Phantom, "1".to_string(), 100);
    assert!(s.validate(110, 10).is_ok());
    assert_eq!(s.validate(111, 10).unwrap_err(), CanisterError::SessionExpired);
    assert_eq!(s.touch(111, 10).unwrap_err(), CanisterError::SessionExpired);
    assert_eq!(s.last_activity, 100);
}

#[test]
fn authenticate_creates_user_and_session() {
    let mut st = CanisterState::new(GlobalSettings::default());
    let now = 1_000 * HOUR;
    let res = st
        .authenticate(&request("0xabc", now), true, WalletType::MetaMask, "1".to_string(), now)
        .unwrap();
    assert!(res.success);
    assert_eq!(res.is_new_user, Some(true));
    assert_eq!(res.user.unwrap().wallet_address, Some("0xabc".to_string()));
    let token = res.token.unwrap();
    assert_eq!(st.users.len(), 1);
    assert_eq!(st.balance(&"0xabc".to_string()).unwrap().rupees_balance, 25_000);
    assert!(st.validate_session(&token, now + HOUR).is_ok());
    assert!(st.touch_session(&token, now + 23 * HOUR).is_ok());
    assert!(st.validate_session(&token, now + 46 * HOUR).is_ok());
    assert_eq!(
        st.validate_session(&token, now + 48 * HOUR).unwrap_err(),
        CanisterError::SessionExpired
    );

    let again = st
        .authenticate(&request("0xabc", now), true, WalletType::MetaMask, "1".to_string(), now)
        .unwrap();
    assert_eq!(again.is_new_user, Some(false));
    assert_eq!(st.users.len(), 1);
    assert_eq!(st.sessions.len(), 1);
    let token2 = again.token.unwrap();
    assert_ne!(token, token2);
    assert_eq!(
        st.validate_session(&token, now).unwrap_err(),
        CanisterError::SessionExpired
    );
    assert!(st.close_session(&token2));
    assert!(!st.close_session(&token2));
    assert!(st.sessions.is_empty());
}

#[test]
fn authenticate_refusals_change_nothing() {
    let mut st = CanisterState::new(GlobalSettings::default());
    let now = 1_000 * HOUR;
    assert_eq!(
        st.authenticate(&request("0xabc", now - HOUR), true, WalletType::Injected, "1".to_string(), now)
            .unwrap_err(),
        CanisterError::StaleRequest
    );
    assert_eq!(
        st.authenticate(&request("0xabc", now + HOUR), true, WalletType::Injected, "1".to_string(), now)
            .unwrap_err(),
        CanisterError::StaleRequest
    );
    assert_eq!(
        st.authenticate(&request("0xabc", now), false, WalletType::Injected, "1".to_string(), now)
            .unwrap_err(),
        CanisterError::InvalidSignature
    );
    assert!(st.users.is_empty());
    assert!(st.sessions.is_empty());
}

#[test]
fn unknown_session_token_is_refused() {
    let mut st = CanisterState::default();
    assert_eq!(
        st.validate_session(&"nope".to_string(), 0).unwrap_err(),
        CanisterError::SessionExpired
    );
    assert_eq!(
        st.touch_session(&"nope".to_string(), 0).unwrap_err(),
        CanisterError::SessionExpired
    );
}
