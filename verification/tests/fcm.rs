use fcm_shell::fcm::{
    get_device_token, init_fcm, mock_token, register_device_token, request_permission, FcmState,
};
use fcm_shell::greet;

#[test]
fn greet_formats_name() {
    assert_eq!(greet("Alice"), "Hello, Alice! You've been greeted from Rust!");
    assert_eq!(greet(""), "Hello, ! You've been greeted from Rust!");
}

#[test]
fn mock_token_takes_first_sixteen_digits() {
    let t = mock_token("123e4567-e89b-12d3-a456-426614174000");
    assert_eq!(t, "fcm_token_123e4567e89b12d3");
}

#[test]
fn mock_token_on_all_zero_identifier() {
    let t = mock_token("00000000-0000-0000-0000-000000000000");
    assert_eq!(t, "fcm_token_0000000000000000");
}

#[test]
fn new_state_is_unconfigured() {
    let st = FcmState::new();
    assert!(!st.initialized);
    assert!(st.project_id.is_none());
    assert!(st.device_token.is_none());
}

#[test]
fn init_fcm_stores_project_and_token() {
    let mut st = FcmState::new();
    let resp = init_fcm(&mut st, "demo-project".to_string()).unwrap();
    assert!(resp.success);
    assert!(resp.error.is_none());
    assert!(st.initialized);
    assert_eq!(st.project_id.as_deref(), Some("demo-project"));
    let token = resp.device_token.expect("a token is generated");
    assert_eq!(Some(&token), st.device_token.as_ref());
    assert_eq!(token.len(), 26);
    assert!(token.starts_with("fcm_token_"));
    assert!(token[10..].chars().all(|c| c.is_ascii_hexdigit() && !c.is_ascii_uppercase()));
}

#[test]
fn init_fcm_twice_keeps_first_state() {
    let mut st = FcmState::new();
    let first = init_fcm(&mut st, "first".to_string()).unwrap();
    let second = init_fcm(&mut st, "second".to_string()).unwrap();
    assert!(second.success);
    assert_eq!(second.device_token, first.device_token);
    assert_eq!(st.project_id.as_deref(), Some("first"));
}

#[test]
fn fresh_states_draw_distinct_tokens() {
    let mut a = FcmState::new();
    let mut b = FcmState::new();
    let ta = init_fcm(&mut a, "p".to_string()).unwrap().device_token;
    let tb = init_fcm(&mut b, "p".to_string()).unwrap().device_token;
    assert!(ta.is_some() && tb.is_some());
    assert_ne!(ta, tb);
}

#[test]
fn request_permission_before_init_fails() {
    let st = FcmState::new();
    match request_permission(&st) {
        Ok(_) => panic!("permission granted before initialization"),
        Err(e) => assert_eq!(e, "FCM not initialized"),
    }
}

#[test]
fn request_permission_after_init_granted() {
    let mut st = FcmState::new();
    init_fcm(&mut st, "p".to_string()).unwrap();
    let resp = request_permission(&st).unwrap();
    assert!(resp.granted);
    assert!(resp.error.is_none());
}

#[test]
fn get_device_token_before_init_fails() {
    let st = FcmState::new();
    match get_device_token(&st) {
        Ok(_) => panic!("token handed out before initialization"),
        Err(e) => assert_eq!(e, "FCM not initialized"),
    }
}

#[test]
fn get_device_token_returns_stored_token() {
    let mut st = FcmState::new();
    let init = init_fcm(&mut st, "p".to_string()).unwrap();
    let resp = get_device_token(&st).unwrap();
    assert!(resp.success);
    assert!(resp.error.is_none());
    assert_eq!(resp.token, init.device_token);
}

#[test]
fn register_device_token_before_init_fails() {
    let st = FcmState::new();
    match register_device_token(&st, "user-1".to_string(), "tok".to_string()) {
        Ok(_) => panic!("registration accepted before initialization"),
        Err(e) => assert_eq!(e, "FCM not initialized"),
    }
}

#[test]
fn register_device_token_echoes_token() {
    let mut st = FcmState::new();
    init_fcm(&mut st, "p".to_string()).unwrap();
    let resp = register_device_token(&st, "user-1".to_string(), "tok-abc".to_string()).unwrap();
    assert!(resp.success);
    assert!(resp.error.is_none());
    assert_eq!(resp.device_token.as_deref(), Some("tok-abc"));
}
