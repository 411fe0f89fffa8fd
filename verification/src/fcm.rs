//! Mock push-notification plugin: in-memory state and the logic of its
//! commands. The host shell keeps one [`FcmState`] per application, guards it
//! with a lock, and forwards each command's plain arguments here.

use vstd::prelude::*;
use vstd::string::*;

verus! {

/// A lowercase hexadecimal digit.
pub open spec fn is_hex_lower(c: char) -> bool {
    ('0' <= c && c <= '9') || ('a' <= c && c <= 'f')
}

/// Whether `i` is one of the four hyphen positions of a hyphenated
/// 128-bit identifier.
pub open spec fn is_dash_pos(i: int) -> bool {
    i == 8 || i == 13 || i == 18 || i == 23
}

/// The hyphenated form of a random 128-bit identifier: 36 characters,
/// hyphens at positions 8, 13, 18 and 23, lowercase hex digits elsewhere.
pub open spec fn is_uuid_hyphenated(s: Seq<char>) -> bool {
    &&& s.len() == 36
    &&& forall|i: int| 0 <= i < s.len() && is_dash_pos(i) ==> #[trigger] s[i] == '-'
    &&& forall|i: int| 0 <= i < s.len() && !is_dash_pos(i) ==> is_hex_lower(#[trigger] s[i])
}

/// The characters of `s` with every hyphen removed, in order.
pub open spec fn remove_dashes(s: Seq<char>) -> Seq<char>
    decreases s.len(),
{
    if s.len() == 0 {
        s
    } else if s.last() == '-' {
        remove_dashes(s.drop_last())
    } else {
        remove_dashes(s.drop_last()).push(s.last())
    }
}

/// The mock device token derived from a hyphenated identifier: the prefix
/// `fcm_token_` followed by the first 16 non-hyphen characters.
pub open spec fn spec_mock_token(u: Seq<char>) -> Seq<char>
    recommends
        remove_dashes(u).len() >= 16,
{
    "fcm_token_"@ + remove_dashes(u).take(16)
}

/// A token as `init_fcm` stores it: derived from some hyphenated identifier.
pub open spec fn is_fresh_mock_token(t: Seq<char>) -> bool {
    exists|u: Seq<char>| is_uuid_hyphenated(u) && t == spec_mock_token(u)
}

proof fn lemma_remove_dashes_add(a: Seq<char>, b: Seq<char>)
    ensures
        remove_dashes(a + b) == remove_dashes(a) + remove_dashes(b),
    decreases b.len(),
{
    if b.len() == 0 {
        assert(a + b =~= a);
        assert(remove_dashes(a) + remove_dashes(b) =~= remove_dashes(a));
    } else {
        lemma_remove_dashes_add(a, b.drop_last());
        assert((a + b).drop_last() =~= a + b.drop_last());
        assert((a + b).last() == b.last());
        if b.last() != '-' {
            assert(remove_dashes(a) + remove_dashes(b.drop_last()).push(b.last()) =~= (
            remove_dashes(a) + remove_dashes(b.drop_last())).push(b.last()));
        }
    }
}

proof fn lemma_remove_dashes_id(s: Seq<char>)
    requires
        forall|i: int| 0 <= i < s.len() ==> #[trigger] s[i] != '-',
    ensures
        remove_dashes(s) == s,
    decreases s.len(),
{
    if s.len() > 0 {
        lemma_remove_dashes_id(s.drop_last());
        assert(remove_dashes(s) =~= s);
    }
}

proof fn lemma_remove_dashes_dash(s: Seq<char>)
    requires
        s.len() == 1,
        s[0] == '-',
    ensures
        remove_dashes(s) == Seq::<char>::empty(),
{
    let rest = s.drop_last();
    assert(rest =~= Seq::<char>::empty());
    assert(remove_dashes(rest) == rest);
    assert(remove_dashes(s) =~= Seq::<char>::empty());
}

/// On a hyphenated identifier, removing the hyphens leaves the 32 hex digits,
/// and the first 16 of them are the digit blocks at 0..8, 9..13 and 14..18.
proof fn lemma_uuid_remove_dashes(s: Seq<char>)
    requires
        is_uuid_hyphenated(s),
    ensures
        remove_dashes(s).len() == 32,
        remove_dashes(s).take(16) == s.subrange(0, 8) + s.subrange(9, 13) + s.subrange(14, 18),
{
    let a = s.subrange(0, 8);
    let d1 = s.subrange(8, 9);
    let b = s.subrange(9, 13);
    let d2 = s.subrange(13, 14);
    let c = s.subrange(14, 18);
    let d3 = s.subrange(18, 19);
    let d = s.subrange(19, 23);
    let d4 = s.subrange(23, 24);
    let e = s.subrange(24, 36);
    assert(s =~= a + d1 + b + d2 + c + d3 + d + d4 + e);
    lemma_remove_dashes_add(a + d1 + b + d2 + c + d3 + d + d4, e);
    lemma_remove_dashes_add(a + d1 + b + d2 + c + d3 + d, d4);
    lemma_remove_dashes_add(a + d1 + b + d2 + c + d3, d);
    lemma_remove_dashes_add(a + d1 + b + d2 + c, d3);
    lemma_remove_dashes_add(a + d1 + b + d2, c);
    lemma_remove_dashes_add(a + d1 + b, d2);
    lemma_remove_dashes_add(a + d1, b);
    lemma_remove_dashes_add(a, d1);
    lemma_remove_dashes_id(a);
    lemma_remove_dashes_id(b);
    lemma_remove_dashes_id(c);
    lemma_remove_dashes_id(d);
    lemma_remove_dashes_id(e);
    lemma_remove_dashes_dash(d1);
    lemma_remove_dashes_dash(d2);
    lemma_remove_dashes_dash(d3);
    lemma_remove_dashes_dash(d4);
    assert(remove_dashes(s) =~= a + b + c + d + e);
    assert(remove_dashes(s).take(16) =~= a + b + c);
}

/// Relies on `uuid::Uuid::new_v4` and its `Display` form: the hyphenated
/// lowercase encoding of a fresh random identifier, 36 characters with
/// hyphens at positions 8, 13, 18 and 23 and lowercase hex digits elsewhere.
/// The identifier is random, so nothing beyond that shape is stated.
#[verifier::external_body]
fn new_v4_hyphenated() -> (r: String)
    ensures
        is_uuid_hyphenated(r@),
{
    uuid::Uuid::new_v4().to_string()
}

/// Derives the mock device token from a hyphenated identifier: `fcm_token_`
/// followed by the first 16 characters of `u` with hyphens removed.
pub fn mock_token(u: &str) -> (t: String)
    requires
        is_uuid_hyphenated(u@),
    ensures
        t@ == spec_mock_token(u@),
{
    let mut t = String::from_str("fcm_token_");
    t.append(u.substring_char(0, 8));
    t.append(u.substring_char(9, 13));
    t.append(u.substring_char(14, 18));
    proof {
        lemma_uuid_remove_dashes(u@);
        assert(t@ =~= spec_mock_token(u@));
    }
    t
}

/// In-memory state of the mock push-notification plugin.
pub struct FcmState {
    pub project_id: Option<String>,
    pub initialized: bool,
    pub device_token: Option<String>,
}

impl FcmState {
    /// The state the plugin is set up with: nothing configured yet.
    pub fn new() -> (s: FcmState)
        ensures
            !s.initialized,
            s.project_id is None,
            s.device_token is None,
    {
        FcmState { project_id: None, initialized: false, device_token: None }
    }
}

/// Response of `init_fcm` and `register_device_token`.
pub struct InitResponse {
    pub success: bool,
    pub device_token: Option<String>,
    pub error: Option<String>,
}

/// Response of `request_permission`.
pub struct PermissionResponse {
    pub granted: bool,
    pub error: Option<String>,
}

/// Response of `get_device_token`.
pub struct TokenResponse {
    pub success: bool,
    pub token: Option<String>,
    pub error: Option<String>,
}

fn clone_token(t: &Option<String>) -> (r: Option<String>)
    ensures
        r == *t,
{
    match t {
        Some(s) => Some(s.clone()),
        None => None,
    }
}

/// Initializes the mock plugin. A second call changes nothing and answers
/// with the token stored by the first; the first call records the project id,
/// draws a fresh identifier and stores the mock token derived from it.
pub fn init_fcm(state: &mut FcmState, project_id: String) -> (r: Result<InitResponse, String>)
    ensures
        r matches Ok(resp) && resp.success && resp.error is None,
        old(state).initialized ==> {
            &&& *final(state) == *old(state)
            &&& r matches Ok(resp) && resp.device_token == old(state).device_token
        },
        !old(state).initialized ==> {
            &&& final(state).initialized
            &&& final(state).project_id == Some(project_id)
            &&& final(state).device_token matches Some(t) && is_fresh_mock_token(t@)
            &&& r matches Ok(resp) && resp.device_token == final(state).device_token
        },
{
    if state.initialized {
        let tok = clone_token(&state.device_token);
        Ok(InitResponse { success: true, device_token: tok, error: None })
    } else {
        state.project_id = Some(project_id);
        let u = new_v4_hyphenated();
        let token = mock_token(u.as_str());
        proof {
            assert(is_uuid_hyphenated(u@) && token@ == spec_mock_token(u@));
        }
        state.device_token = Some(token.clone());
        state.initialized = true;
        Ok(InitResponse { success: true, device_token: Some(token), error: None })
    }
}

/// Answers the permission request: granted whenever the plugin is
/// initialized, an error otherwise.
pub fn request_permission(state: &FcmState) -> (r: Result<PermissionResponse, String>)
    ensures
        state.initialized ==> {
            &&& r matches Ok(resp)
            &&& resp.granted
            &&& resp.error is None
        },
        !state.initialized ==> {
            &&& r matches Err(e)
            &&& e@ == "FCM not initialized"@
        },
{
    if !state.initialized {
        return Err(String::from_str("FCM not initialized"));
    }
    Ok(PermissionResponse { granted: true, error: None })
}

/// Hands out the stored device token; an error before initialization.
pub fn get_device_token(state: &FcmState) -> (r: Result<TokenResponse, String>)
    ensures
        state.initialized ==> {
            &&& r matches Ok(resp)
            &&& resp.success
            &&& resp.token == state.device_token
            &&& resp.error is None
        },
        !state.initialized ==> {
            &&& r matches Err(e)
            &&& e@ == "FCM not initialized"@
        },
{
    if !state.initialized {
        return Err(String::from_str("FCM not initialized"));
    }
    let tok = clone_token(&state.device_token);
    Ok(TokenResponse { success: true, token: tok, error: None })
}

/// Acknowledges a device-token registration: echoes the token back when the
/// plugin is initialized, an error otherwise. The user id plays no part in
/// the mock.
pub fn register_device_token(
    state: &FcmState,
    _user_id: String,
    device_token: String,
) -> (r: Result<InitResponse, String>)
    ensures
        state.initialized ==> {
            &&& r matches Ok(resp)
            &&& resp.success
            &&& resp.device_token == Some(device_token)
            &&& resp.error is None
        },
        !state.initialized ==> {
            &&& r matches Err(e)
            &&& e@ == "FCM not initialized"@
        },
{
    if !state.initialized {
        return Err(String::from_str("FCM not initialized"));
    }
    Ok(InitResponse { success: true, device_token: Some(device_token), error: None })
}

} // verus!

