//! The bundle of store capabilities a running service holds: one instance
//! per capability, injected at startup and shared by every flow.

use vstd::prelude::*;

use crate::data_stores::BannedTokenStore;
use crate::data_stores::EmailClient;
use crate::data_stores::TwoFACodeStore;
use crate::data_stores::UserStore;
use crate::model::AuthModel;

verus! {

/// The application state, generic over one implementation per capability.
pub struct AppState<T: UserStore, U: BannedTokenStore, V: TwoFACodeStore, W: EmailClient> {
    pub user_store: T,
    pub banned_token_store: U,
    pub two_fa_code_store: V,
    pub email_client: W,
}

impl<T: UserStore, U: BannedTokenStore, V: TwoFACodeStore, W: EmailClient> AppState<T, U, V, W> {
    /// The joint store state this application state holds.
    pub open spec fn model(&self) -> AuthModel {
        AuthModel {
            users: self.user_store.users(),
            banned: self.banned_token_store.banned(),
            challenges: self.two_fa_code_store.challenges(),
        }
    }

    /// Bundles the four capabilities.
    pub fn new(user_store: T, banned_token_store: U, two_fa_code_store: V, email_client: W) -> (r:
        Self)
        ensures
            r == (AppState {
                user_store: user_store,
                banned_token_store: banned_token_store,
                two_fa_code_store: two_fa_code_store,
                email_client: email_client,
            }),
    {
        AppState { user_store, banned_token_store, two_fa_code_store, email_client }
    }
}

} // verus!
