//! What is known of an account.

use vstd::prelude::*;

verus! {

/// The account and the organization that a token belongs to.
#[derive(Debug, PartialEq, Eq)]
pub struct AccountProfile {
    pub account_display_name: Option<String>,
    pub account_email: Option<String>,
    pub organization_name: Option<String>,
    pub organization_tier: Option<String>,
    pub organization_type: Option<String>,
}

impl Clone for AccountProfile {
    fn clone(&self) -> (r: Self)
        ensures
            r == *self,
    {
        AccountProfile {
            account_display_name: self.account_display_name.clone(),
            account_email: self.account_email.clone(),
            organization_name: self.organization_name.clone(),
            organization_tier: self.organization_tier.clone(),
            organization_type: self.organization_type.clone(),
        }
    }
}

} // verus!
