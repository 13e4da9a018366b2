//! Settings of the service.
use vstd::prelude::*;

use crate::umami::LoginRequest;

verus! {

/// Where the service listens and where its upstream services are.
#[derive(Clone, Debug, Default)]
pub struct Args {
    pub host: String,
    pub port: u16,
    pub access_control_allow_origin: Option<String>,
    pub umami_url: String,
    pub umami_username: String,
    pub umami_password: String,
    pub umami_website_id: String,
    pub fediverse_url: String,
    pub fediverse_user_id: String,
    pub zlendy_url: String,
}

impl Args {
    /// The credentials to log in to the analytics backend with.
    pub fn login_request(&self) -> (r: LoginRequest)
        ensures
            r.username@ == self.umami_username@,
            r.password@ == self.umami_password@,
    {
        LoginRequest { username: self.umami_username.clone(), password: self.umami_password.clone() }
    }
}

} // verus!
