//! References to secrets kept in an external password manager.

use vstd::prelude::*;

verus! {

/// A secret stored in 1Password.
#[derive(Clone, Debug, PartialEq)]
pub struct OnePasswordSecret {
    pub name: String,
    pub reference: String,
}

/// A secret stored in LastPass.
#[derive(Clone, Debug, PartialEq)]
pub struct LastPassSecret {
    pub name: String,
    pub reference: String,
}

/// A reference to a secret stored in an external password manager.
#[derive(Clone, Debug, PartialEq)]
pub enum ExternalSecret {
    OnePassword(OnePasswordSecret),
    LastPass(LastPassSecret),
}

/// The icon a password manager is shown with.
#[derive(Clone, Copy, Debug, PartialEq, Eq, Structural)]
pub enum ExternalSecretIcon {
    OnePassword,
    LastPass,
}

/// The name a secret is displayed under.
pub open spec fn secret_display_name(s: ExternalSecret) -> Seq<char> {
    match s {
        ExternalSecret::OnePassword(secret) => secret.name@,
        ExternalSecret::LastPass(secret) => secret.name@,
    }
}

impl ExternalSecret {
    /// The name the secret is displayed under.
    pub fn get_display_name(&self) -> (r: String)
        ensures
            r@ == secret_display_name(*self),
    {
        match self {
            ExternalSecret::OnePassword(secret) => secret.name.clone(),
            ExternalSecret::LastPass(secret) => secret.name.clone(),
        }
    }
}

/// A password manager that secrets can be read from.
pub trait ExternalSecretManager {
    /// The icon of the password manager.
    fn icon(&self) -> ExternalSecretIcon;
}

impl ExternalSecretManager for ExternalSecret {
    fn icon(&self) -> (r: ExternalSecretIcon)
        ensures
            r == (match *self {
                ExternalSecret::OnePassword(_) => ExternalSecretIcon::OnePassword,
                ExternalSecret::LastPass(_) => ExternalSecretIcon::LastPass,
            }),
    {
        match self {
            ExternalSecret::OnePassword(_) => ExternalSecretIcon::OnePassword,
            ExternalSecret::LastPass(_) => ExternalSecretIcon::LastPass,
        }
    }
}

} // verus!
