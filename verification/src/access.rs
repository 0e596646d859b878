//! Who may change the registry: the configured owner and verifier, and the
//! two gates derived from them.

use vstd::prelude::*;
use crate::error::RegistryError;

verus! {

/// The identities that hold rights on the registry.
///
/// The owner alone may change the configuration. The verifier accepts
/// claims; while none is configured, the owner acts as verifier.
#[derive(Debug, PartialEq, Eq)]
pub struct RegistryConfig {
    pub owner: String,
    pub verifier: Option<String>,
}

/// The mathematical value of a [`RegistryConfig`].
pub struct ConfigView {
    pub owner: Seq<char>,
    pub verifier: Option<Seq<char>>,
}

impl ConfigView {
    /// The configuration right after initialization: an owner, no verifier.
    pub open spec fn initial(owner: Seq<char>) -> ConfigView {
        ConfigView { owner, verifier: None }
    }

    /// The owner gate lets `caller` pass exactly when it is the owner.
    pub open spec fn permits_owner(self, caller: Seq<char>) -> bool {
        caller == self.owner
    }

    /// The verifier gate lets `caller` pass exactly when it is the configured
    /// verifier or, with no verifier configured, the owner.
    pub open spec fn permits_verifier(self, caller: Seq<char>) -> bool {
        match self.verifier {
            Some(verifier) => caller == verifier,
            None => caller == self.owner,
        }
    }

    /// The same configuration under a new owner.
    pub open spec fn with_owner(self, owner: Seq<char>) -> ConfigView {
        ConfigView { owner, ..self }
    }

    /// The same configuration with `verifier` as the verifier.
    pub open spec fn with_verifier(self, verifier: Seq<char>) -> ConfigView {
        ConfigView { verifier: Some(verifier), ..self }
    }
}

impl View for RegistryConfig {
    type V = ConfigView;

    open spec fn view(&self) -> ConfigView {
        ConfigView {
            owner: self.owner@,
            verifier: match self.verifier {
                Some(verifier) => Some(verifier@),
                None => None,
            },
        }
    }
}

impl RegistryConfig {
    /// A configuration with `owner` as owner and no verifier.
    pub fn new(owner: String) -> (config: Self)
        ensures
            config@ == ConfigView::initial(owner@),
    {
        RegistryConfig { owner, verifier: None }
    }

    /// The owner gate: `Ok` exactly when `caller` is the owner, otherwise
    /// `PermissionDenied`.
    pub fn assert_owner(&self, caller: &String) -> (gate: Result<(), RegistryError>)
        ensures
            self@.permits_owner(caller@) ==> gate == Ok::<(), RegistryError>(()),
            !self@.permits_owner(caller@) ==> gate == Err::<(), RegistryError>(
                RegistryError::PermissionDenied,
            ),
    {
        if *caller == self.owner {
            Ok(())
        } else {
            Err(RegistryError::PermissionDenied)
        }
    }

    /// The verifier gate: `Ok` exactly when `caller` is the configured
    /// verifier or, with none configured, the owner; otherwise
    /// `PermissionDenied`.
    pub fn assert_verifier(&self, caller: &String) -> (gate: Result<(), RegistryError>)
        ensures
            self@.permits_verifier(caller@) ==> gate == Ok::<(), RegistryError>(()),
            !self@.permits_verifier(caller@) ==> gate == Err::<(), RegistryError>(
                RegistryError::PermissionDenied,
            ),
    {
        match &self.verifier {
            Some(verifier) => {
                if *caller == *verifier {
                    Ok(())
                } else {
                    Err(RegistryError::PermissionDenied)
                }
            },
            None => self.assert_owner(caller),
        }
    }
}

} // verus!
