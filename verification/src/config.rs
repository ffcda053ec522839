//! A proxy connection profile.

use vstd::prelude::*;
use crate::model::Keyed;

verus! {

/// One proxy server connection profile.
///
/// The id is supplied by the caller. No field is validated or interpreted
/// here: the protocol is an open set of names, and what `enabled` means is
/// left to the caller.
#[derive(Debug, PartialEq, Eq)]
pub struct ProxyConfig {
    pub id: String,
    pub name: String,
    pub protocol: String,
    pub host: String,
    pub port: u16,
    pub username: Option<String>,
    pub password: Option<String>,
    pub enabled: bool,
}

/// What a [`ProxyConfig`] holds, as plain mathematical values.
pub struct ProxyConfigView {
    pub id: Seq<char>,
    pub name: Seq<char>,
    pub protocol: Seq<char>,
    pub host: Seq<char>,
    pub port: u16,
    pub username: Option<Seq<char>>,
    pub password: Option<Seq<char>>,
    pub enabled: bool,
}

impl Keyed for ProxyConfigView {
    open spec fn key(&self) -> Seq<char> {
        self.id
    }
}

impl View for ProxyConfig {
    type V = ProxyConfigView;

    open spec fn view(&self) -> ProxyConfigView {
        ProxyConfigView {
            id: self.id@,
            name: self.name@,
            protocol: self.protocol@,
            host: self.host@,
            port: self.port,
            username: self.username.deep_view(),
            password: self.password.deep_view(),
            enabled: self.enabled,
        }
    }
}

impl DeepView for ProxyConfig {
    type V = ProxyConfigView;

    open spec fn deep_view(&self) -> ProxyConfigView {
        self@
    }
}

impl Clone for ProxyConfig {
    /// A copy that holds the same values in every field.
    fn clone(&self) -> (copy: Self)
        ensures
            copy@ == self@,
    {
        ProxyConfig {
            id: self.id.clone(),
            name: self.name.clone(),
            protocol: self.protocol.clone(),
            host: self.host.clone(),
            port: self.port,
            username: self.username.clone(),
            password: self.password.clone(),
            enabled: self.enabled,
        }
    }
}

} // verus!
