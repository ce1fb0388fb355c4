//! The settings that the next client is built with.

use reqwest::Proxy;
use vstd::prelude::*;

verus! {

/// What a client is built with. Each setter replaces what was set before; the
/// settings take effect when the next client is built.
#[derive(Clone)]
pub struct ClientSettings {
    proxy: Option<Proxy>,
    user_agent: Option<String>,
    gzip: bool,
}

/// [`ClientSettings`] with the user agent as a sequence.
pub struct ClientSettingsView {
    pub proxy: Option<Proxy>,
    pub user_agent: Option<Seq<char>>,
    pub gzip: bool,
}

impl View for ClientSettings {
    type V = ClientSettingsView;

    closed spec fn view(&self) -> ClientSettingsView {
        ClientSettingsView {
            proxy: self.proxy,
            user_agent: match self.user_agent {
                Some(a) => Some(a@),
                None => None,
            },
            gzip: self.gzip,
        }
    }
}

impl ClientSettings {
    /// No proxy, no user agent, compression on.
    pub fn new() -> (s: Self)
        ensures
            s@ == (ClientSettingsView { proxy: None, user_agent: None, gzip: true }),
    {
        Self { proxy: None, user_agent: None, gzip: true }
    }

    /// The proxy of the next client, or none.
    pub fn set_proxy(&mut self, proxy: Option<Proxy>) -> (s: &mut Self)
        ensures
            s@ == (ClientSettingsView { proxy, ..old(self)@ }),
            *final(self) == *final(s),
    {
        self.proxy = proxy;
        self
    }

    /// The proxy that is set.
    pub fn proxy(&self) -> (p: Option<&Proxy>)
        ensures
            match p {
                Some(proxy) => self@.proxy == Some(*proxy),
                None => self@.proxy is None,
            },
    {
        self.proxy.as_ref()
    }

    /// The user agent of the next client, or the transport's own.
    pub fn set_user_agent(&mut self, user_agent: Option<String>) -> (s: &mut Self)
        ensures
            s@ == (ClientSettingsView {
                user_agent: match user_agent {
                    Some(a) => Some(a@),
                    None => None,
                },
                ..old(self)@
            }),
            *final(self) == *final(s),
    {
        self.user_agent = user_agent;
        self
    }

    /// The user agent that is set.
    pub fn user_agent(&self) -> (a: Option<&String>)
        ensures
            match a {
                Some(agent) => self@.user_agent == Some(agent@),
                None => self@.user_agent is None,
            },
    {
        self.user_agent.as_ref()
    }

    /// Whether the next client asks for compressed responses.
    pub fn set_compression(&mut self, enabled: bool) -> (s: &mut Self)
        ensures
            s@ == (ClientSettingsView { gzip: enabled, ..old(self)@ }),
            *final(self) == *final(s),
    {
        self.gzip = enabled;
        self
    }

    /// Lets the next client ask for compressed responses.
    pub fn enable_compression(&mut self) -> (s: &mut Self)
        ensures
            s@ == (ClientSettingsView { gzip: true, ..old(self)@ }),
            *final(self) == *final(s),
    {
        self.gzip = true;
        self
    }

    /// Keeps the next client from asking for compressed responses.
    pub fn disable_compression(&mut self) -> (s: &mut Self)
        ensures
            s@ == (ClientSettingsView { gzip: false, ..old(self)@ }),
            *final(self) == *final(s),
    {
        self.gzip = false;
        self
    }

    /// Whether the next client asks for compressed responses.
    pub fn is_compressed(&self) -> (on: bool)
        ensures
            on == self@.gzip,
    {
        self.gzip
    }
}

} // verus!
