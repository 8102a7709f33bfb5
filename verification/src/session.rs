//! Connection settings, and the session that they yield for each wallet.

use crate::errors::{GatewayError, GatewayErrorView};
use crate::text::optional_text;
use vstd::prelude::*;
use vstd::string::*;

verus! {

/// What the gateway needs to talk to one wallet of the node. Making one
/// reaches out to nobody.
#[derive(Debug, PartialEq, Eq)]
pub struct Session {
    /// The wallet's name.
    pub wallet: String,
    /// The address of the wallet's interface on the node.
    pub endpoint: String,
    pub user: String,
    pub password: String,
}

/// A [`Session`] in text.
pub struct SessionView {
    pub wallet: Seq<char>,
    pub endpoint: Seq<char>,
    pub user: Seq<char>,
    pub password: Seq<char>,
}

impl View for Session {
    type V = SessionView;

    open spec fn view(&self) -> SessionView {
        SessionView {
            wallet: self.wallet@,
            endpoint: self.endpoint@,
            user: self.user@,
            password: self.password@,
        }
    }
}

impl Session {
    /// A second value with the same texts.
    pub fn duplicate(&self) -> (copy: Session)
        ensures
            copy@ == self@,
    {
        Session {
            wallet: self.wallet.clone(),
            endpoint: self.endpoint.clone(),
            user: self.user.clone(),
            password: self.password.clone(),
        }
    }
}

/// The settings that the gateway runs with.
#[derive(Debug, PartialEq, Eq)]
pub struct Config {
    /// The address of the node's interface.
    pub rpc_url: String,
    pub rpc_user: String,
    pub rpc_password: String,
    /// The origin that may call the gateway from a browser.
    pub server_url: String,
}

/// A [`Config`] in text.
pub struct ConfigView {
    pub rpc_url: Seq<char>,
    pub rpc_user: Seq<char>,
    pub rpc_password: Seq<char>,
    pub server_url: Seq<char>,
}

impl View for Config {
    type V = ConfigView;

    open spec fn view(&self) -> ConfigView {
        ConfigView {
            rpc_url: self.rpc_url@,
            rpc_user: self.rpc_user@,
            rpc_password: self.rpc_password@,
            server_url: self.server_url@,
        }
    }
}

/// A [`Config`] or the error in its place, in text.
pub enum ConfigOutcome {
    Loaded(ConfigView),
    Refused(GatewayErrorView),
}

/// What a `Result` of [`Config::from_settings`] holds, in text.
pub open spec fn settings_view(result: Result<Config, GatewayError>) -> ConfigOutcome {
    match result {
        Ok(config) => ConfigOutcome::Loaded(config@),
        Err(error) => ConfigOutcome::Refused(error@),
    }
}

/// The error for a setting that is missing.
pub open spec fn missing(what: Seq<char>) -> ConfigOutcome {
    ConfigOutcome::Refused(
        GatewayErrorView::ConfigurationError("cannot load "@ + what + " from env file"@),
    )
}

/// The settings taken together, or the first one that is missing: the user
/// name, the password, the node's address, the caller's origin, in this
/// order.
pub open spec fn settings_outcome(
    user: Option<Seq<char>>,
    password: Option<Seq<char>>,
    rpc_url: Option<Seq<char>>,
    server_url: Option<Seq<char>>,
) -> ConfigOutcome {
    if user is None {
        missing("username"@)
    } else if password is None {
        missing("password"@)
    } else if rpc_url is None {
        missing("rpc-url"@)
    } else if server_url is None {
        missing("server-url"@)
    } else {
        ConfigOutcome::Loaded(
            ConfigView {
                rpc_url: rpc_url->0,
                rpc_user: user->0,
                rpc_password: password->0,
                server_url: server_url->0,
            },
        )
    }
}

/// The address of the interface of the wallet `wallet` on a node at
/// `rpc_url`.
pub open spec fn wallet_endpoint(rpc_url: Seq<char>, wallet: Seq<char>) -> Seq<char> {
    rpc_url + "/wallet/"@ + wallet
}

/// The session for `wallet` under the settings `config`.
pub open spec fn session_for(config: ConfigView, wallet: Seq<char>) -> SessionView {
    SessionView {
        wallet,
        endpoint: wallet_endpoint(config.rpc_url, wallet),
        user: config.rpc_user,
        password: config.rpc_password,
    }
}

fn refuse(what: &str) -> (refused: Result<Config, GatewayError>)
    ensures
        settings_view(refused) == missing(what@),
{
    let text = String::from_str("cannot load ").concat(what).concat(" from env file");
    Err(GatewayError::ConfigurationError(text))
}

impl Config {
    /// Puts the settings together, each one given if it was found.
    pub fn from_settings(
        user: Option<String>,
        password: Option<String>,
        rpc_url: Option<String>,
        server_url: Option<String>,
    ) -> (result: Result<Config, GatewayError>)
        ensures
            settings_view(result) == settings_outcome(
                optional_text(user),
                optional_text(password),
                optional_text(rpc_url),
                optional_text(server_url),
            ),
    {
        let rpc_user = match user {
            Some(text) => text,
            None => { return refuse("username"); },
        };
        let rpc_password = match password {
            Some(text) => text,
            None => { return refuse("password"); },
        };
        let rpc_url = match rpc_url {
            Some(text) => text,
            None => { return refuse("rpc-url"); },
        };
        let server_url = match server_url {
            Some(text) => text,
            None => { return refuse("server-url"); },
        };
        Ok(Config { rpc_url, rpc_user, rpc_password, server_url })
    }

    /// The address of the interface of the wallet `wallet`.
    pub fn endpoint(&self, wallet: &str) -> (address: String)
        ensures
            address@ == wallet_endpoint(self.rpc_url@, wallet@),
    {
        self.rpc_url.clone().concat("/wallet/").concat(wallet)
    }

    /// The session for the wallet `wallet`.
    pub fn session(&self, wallet: &str) -> (session: Session)
        ensures
            session@ == session_for(self@, wallet@),
    {
        Session {
            wallet: wallet.to_owned(),
            endpoint: self.endpoint(wallet),
            user: self.rpc_user.clone(),
            password: self.rpc_password.clone(),
        }
    }
}

} // verus!
