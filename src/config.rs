use crate::account::{mailbox_parses, parses_as_mailbox};
use crate::policy::PasswordRequirements;
use vstd::prelude::*;

verus! {

/// Where and how verification emails are sent.
pub struct EmailConfig {
    pub smtp_username: String,
    pub smtp_password: String,
    pub server_domain: String,
    pub from_mailbox: String,
    pub replay_to_mailbox: String,
    pub subject: String,
    pub header: String,
    pub body: String,
}

impl EmailConfig {
    /// Both configured sender mailboxes parse; a configuration where they do
    /// not is refused at startup.
    pub fn mailboxes_valid(&self) -> (r: bool)
        ensures
            r == (mailbox_parses(self.from_mailbox@) && mailbox_parses(self.replay_to_mailbox@)),
    {
        parses_as_mailbox(self.from_mailbox.as_str()) && parses_as_mailbox(self.replay_to_mailbox.as_str())
    }
}

/// The server configuration, loaded once at startup and read-only after.
pub struct ConfigHandler {
    pub sql_connection_string: String,
    pub server_address: String,
    pub server_port: u16,
    /// Path of the PEM certificate chain.
    pub cert: String,
    /// Path of the PEM PKCS#8 private key.
    pub key: String,
    pub password_requirments: PasswordRequirements,
    pub require_email_verification: bool,
    pub email_config: Option<EmailConfig>,
}

} // verus!
