//! Where credentials come from. The sources that read the environment or
//! run a password manager live with the program; the library holds what
//! they are asked for and what is made of their answers.

use crate::text::{chars_of, text_of, trim, trim_vec};
use vstd::prelude::*;

verus! {

/// Why no credentials could be had.
#[derive(Debug, Clone, PartialEq, Eq)]
pub enum CredentialError {
    /// The source could not be read; the text says why.
    Unavailable(String),
}

/// A source of a user name and a password.
pub trait CredentialProvider {
    fn get_credentials(&self) -> Result<(String, String), CredentialError>;
}

/// Credentials kept in a password store under two fixed entries.
#[derive(Debug, Clone, Copy, PartialEq, Eq)]
pub struct PassProvider;

/// Credentials kept in two environment variables.
#[derive(Debug, Clone, PartialEq, Eq)]
pub struct EnvProvider {
    pub user_var: String,
    pub pass_var: String,
}

/// Credentials given in the clear.
#[derive(Debug, Clone, PartialEq, Eq)]
pub struct StaticProvider {
    pub username: String,
    pub password: String,
}

impl PassProvider {
    /// The entry of the password store that holds the user name.
    pub fn username_entry(&self) -> (r: &'static str)
        ensures
            r@ == "kestra/username"@,
    {
        "kestra/username"
    }

    /// The entry of the password store that holds the password.
    pub fn password_entry(&self) -> (r: &'static str)
        ensures
            r@ == "kestra/password"@,
    {
        "kestra/password"
    }

    /// The credentials in what the password store printed for the two
    /// entries: each text without the whitespace around it.
    pub fn from_output(&self, username_output: &str, password_output: &str) -> (r: (
        String,
        String,
    ))
        ensures
            r.0@ == trim(username_output@),
            r.1@ == trim(password_output@),
    {
        let user = trim_vec(&chars_of(username_output));
        let pass = trim_vec(&chars_of(password_output));
        (text_of(&user), text_of(&pass))
    }
}

impl Default for EnvProvider {
    fn default() -> (r: Self)
        ensures
            r.user_var@ == "KESTRA_USER"@,
            r.pass_var@ == "KESTRA_PASS"@,
    {
        EnvProvider {
            user_var: String::from_str("KESTRA_USER"),
            pass_var: String::from_str("KESTRA_PASS"),
        }
    }
}

impl CredentialProvider for StaticProvider {
    fn get_credentials(&self) -> (r: Result<(String, String), CredentialError>)
        ensures
            r matches Ok(pair) && pair.0@ == self.username@ && pair.1@ == self.password@,
    {
        Ok((self.username.clone(), self.password.clone()))
    }
}

} // verus!
