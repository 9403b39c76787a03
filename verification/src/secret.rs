//! The password of a hosted endpoint, kept in `secrecy`'s string container.

use secrecy::ExposeSecret;
use secrecy::SecretString;
use vstd::prelude::*;

verus! {

/// A `secrecy::SecretString`: a container of one text that keeps the text out of debug output and
/// wipes it from memory when it is dropped.
#[verifier::external_body]
#[derive(Debug)]
pub struct Secret {
    text: SecretString,
}

/// The text that a secret holds.
pub uninterp spec fn secret_text(secret: Secret) -> Seq<char>;

/// Calls `secrecy::SecretString::new` on a boxed copy of `text`: the secret holds exactly that text.
#[verifier::external_body]
fn secret_string(text: &str) -> (secret: Secret)
    ensures
        secret_text(secret) == text@,
{
    Secret { text: SecretString::new(text.to_string().into()) }
}

/// Calls `secrecy::ExposeSecret::expose_secret`: what comes back is the text that the secret holds.
#[verifier::external_body]
fn exposed_text(secret: &Secret) -> (text: &str)
    ensures
        text@ == secret_text(*secret),
{
    secret.text.expose_secret()
}

impl Secret {
    /// Puts `text` into a secret.
    pub fn new(text: &str) -> (secret: Secret)
        ensures
            secret_text(secret) == text@,
    {
        secret_string(text)
    }

    /// The text inside.
    pub fn expose(&self) -> (text: &str)
        ensures
            text@ == secret_text(*self),
    {
        exposed_text(self)
    }
}

} // verus!
