use secrecy::ExposeSecret;
use secrecy::Secret;
use vstd::prelude::*;

verus! {

/// A piece of text that must not leak: it is held in a `secrecy::Secret`,
/// which wipes the memory when dropped and prints a placeholder under `Debug`.
///
/// Verus cannot look inside it; what it holds is given by [`secret_text`].
#[verifier::external_body]
#[derive(Debug)]
pub struct SecretText {
    inner: Secret<String>,
}

/// The text that a [`SecretText`] holds.
pub uninterp spec fn secret_text(secret: SecretText) -> Seq<char>;

impl View for SecretText {
    type V = Seq<char>;

    open spec fn view(&self) -> Seq<char> {
        secret_text(*self)
    }
}

/// `secrecy::Secret::new`: the new secret holds exactly the given text.
#[verifier::external_body]
fn seal(text: String) -> (secret: SecretText)
    ensures
        secret_text(secret) == text@,
{
    SecretText { inner: Secret::new(text) }
}

/// `secrecy::ExposeSecret::expose_secret`: a reference to the text held.
#[verifier::external_body]
fn unseal(secret: &SecretText) -> (text: &String)
    ensures
        text@ == secret_text(*secret),
{
    secret.inner.expose_secret()
}

/// `Clone` of `secrecy::Secret<String>`: the copy holds the same text.
#[verifier::external_body]
fn reseal(secret: &SecretText) -> (copy: SecretText)
    ensures
        secret_text(copy) == secret_text(*secret),
{
    SecretText { inner: secret.inner.clone() }
}

impl SecretText {
    /// Wraps `text` so that it can only be read through [`SecretText::expose`].
    pub fn new(text: String) -> (secret: SecretText)
        ensures
            secret@ == text@,
    {
        seal(text)
    }

    /// The one way to read the secret.
    pub fn expose(&self) -> (text: &String)
        ensures
            text@ == self@,
    {
        unseal(self)
    }

    /// A second secret holding the same text.
    pub fn duplicate(&self) -> (copy: SecretText)
        ensures
            copy@ == self@,
    {
        reseal(self)
    }
}

} // verus!
