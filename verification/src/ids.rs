//! Identifiers and secrets.
use vstd::prelude::*;

verus! {

/// A Discord user ID.
#[derive(Clone, Debug, PartialEq, Eq, Hash)]
pub struct UserId {
    value: String,
}

/// A bot instance ID.
#[derive(Clone, Debug, PartialEq, Eq, Hash)]
pub struct BotId {
    value: String,
}

/// A secret text. It has no `Debug`, so it cannot slip into a log line by accident.
#[derive(Clone)]
pub struct SecretString {
    value: String,
}

impl View for UserId {
    type V = Seq<char>;

    closed spec fn view(&self) -> Seq<char> {
        self.value@
    }
}

impl View for BotId {
    type V = Seq<char>;

    closed spec fn view(&self) -> Seq<char> {
        self.value@
    }
}

impl View for SecretString {
    type V = Seq<char>;

    closed spec fn view(&self) -> Seq<char> {
        self.value@
    }
}

/// The characters of an optional secret.
pub open spec fn opt_secret(secret: Option<SecretString>) -> Option<Seq<char>> {
    match secret {
        Some(s) => Some(s@),
        None => None,
    }
}

impl UserId {
    /// The ID with the given text.
    pub fn new(value: String) -> (r: Self)
        ensures
            r@ == value@,
    {
        UserId { value }
    }

    /// The text of the ID.
    pub fn as_str(&self) -> (r: &str)
        ensures
            r@ == self@,
    {
        self.value.as_str()
    }
}

impl BotId {
    /// The ID with the given text.
    pub fn new(value: String) -> (r: Self)
        ensures
            r@ == value@,
    {
        BotId { value }
    }

    /// The text of the ID.
    pub fn as_str(&self) -> (r: &str)
        ensures
            r@ == self@,
    {
        self.value.as_str()
    }
}

impl SecretString {
    /// The secret with the given text.
    pub fn new(value: String) -> (r: Self)
        ensures
            r@ == value@,
    {
        SecretString { value }
    }

    /// The text of the secret.
    pub fn expose_secret(&self) -> (r: &str)
        ensures
            r@ == self@,
    {
        self.value.as_str()
    }

    /// A second copy of the secret.
    pub fn duplicate(&self) -> (r: Self)
        ensures
            r@ == self@,
    {
        SecretString { value: self.value.clone() }
    }
}

} // verus!
