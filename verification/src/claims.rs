//! What an ID token says about the user, before and after it has been checked.

use vstd::prelude::*;

use crate::text::byte_len;
use crate::text::clone_text;
use crate::text::text_of;

verus! {

/// The most bytes that the subject of an account may take.
pub const MAX_SUBJECT_LEN: usize = 255;

/// The most bytes that the display name of an account may take.
pub const MAX_DISPLAY_NAME_LEN: usize = 255;

/// The claims of an ID token as the provider sent them.
#[derive(Clone, Debug)]
pub struct TokenClaims {
    /// The provider's identifier of the user.
    pub subject: String,
    /// The nonce that the token was issued for.
    pub nonce: Option<String>,
    /// The shorthand name by which the user wishes to be referred to.
    pub preferred_username: Option<String>,
    /// The full name of the user: the value of the `name` claim that carries
    /// no language tag.
    pub name: Option<String>,
    /// The hash of the access token that was issued together with this token.
    pub access_token_hash: Option<String>,
}

/// The plain content of [`TokenClaims`].
pub struct TokenClaimsView {
    pub subject: Seq<char>,
    pub nonce: Option<Seq<char>>,
    pub preferred_username: Option<Seq<char>>,
    pub name: Option<Seq<char>>,
    pub access_token_hash: Option<Seq<char>>,
}

impl View for TokenClaims {
    type V = TokenClaimsView;

    open spec fn view(&self) -> TokenClaimsView {
        TokenClaimsView {
            subject: self.subject@,
            nonce: text_of(self.nonce),
            preferred_username: text_of(self.preferred_username),
            name: text_of(self.name),
            access_token_hash: text_of(self.access_token_hash),
        }
    }
}

/// The identity that a completed login has established.
///
/// A value of this type always holds a display name of at least one character,
/// and neither the subject nor the display name is longer than an account can
/// hold.
#[derive(Debug)]
pub struct VerifiedClaims {
    pub(crate) subject: String,
    pub(crate) preferred_username: Option<String>,
    pub(crate) display_name: String,
    pub(crate) access_token_hash: Option<String>,
}

/// The plain content of [`VerifiedClaims`].
pub struct VerifiedClaimsView {
    pub subject: Seq<char>,
    pub preferred_username: Option<Seq<char>>,
    pub display_name: Seq<char>,
    pub access_token_hash: Option<Seq<char>>,
}

impl View for VerifiedClaims {
    type V = VerifiedClaimsView;

    closed spec fn view(&self) -> VerifiedClaimsView {
        VerifiedClaimsView {
            subject: self.subject@,
            preferred_username: text_of(self.preferred_username),
            display_name: self.display_name@,
            access_token_hash: text_of(self.access_token_hash),
        }
    }
}

impl VerifiedClaimsView {
    /// What holds of every identity that a login has established.
    pub open spec fn wf(self) -> bool {
        &&& byte_len(self.subject) <= MAX_SUBJECT_LEN
        &&& self.display_name.len() > 0
        &&& byte_len(self.display_name) <= MAX_DISPLAY_NAME_LEN
    }
}

impl Clone for VerifiedClaims {
    fn clone(&self) -> (copy: Self)
        ensures
            copy@ == self@,
    {
        proof {
            use_type_invariant(self);
        }
        VerifiedClaims {
            subject: self.subject.clone(),
            preferred_username: clone_text(&self.preferred_username),
            display_name: self.display_name.clone(),
            access_token_hash: clone_text(&self.access_token_hash),
        }
    }
}

impl VerifiedClaims {
    #[verifier::type_invariant]
    closed spec fn inv(self) -> bool {
        self@.wf()
    }

    /// Puts an identity together from parts that fit.
    pub(crate) fn assemble(
        subject: String,
        preferred_username: Option<String>,
        display_name: String,
        access_token_hash: Option<String>,
    ) -> (claims: Self)
        requires
            byte_len(subject@) <= MAX_SUBJECT_LEN,
            display_name@.len() > 0,
            byte_len(display_name@) <= MAX_DISPLAY_NAME_LEN,
        ensures
            claims@ == (VerifiedClaimsView {
                subject: subject@,
                preferred_username: text_of(preferred_username),
                display_name: display_name@,
                access_token_hash: text_of(access_token_hash),
            }),
    {
        VerifiedClaims { subject, preferred_username, display_name, access_token_hash }
    }

    /// The stable identifier that the provider has given the user.
    pub fn subject(&self) -> (subject: &String)
        ensures
            subject@ == self@.subject,
            byte_len(subject@) <= MAX_SUBJECT_LEN,
    {
        proof {
            use_type_invariant(self);
        }
        &self.subject
    }

    /// The shorthand name of the user, where the provider gave one.
    pub fn preferred_username(&self) -> (username: &Option<String>)
        ensures
            text_of(*username) == self@.preferred_username,
    {
        &self.preferred_username
    }

    /// The name to show for the user. It is never empty.
    pub fn display_name(&self) -> (name: &String)
        ensures
            name@ == self@.display_name,
            name@.len() > 0,
            byte_len(name@) <= MAX_DISPLAY_NAME_LEN,
    {
        proof {
            use_type_invariant(self);
        }
        &self.display_name
    }

    /// The hash of the access token, where the ID token carried one.
    pub fn access_token_hash(&self) -> (hash: &Option<String>)
        ensures
            text_of(*hash) == self@.access_token_hash,
    {
        &self.access_token_hash
    }
}

} // verus!
