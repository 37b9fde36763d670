use vstd::prelude::*;
use vstd::string::StringExecFns;
use crate::cli::Opts;

verus! {

/// Author name used when neither the options nor the repository give one.
pub const FALLBACK_NAME: &'static str = "Fis Committer";

/// Author email used when neither the options nor the repository give one.
pub const FALLBACK_EMAIL: &'static str = "fis@bot.com";

/// Message of every automated commit.
pub const COMMIT_MESSAGE: &'static str = "Committed by fis";

/// Author and committer of an automated commit.
pub struct Identity {
    pub name: String,
    pub email: String,
}

/// The first value present: the explicit one, else the configured one, else
/// the fallback.
pub open spec fn first_present(
    preferred: Option<String>,
    configured: Option<String>,
    fallback: Seq<char>,
) -> Seq<char> {
    match preferred {
        Some(p) => p@,
        None => match configured {
            Some(c) => c@,
            None => fallback,
        },
    }
}

/// Picks one field of the identity.
pub fn pick_field(preferred: &Option<String>, configured: &Option<String>, fallback: &str) -> (r:
    String)
    ensures
        r@ == first_present(*preferred, *configured, fallback@),
{
    match preferred {
        Some(p) => p.clone(),
        None => match configured {
            Some(c) => c.clone(),
            None => String::from_str(fallback),
        },
    }
}

/// The identity that signs an automated commit: the options' overrides first,
/// then the repository's configured identity, then a fixed fallback, so that a
/// commit never fails for want of an identity.
pub fn commit_identity(
    opts: &Opts,
    configured_name: &Option<String>,
    configured_email: &Option<String>,
) -> (r: Identity)
    ensures
        r.name@ == first_present(opts.author_name, *configured_name, FALLBACK_NAME@),
        r.email@ == first_present(opts.author_email, *configured_email, FALLBACK_EMAIL@),
{
    let name = pick_field(&opts.author_name, configured_name, FALLBACK_NAME);
    let email = pick_field(&opts.author_email, configured_email, FALLBACK_EMAIL);
    Identity { name, email }
}

} // verus!
