//! The deployment environment, and the names under which a deployment
//! publishes the address of a service.

use crate::text::{joined, pieces, replace_char, same_text};
use vstd::prelude::*;

verus! {

/// Name of the variable that holds the deployment environment.
pub const ENVIRONMENT_STR: &'static str = "ENVIRONMENT";

/// Prefix of the variables that point to a file with a secret.
pub const SECRET_PREFIX: &'static str = "SECRET_";

/// Where the process is deployed.
#[derive(Debug, Clone, Copy, PartialEq, Eq, Structural)]
pub enum Environment {
    LOCAL,
    DEV,
    STAGE,
    PROD,
}

/// The uppercase form of a text, as `str::to_uppercase` of the standard
/// library gives it.
pub uninterp spec fn uppercased(text: Seq<char>) -> Seq<char>;

/// Calls `str::to_uppercase`. The result is the uppercase equivalent of the
/// text by the Unicode rules, which may be longer than the text; it depends on
/// the text alone and is named by [`uppercased`].
#[verifier::external_body]
fn to_uppercase(text: &str) -> (r: String)
    ensures
        r@ == uppercased(text@),
{
    text.to_uppercase()
}

impl Environment {
    /// The name of the environment.
    pub open spec fn name(self) -> Seq<char> {
        match self {
            Environment::LOCAL => "LOCAL"@,
            Environment::DEV => "DEV"@,
            Environment::STAGE => "STAGE"@,
            Environment::PROD => "PROD"@,
        }
    }

    /// The environment that `text` names, if it names one.
    pub open spec fn with_name(text: Seq<char>) -> Option<Environment> {
        if text == "LOCAL"@ {
            Some(Environment::LOCAL)
        } else if text == "DEV"@ {
            Some(Environment::DEV)
        } else if text == "STAGE"@ {
            Some(Environment::STAGE)
        } else if text == "PROD"@ {
            Some(Environment::PROD)
        } else {
            None
        }
    }

    /// The name of the environment.
    pub fn as_str(&self) -> (r: &'static str)
        ensures
            r@ == self.name(),
    {
        match self {
            Environment::LOCAL => "LOCAL",
            Environment::DEV => "DEV",
            Environment::STAGE => "STAGE",
            Environment::PROD => "PROD",
        }
    }

    /// Reads the name of an environment, in capitals and nothing else.
    pub fn from_str(text: &str) -> (r: Option<Environment>)
        ensures
            r == Self::with_name(text@),
    {
        if same_text(text, "LOCAL") {
            Some(Environment::LOCAL)
        } else if same_text(text, "DEV") {
            Some(Environment::DEV)
        } else if same_text(text, "STAGE") {
            Some(Environment::STAGE)
        } else if same_text(text, "PROD") {
            Some(Environment::PROD)
        } else {
            None
        }
    }

    /// Reads the environment from the value of [`ENVIRONMENT_STR`], in
    /// whatever case it is written. A value that names no environment comes
    /// back in capitals as the error.
    pub fn from_env_value(value: &str) -> (r: Result<Environment, String>)
        ensures
            match r {
                Ok(environment) => Self::with_name(uppercased(value@)) == Some(environment),
                Err(rejected) => Self::with_name(uppercased(value@)) is None && rejected@
                    == uppercased(value@),
            },
    {
        let env = to_uppercase(value);
        match Environment::from_str(env.as_str()) {
            Some(environment) => Ok(environment),
            None => Err(env),
        }
    }

    /// Whether commands may be sent to the workflow engine directly, without
    /// coming from a webhook: everywhere but in `STAGE` and `PROD`.
    pub open spec fn direct_interaction(self) -> bool {
        self != Environment::STAGE && self != Environment::PROD
    }

    /// Whether commands may be sent to the workflow engine directly.
    pub fn allows_direct_interaction(&self) -> (r: bool)
        ensures
            r == self.direct_interaction(),
    {
        match self {
            Environment::STAGE | Environment::PROD => false,
            _ => true,
        }
    }
}

/// Reading a name back gives the environment that was written.
pub proof fn name_identifies_environment(environment: Environment)
    ensures
        Environment::with_name(environment.name()) == Some(environment),
{
    reveal_strlit("LOCAL");
    reveal_strlit("DEV");
    reveal_strlit("STAGE");
    reveal_strlit("PROD");
    assert("LOCAL"@.len() != "DEV"@.len());
    assert("LOCAL"@[0] != "STAGE"@[0]);
    assert("LOCAL"@.len() != "PROD"@.len());
    assert("DEV"@.len() != "STAGE"@.len());
    assert("DEV"@.len() != "PROD"@.len());
    assert("STAGE"@.len() != "PROD"@.len());
}

/// The stem of the variables of the service `role`: the role in capitals,
/// with an underscore for every dash.
pub open spec fn service_stem(role: Seq<char>) -> Seq<char> {
    joined(pieces(uppercased(role), '-'), seq!['_'])
}

/// Name of the variable that holds the host of the service `role`.
pub fn service_host_var(role: &str) -> (r: String)
    ensures
        r@ == service_stem(role@) + "_SERVICE_HOST"@,
{
    proof {
        reveal_strlit("_");
    }
    assert("_"@ =~= seq!['_']);
    let mut r = replace_char(to_uppercase(role).as_str(), '-', "_");
    r.append("_SERVICE_HOST");
    r
}

/// Name of the variable that holds the port of the service `role`.
pub fn service_port_var(role: &str) -> (r: String)
    ensures
        r@ == service_stem(role@) + "_SERVICE_PORT"@,
{
    proof {
        reveal_strlit("_");
    }
    assert("_"@ =~= seq!['_']);
    let mut r = replace_char(to_uppercase(role).as_str(), '-', "_");
    r.append("_SERVICE_PORT");
    r
}

} // verus!
