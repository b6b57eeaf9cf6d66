use vstd::prelude::*;

verus! {

/// The database operation that a command performs.
#[derive(Clone, Copy, Debug, PartialEq, Eq, Structural)]
pub enum Method {
    Use,
    Create,
    Update,
    Patch,
    Merge,
    Select,
    Delete,
    Query,
    Live,
    Kill,
    SetVar,
    Unset,
    Health,
    Version,
    Signin,
    Signup,
    Authenticate,
    Invalidate,
    Export,
    Import,
}

impl Method {
    /// The lower-case name of the method, as it appears in endpoint paths.
    pub fn as_str(&self) -> (r: &'static str)
        ensures
            r@ == self.name(),
    {
        match self {
            Method::Use => "use",
            Method::Create => "create",
            Method::Update => "update",
            Method::Patch => "patch",
            Method::Merge => "merge",
            Method::Select => "select",
            Method::Delete => "delete",
            Method::Query => "query",
            Method::Live => "live",
            Method::Kill => "kill",
            Method::SetVar => "set",
            Method::Unset => "unset",
            Method::Health => "health",
            Method::Version => "version",
            Method::Signin => "signin",
            Method::Signup => "signup",
            Method::Authenticate => "authenticate",
            Method::Invalidate => "invalidate",
            Method::Export => "export",
            Method::Import => "import",
        }
    }

    pub open spec fn name(&self) -> Seq<char> {
        match self {
            Method::Use => "use"@,
            Method::Create => "create"@,
            Method::Update => "update"@,
            Method::Patch => "patch"@,
            Method::Merge => "merge"@,
            Method::Select => "select"@,
            Method::Delete => "delete"@,
            Method::Query => "query"@,
            Method::Live => "live"@,
            Method::Kill => "kill"@,
            Method::SetVar => "set"@,
            Method::Unset => "unset"@,
            Method::Health => "health"@,
            Method::Version => "version"@,
            Method::Signin => "signin"@,
            Method::Signup => "signup"@,
            Method::Authenticate => "authenticate"@,
            Method::Invalidate => "invalidate"@,
            Method::Export => "export"@,
            Method::Import => "import"@,
        }
    }
}

} // verus!
