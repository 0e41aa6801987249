//! The closed set of fine-grained permissions a bearer token can carry.

use vstd::prelude::*;

verus! {

use crate::strutil::str_eq;

/// A named permission an endpoint can require of a bearer token.
///
/// A token's scope list is either absent (a legacy token, unrestricted) or a
/// set of these values; absence and presence are told apart by the
/// `Option` around the list, never by a sentinel variant here.
#[derive(Clone, Copy, Debug, PartialEq, Eq, Structural)]
pub enum EndpointScope {
    PublishNew,
    PublishUpdate,
    Yank,
    ChangeOwners,
}

/// The wire name of each scope, as stored in the database column.
pub open spec fn spec_scope_name(s: EndpointScope) -> Seq<char> {
    match s {
        EndpointScope::PublishNew => "publish-new"@,
        EndpointScope::PublishUpdate => "publish-update"@,
        EndpointScope::Yank => "yank"@,
        EndpointScope::ChangeOwners => "change-owners"@,
    }
}

/// What parsing a scope name yields: the unique scope of that name, if any.
pub open spec fn spec_parse_scope(name: Seq<char>) -> Option<EndpointScope> {
    if name == spec_scope_name(EndpointScope::PublishNew) {
        Some(EndpointScope::PublishNew)
    } else if name == spec_scope_name(EndpointScope::PublishUpdate) {
        Some(EndpointScope::PublishUpdate)
    } else if name == spec_scope_name(EndpointScope::Yank) {
        Some(EndpointScope::Yank)
    } else if name == spec_scope_name(EndpointScope::ChangeOwners) {
        Some(EndpointScope::ChangeOwners)
    } else {
        None
    }
}

impl EndpointScope {
    /// The textual name of the scope, as it travels over the wire.
    pub fn name(&self) -> (r: &'static str)
        ensures
            r@ == spec_scope_name(*self),
    {
        match self {
            EndpointScope::PublishNew => "publish-new",
            EndpointScope::PublishUpdate => "publish-update",
            EndpointScope::Yank => "yank",
            EndpointScope::ChangeOwners => "change-owners",
        }
    }

    /// Parses a scope name; any unrecognized name is rejected.
    pub fn try_from(name: &str) -> (r: Result<EndpointScope, String>)
        ensures
            match r {
                Ok(s) => spec_parse_scope(name@) == Some(s),
                Err(e) => spec_parse_scope(name@) is None && e@ == "Unrecognized enum variant"@,
            },
    {
        if str_eq(name, "publish-new") {
            Ok(EndpointScope::PublishNew)
        } else if str_eq(name, "publish-update") {
            Ok(EndpointScope::PublishUpdate)
        } else if str_eq(name, "yank") {
            Ok(EndpointScope::Yank)
        } else if str_eq(name, "change-owners") {
            Ok(EndpointScope::ChangeOwners)
        } else {
            Err("Unrecognized enum variant".to_owned())
        }
    }
}

} // verus!
