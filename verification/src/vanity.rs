//! The vanity-URL kinds and their wire names.

use vstd::prelude::*;

verus! {

use crate::strutil::str_eq;

/// Marker for the SQL enum type behind [`VanityTypeEnum`].
#[derive(Clone, Copy, Debug)]
pub struct VanityType;

/// What kind of page a vanity URL points at.
#[derive(Clone, Copy, Debug, PartialEq, Eq, Structural)]
pub enum VanityTypeEnum {
    USER,
    BOT,
}

/// The wire name of each vanity kind, as stored in the database column.
pub open spec fn spec_vanity_name(v: VanityTypeEnum) -> Seq<char> {
    match v {
        VanityTypeEnum::USER => "USER"@,
        VanityTypeEnum::BOT => "BOT"@,
    }
}

impl VanityTypeEnum {
    /// The textual name of the kind.
    pub fn name(&self) -> (r: &'static str)
        ensures
            r@ == spec_vanity_name(*self),
    {
        match self {
            VanityTypeEnum::USER => "USER",
            VanityTypeEnum::BOT => "BOT",
        }
    }

    /// Parses a wire name; any unrecognized name is rejected.
    pub fn parse(name: &str) -> (r: Result<VanityTypeEnum, String>)
        ensures
            match r {
                Ok(v) => name@ == spec_vanity_name(v),
                Err(e) => name@ != spec_vanity_name(VanityTypeEnum::USER) && name@
                    != spec_vanity_name(VanityTypeEnum::BOT) && e@
                    == "Unrecognized enum variant"@,
            },
    {
        if str_eq(name, "USER") {
            Ok(VanityTypeEnum::USER)
        } else if str_eq(name, "BOT") {
            Ok(VanityTypeEnum::BOT)
        } else {
            Err("Unrecognized enum variant".to_owned())
        }
    }
}

} // verus!
