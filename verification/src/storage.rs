//! Which stored records are taken.

use vstd::prelude::*;
use crate::text::{cat4, decimal, decimal_text};

verus! {

/// The version of the records that are written.
pub const WOLF_SCHEMA_VERSION: u32 = 1;

/// How a stored record is read.
#[derive(Debug, Clone, Copy, PartialEq, Eq, Structural)]
pub enum Reading {
    /// The game in the envelope is taken.
    Envelope,
    /// The record is read as a bare game.
    Bare,
    /// The envelope has no game.
    Missing,
    /// The record was written by a later version.
    Newer(u32),
}

/// How a record is read. `envelope` tells, if the record is an envelope, which version it
/// names, if any, and whether it holds a game.
pub open spec fn reading_of(envelope: Option<(Option<u32>, bool)>) -> Reading {
    match envelope {
        Some((Some(v), has_data)) => if !has_data {
            Reading::Missing
        } else if v > WOLF_SCHEMA_VERSION {
            Reading::Newer(v)
        } else {
            Reading::Envelope
        },
        _ => Reading::Bare,
    }
}

/// How a record is read.
pub fn decode(envelope: Option<(Option<u32>, bool)>) -> (r: Reading)
    ensures
        r == reading_of(envelope),
{
    match envelope {
        Some((Some(v), has_data)) => if !has_data {
            Reading::Missing
        } else if v > WOLF_SCHEMA_VERSION {
            Reading::Newer(v)
        } else {
            Reading::Envelope
        },
        _ => Reading::Bare,
    }
}

/// A record of this version or an earlier one is taken, so what was written is read.
pub proof fn law_written_records_are_read(v: u32)
    requires
        v <= WOLF_SCHEMA_VERSION,
    ensures
        reading_of(Some((Some(v), true))) == Reading::Envelope,
{
}

impl Reading {
    /// Why the record is refused.
    pub open spec fn refusal(self) -> Option<Seq<char>> {
        match self {
            Reading::Missing => Some("werewolf envelope missing data"@),
            Reading::Newer(v) => Some(
                "werewolf schema v"@ + decimal_text(v as nat) + " is newer than this binary's v"@
                    + decimal_text(WOLF_SCHEMA_VERSION as nat),
            ),
            _ => None,
        }
    }

    /// Why the record is refused.
    pub fn refused(self) -> (r: Option<String>)
        ensures
            r.deep_view() == self.refusal(),
    {
        match self {
            Reading::Missing => Some("werewolf envelope missing data".to_owned()),
            Reading::Newer(v) => {
                let s = cat4(
                    "werewolf schema v",
                    decimal(v as u64).as_str(),
                    " is newer than this binary's v",
                    decimal(WOLF_SCHEMA_VERSION as u64).as_str(),
                );
                Some(s)
            },
            _ => None,
        }
    }
}

} // verus!
