//! The flag vocabulary: a closed set of well-known mailbox flags plus an open
//! `Custom` variant, with an exact, lossless mapping to and from the wire
//! token representation.

use vstd::prelude::*;

verus! {

use vstd::string::StringExecFns;

broadcast use vstd::string::group_string_axioms;

/// Mathematical model of a flag. `Custom` carries the token verbatim.
pub enum FlagModel {
    Seen,
    Answered,
    Flagged,
    Deleted,
    Draft,
    Recent,
    MayCreate,
    Custom(Seq<char>),
}

/// A mailbox flag as exchanged with callers.
#[derive(Debug, Clone, PartialEq, Eq)]
pub enum Flag {
    Seen,
    Answered,
    Flagged,
    Deleted,
    Draft,
    Recent,
    MayCreate,
    Custom(String),
}

impl View for Flag {
    type V = FlagModel;

    open spec fn view(&self) -> FlagModel {
        match self {
            Flag::Seen => FlagModel::Seen,
            Flag::Answered => FlagModel::Answered,
            Flag::Flagged => FlagModel::Flagged,
            Flag::Deleted => FlagModel::Deleted,
            Flag::Draft => FlagModel::Draft,
            Flag::Recent => FlagModel::Recent,
            Flag::MayCreate => FlagModel::MayCreate,
            Flag::Custom(t) => FlagModel::Custom(t@),
        }
    }
}

impl DeepView for Flag {
    type V = FlagModel;

    open spec fn deep_view(&self) -> FlagModel {
        self.view()
    }
}

/// The fixed, case-sensitive wire token of each well-known flag; a custom
/// flag's token is its payload, unchanged.
pub open spec fn spec_to_wire(f: FlagModel) -> Seq<char> {
    match f {
        FlagModel::Seen => "\\Seen"@,
        FlagModel::Answered => "\\Answered"@,
        FlagModel::Flagged => "\\Flagged"@,
        FlagModel::Deleted => "\\Deleted"@,
        FlagModel::Draft => "\\Draft"@,
        FlagModel::Recent => "\\Recent"@,
        FlagModel::MayCreate => "\\*"@,
        FlagModel::Custom(t) => t,
    }
}

/// True of the tokens that name a well-known flag.
pub open spec fn is_reserved_token(t: Seq<char>) -> bool {
    ||| t == "\\Seen"@
    ||| t == "\\Answered"@
    ||| t == "\\Flagged"@
    ||| t == "\\Deleted"@
    ||| t == "\\Draft"@
    ||| t == "\\Recent"@
    ||| t == "\\*"@
}

/// Total parse of a wire token: a reserved token yields its well-known flag,
/// anything else is kept verbatim as `Custom`.
pub open spec fn spec_from_wire(t: Seq<char>) -> FlagModel {
    if t == "\\Seen"@ {
        FlagModel::Seen
    } else if t == "\\Answered"@ {
        FlagModel::Answered
    } else if t == "\\Flagged"@ {
        FlagModel::Flagged
    } else if t == "\\Deleted"@ {
        FlagModel::Deleted
    } else if t == "\\Draft"@ {
        FlagModel::Draft
    } else if t == "\\Recent"@ {
        FlagModel::Recent
    } else if t == "\\*"@ {
        FlagModel::MayCreate
    } else {
        FlagModel::Custom(t)
    }
}

/// Renders a flag as its wire token.
pub fn to_wire(f: &Flag) -> (r: String)
    ensures
        r@ == spec_to_wire(f@),
{
    match f {
        Flag::Seen => String::from_str("\\Seen"),
        Flag::Answered => String::from_str("\\Answered"),
        Flag::Flagged => String::from_str("\\Flagged"),
        Flag::Deleted => String::from_str("\\Deleted"),
        Flag::Draft => String::from_str("\\Draft"),
        Flag::Recent => String::from_str("\\Recent"),
        Flag::MayCreate => String::from_str("\\*"),
        Flag::Custom(t) => t.clone(),
    }
}

/// Parses a wire token into a flag; never fails, unrecognized tokens become
/// `Custom` with the token preserved.
pub fn from_wire(token: &str) -> (r: Flag)
    ensures
        r@ == spec_from_wire(token@),
{
    let t = String::from_str(token);
    if t == String::from_str("\\Seen") {
        Flag::Seen
    } else if t == String::from_str("\\Answered") {
        Flag::Answered
    } else if t == String::from_str("\\Flagged") {
        Flag::Flagged
    } else if t == String::from_str("\\Deleted") {
        Flag::Deleted
    } else if t == String::from_str("\\Draft") {
        Flag::Draft
    } else if t == String::from_str("\\Recent") {
        Flag::Recent
    } else if t == String::from_str("\\*") {
        Flag::MayCreate
    } else {
        Flag::Custom(t)
    }
}

/// The lower-case display label of each well-known flag; a custom flag's label
/// is its token.
pub open spec fn spec_label(f: FlagModel) -> Seq<char> {
    match f {
        FlagModel::Seen => "seen"@,
        FlagModel::Answered => "answered"@,
        FlagModel::Flagged => "flagged"@,
        FlagModel::Deleted => "deleted"@,
        FlagModel::Draft => "draft"@,
        FlagModel::Recent => "recent"@,
        FlagModel::MayCreate => "may_create"@,
        FlagModel::Custom(t) => t,
    }
}

/// Renders a flag as its lower-case display label.
pub fn label(f: &Flag) -> (r: String)
    ensures
        r@ == spec_label(f@),
{
    match f {
        Flag::Seen => String::from_str("seen"),
        Flag::Answered => String::from_str("answered"),
        Flag::Flagged => String::from_str("flagged"),
        Flag::Deleted => String::from_str("deleted"),
        Flag::Draft => String::from_str("draft"),
        Flag::Recent => String::from_str("recent"),
        Flag::MayCreate => String::from_str("may_create"),
        Flag::Custom(t) => t.clone(),
    }
}

/// Law: every well-known flag survives the round trip through its wire token.
pub proof fn lemma_round_trip_well_known(f: FlagModel)
    requires
        !(f is Custom),
    ensures
        spec_from_wire(spec_to_wire(f)) == f,
{
    lemma_reserved_tokens_distinct();
}

/// The seven reserved tokens are pairwise distinct: each has its own length,
/// but for the two of length eight, which differ in their second character.
proof fn lemma_reserved_tokens_distinct()
    ensures
        "\\Seen"@.len() == 5,
        "\\Answered"@.len() == 9,
        "\\Flagged"@.len() == 8,
        "\\Deleted"@.len() == 8,
        "\\Draft"@.len() == 6,
        "\\Recent"@.len() == 7,
        "\\*"@.len() == 2,
        "\\Flagged"@[1] == 'F',
        "\\Deleted"@[1] == 'D',
{
    reveal_strlit("\\Seen");
    reveal_strlit("\\Answered");
    reveal_strlit("\\Flagged");
    reveal_strlit("\\Deleted");
    reveal_strlit("\\Draft");
    reveal_strlit("\\Recent");
    reveal_strlit("\\*");
}

/// Law: a custom flag whose token is not reserved survives the round trip,
/// so no information is lost in either direction.
pub proof fn lemma_round_trip_custom(t: Seq<char>)
    requires
        !is_reserved_token(t),
    ensures
        spec_from_wire(spec_to_wire(FlagModel::Custom(t))) == FlagModel::Custom(t),
{
}

/// Law: parsing a token and rendering the result reproduces the token, for
/// every token whatsoever.
pub proof fn lemma_to_wire_from_wire(t: Seq<char>)
    ensures
        spec_to_wire(spec_from_wire(t)) == t,
{
}

} // verus!
