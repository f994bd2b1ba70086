//! Rendering of protocol command arguments: the uid-set expression of a store
//! command, its flag-mutation query, and the fixed fetch expressions.

use vstd::prelude::*;

verus! {

use vstd::string::StringExecFns;
use crate::decimal::dec_rep;
use crate::decimal::u32_to_dec;
use crate::flag::Flag;
use crate::flag::FlagModel;
use crate::flag::spec_to_wire;
use crate::flag::to_wire;

broadcast use vstd::string::group_string_axioms;

/// The uid-set expression: the decimal uids, in order, joined by commas.
pub open spec fn spec_uid_set(uids: Seq<u32>) -> Seq<char>
    decreases uids.len(),
{
    if uids.len() == 0 {
        Seq::empty()
    } else if uids.len() == 1 {
        dec_rep(uids[0] as nat)
    } else {
        spec_uid_set(uids.drop_last()) + ","@ + dec_rep(uids.last() as nat)
    }
}

/// Renders the uid-set expression addressing exactly the given uids.
pub fn uid_set(uids: &Vec<u32>) -> (s: String)
    ensures
        s@ == spec_uid_set(uids@),
{
    let mut s = String::new();
    let mut i: usize = 0;
    while i < uids.len()
        invariant
            i <= uids@.len(),
            s@ == spec_uid_set(uids@.take(i as int)),
        decreases uids@.len() - i,
    {
        if i > 0 {
            s.append(",");
        }
        let d = u32_to_dec(uids[i]);
        s.append(d.as_str());
        proof {
            assert(uids@.take(i + 1).drop_last() =~= uids@.take(i as int));
        }
        i = i + 1;
    }
    proof {
        assert(uids@.take(uids@.len() as int) =~= uids@);
    }
    s
}

/// The flag-list expression: the wire tokens, in order, joined by single
/// spaces.
pub open spec fn spec_flag_list(flags: Seq<FlagModel>) -> Seq<char>
    decreases flags.len(),
{
    if flags.len() == 0 {
        Seq::empty()
    } else if flags.len() == 1 {
        spec_to_wire(flags[0])
    } else {
        spec_flag_list(flags.drop_last()) + " "@ + spec_to_wire(flags.last())
    }
}

/// Renders the flag-list expression for the given flags.
pub fn flag_list(flags: &Vec<Flag>) -> (s: String)
    ensures
        s@ == spec_flag_list(flags.deep_view()),
{
    let mut s = String::new();
    let mut i: usize = 0;
    while i < flags.len()
        invariant
            i <= flags@.len(),
            s@ == spec_flag_list(flags.deep_view().take(i as int)),
        decreases flags@.len() - i,
    {
        if i > 0 {
            s.append(" ");
        }
        let t = to_wire(&flags[i]);
        s.append(t.as_str());
        proof {
            assert(flags.deep_view().take(i + 1).drop_last() =~= flags.deep_view().take(
                i as int,
            ));
        }
        i = i + 1;
    }
    proof {
        assert(flags.deep_view().take(flags.deep_view().len() as int) =~= flags.deep_view());
    }
    s
}

/// The flag-mutation query of a store command. The query replaces the flag
/// set of every addressed message with exactly the listed flags; it does not
/// add to it.
pub open spec fn spec_store_query(flags: Seq<FlagModel>) -> Seq<char> {
    "FLAGS ("@ + spec_flag_list(flags) + ")"@
}

/// Renders the flag-mutation query for the given flags.
pub fn store_query(flags: &Vec<Flag>) -> (s: String)
    ensures
        s@ == spec_store_query(flags.deep_view()),
{
    let mut s = String::from_str("FLAGS (");
    let fl = flag_list(flags);
    s.append(fl.as_str());
    s.append(")");
    s
}

/// The sequence-range expression naming every message in the mailbox.
pub fn fetch_range() -> (s: &'static str)
    ensures
        s@ == "1:*"@,
{
    "1:*"
}

/// The field query of a fetch: body text, uid, size and the flag list of each
/// message.
pub fn fetch_query() -> (s: &'static str)
    ensures
        s@ == "(RFC822 UID RFC822.SIZE RFC822.TEXT FLAGS)"@,
{
    "(RFC822 UID RFC822.SIZE RFC822.TEXT FLAGS)"
}

} // verus!
