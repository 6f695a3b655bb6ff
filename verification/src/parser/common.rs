//! What every command of the second generation offers.
use vstd::prelude::*;

use crate::redisql_error::RediSQLError;

verus! {

/// The arguments of a command, as character sequences.
pub open spec fn args_view(args: Seq<&str>) -> Seq<Seq<char>> {
    args.map_values(|a: &str| a@)
}

/// The view of an optional argument.
pub open spec fn opt_view(o: Option<&str>) -> Option<Seq<char>> {
    match o {
        Some(s) => Some(s@),
        None => None,
    }
}

pub proof fn lemma_args_view_push(a: Seq<&str>, x: &str)
    ensures
        args_view(a.push(x)) == args_view(a).push(x@),
{
    assert(args_view(a.push(x)) =~= args_view(a).push(x@));
}

/// A command of the second generation: parsed from the arguments that Redis
/// hands over (the first is the command's own name, the second the name of
/// the database key).
pub trait CommandV2<'s>: Sized {
    fn parse(args: Vec<&'s str>) -> Result<Self, RediSQLError>;

    fn database(&self) -> &str;
}

} // verus!
