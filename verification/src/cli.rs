//! The command line: the program's name and one path.

use vstd::prelude::*;
use crate::error::{failed, ViewerError};

verus! {

/// The path of the file to show, from the arguments as the process got them,
/// the program's name first. Exactly one argument must follow the name: with
/// none, or with two or more, the program is being misused.
pub fn parse_args(args: &Vec<String>) -> (res: Result<String, ViewerError>)
    ensures
        args.len() == 2 ==> (res matches Ok(path) && path@ == args[1]@),
        args.len() != 2 ==> failed(res, ViewerError::Usage),
{
    if args.len() != 2 {
        return Err(ViewerError::Usage);
    }
    Ok(args[1].clone())
}

} // verus!
