use vstd::prelude::*;

verus! {

/// What becomes of the frontend's answer to the question for its system
/// directory: the directory where the frontend answered and named one,
/// nothing where it did not answer or named none.
pub open spec fn system_directory(answered: bool, directory: Option<Seq<char>>) -> Option<
    Seq<char>,
> {
    if answered {
        directory
    } else {
        None
    }
}

/// The frontend's system directory, from its answer to the question for it.
/// A frontend that does not answer has no such directory to offer.
pub fn get_system_directory(answered: bool, directory: Option<&str>) -> (path: Option<String>)
    ensures
        system_directory(
            answered,
            match directory {
                Some(directory) => Some(directory@),
                None => None,
            },
        ) == (match path {
            Some(path) => Some(path@),
            None => None,
        }),
{
    if !answered {
        return None;
    }
    match directory {
        Some(directory) => Some(directory.to_owned()),
        None => None,
    }
}

} // verus!
