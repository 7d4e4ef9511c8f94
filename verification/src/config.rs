use vstd::prelude::*;

verus! {

/// Process configuration: the listening port, where the document store
/// lives, and where the card data file sits.  The boundary layer parses
/// the command line into this shape.
#[derive(Debug, Clone)]
pub struct Args {
    pub port: u16,
    pub database_uri: String,
    pub database_name: String,
    pub cards_path: String,
}

} // verus!
