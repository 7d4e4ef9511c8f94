use vstd::prelude::*;

verus! {

/// A deck of cards served as static data.  The core never inspects deck
/// contents; the boundary layer loads decks from a file and serves them
/// as-is.
#[derive(Debug, Clone)]
pub struct CardSet {
    pub name: String,
    pub description: Option<String>,
    pub official: bool,
    pub white: Vec<WhiteCard>,
    pub black: Vec<BlackCard>,
}

/// An answer card.
#[derive(Debug, Clone)]
pub struct WhiteCard {
    pub text: String,
    pub pack: usize,
}

/// A prompt card, asking for `pick` answers.
#[derive(Debug, Clone)]
pub struct BlackCard {
    pub text: String,
    pub pick: u32,
    pub pack: usize,
}

} // verus!
