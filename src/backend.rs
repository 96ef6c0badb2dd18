//! A drawing surface that needs no screen.

use vstd::prelude::*;

use crate::traits::DrawContext;

verus! {

/// A surface that keeps what is drawn on it as a list of texts, for hosts
/// without a screen.
pub struct DisplayList {
    texts: Vec<String>,
}

impl DisplayList {
    pub fn new() -> (r: DisplayList)
        ensures
            r.drawn() == Seq::<Seq<char>>::empty(),
    {
        let r = DisplayList { texts: Vec::new() };
        assert(r.drawn() =~= Seq::<Seq<char>>::empty());
        r
    }

    /// The texts drawn since the last clear, in order.
    pub fn texts(&self) -> (r: &Vec<String>)
        ensures
            r@.map_values(|s: String| s@) == self.drawn(),
    {
        &self.texts
    }
}

impl DrawContext for DisplayList {
    closed spec fn drawn(&self) -> Seq<Seq<char>> {
        self.texts@.map_values(|s: String| s@)
    }

    fn clear(&mut self) {
        self.texts.clear();
        assert(self.drawn() =~= Seq::<Seq<char>>::empty());
    }

    fn draw_text(&mut self, text: &str) {
        self.texts.push(text.to_owned());
        assert(self.drawn() =~= old(self).drawn().push(text@));
    }
}

} // verus!
