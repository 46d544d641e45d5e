//! Labels that a question hands out at random, each at most once.

use vstd::prelude::*;
use crate::formatter::{
    labelled_identifiers, labelled_identifiers_raw, labelled_identifiers_raw_spec,
    labelled_identifiers_spec, labelled_symbols, labelled_symbols_spec,
};
use crate::helper::random_index;

verus! {

/// The list without the item at a place, whose place the last item takes.
pub open spec fn swap_removed(list: Seq<&'static str>, i: int) -> Seq<&'static str> {
    list.update(i, list.last()).drop_last()
}

/// The labels and symbols that are still free.
#[derive(Debug)]
pub struct OnceLabel {
    free_labels: Vec<&'static str>,
    free_raw_labels: Vec<&'static str>,
    free_symbols: Vec<&'static str>,
}

impl OnceLabel {
    /// The bold letters that are still free.
    pub closed spec fn labels(&self) -> Seq<&'static str> {
        self.free_labels@
    }

    /// The plain letters that are still free, in the order of the bold ones.
    pub closed spec fn raw_labels(&self) -> Seq<&'static str> {
        self.free_raw_labels@
    }

    /// The Greek letters that are still free.
    pub closed spec fn symbols(&self) -> Seq<&'static str> {
        self.free_symbols@
    }

    /// Bold and plain letters go in pairs.
    pub open spec fn wf(&self) -> bool {
        self.labels().len() == self.raw_labels().len()
    }

    /// All labels and all symbols, free.
    pub fn new() -> (r: Self)
        ensures
            r.wf(),
            r.labels() == labelled_identifiers_spec(),
            r.raw_labels() == labelled_identifiers_raw_spec(),
            r.symbols() == labelled_symbols_spec(),
    {
        Self {
            free_labels: labelled_identifiers(),
            free_raw_labels: labelled_identifiers_raw(),
            free_symbols: labelled_symbols(),
        }
    }

    /// Takes a random symbol out of the free ones. There has to be one left.
    pub fn next_symbol_raw(&mut self) -> (r: &'static str)
        requires
            0 < old(self).symbols().len() <= i32::MAX,
        ensures
            exists|i: int|
                0 <= i < old(self).symbols().len() && r == old(self).symbols()[i]
                    && final(self).symbols() == swap_removed(old(self).symbols(), i),
            final(self).labels() == old(self).labels(),
            final(self).raw_labels() == old(self).raw_labels(),
    {
        let index = random_index(self.free_symbols.len());
        self.free_symbols.swap_remove(index)
    }

    /// Takes a random pair of a bold letter and its plain letter out of the
    /// free ones. There has to be one left.
    pub fn next_label_raw(&mut self) -> (r: (&'static str, &'static str))
        requires
            old(self).wf(),
            0 < old(self).labels().len() <= i32::MAX,
        ensures
            final(self).wf(),
            exists|i: int|
                0 <= i < old(self).labels().len() && r.0 == old(self).labels()[i]
                    && r.1 == old(self).raw_labels()[i]
                    && final(self).labels() == swap_removed(old(self).labels(), i)
                    && final(self).raw_labels() == swap_removed(old(self).raw_labels(), i),
            final(self).symbols() == old(self).symbols(),
    {
        let index = random_index(self.free_labels.len());
        let label = self.free_labels.swap_remove(index);
        let raw = self.free_raw_labels.swap_remove(index);
        (label, raw)
    }
}

} // verus!
