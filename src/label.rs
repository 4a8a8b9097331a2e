use vstd::prelude::*;

verus! {

/// The label shown before any update arrives.
pub const INITIAL_LABEL: &'static str = "Radiolite";

/// The label held after `title` is written over `current`: a write replaces
/// the whole value.
pub open spec fn label_after_update(current: Seq<char>, title: Seq<char>) -> Seq<char> {
    title
}

/// The current station label. Callers that share it between threads keep it
/// behind a lock; every access is then one short critical section.
pub struct LabelStore {
    value: String,
}

impl View for LabelStore {
    type V = Seq<char>;

    closed spec fn view(&self) -> Seq<char> {
        self.value@
    }
}

impl LabelStore {
    /// A store holding the initial label.
    pub fn new() -> (r: LabelStore)
        ensures
            r@ == INITIAL_LABEL@,
    {
        LabelStore { value: String::from_str(INITIAL_LABEL) }
    }

    /// The label currently held.
    pub fn get(&self) -> (r: String)
        ensures
            r@ == self@,
    {
        self.value.clone()
    }

    /// Replaces the label with `title`.
    pub fn set(&mut self, title: String)
        ensures
            final(self)@ == label_after_update(old(self)@, title@),
    {
        self.value = title;
    }
}

/// A read that follows a write returns exactly the value written.
pub proof fn lemma_update_then_read(current: Seq<char>, title: Seq<char>)
    ensures
        label_after_update(current, title) == title,
{
}

/// Of two writes that complete one after the other, the store keeps the
/// second value whole, whatever it held before.
pub proof fn lemma_last_update_wins(current: Seq<char>, a: Seq<char>, b: Seq<char>)
    ensures
        label_after_update(label_after_update(current, a), b) == b,
{
}

} // verus!
