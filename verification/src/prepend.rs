//! Putting one prefix in front of every text of a list, as for the flags
//! that hand a compiler its include directories.

use vstd::prelude::*;
use vstd::string::StringExecFns;

verus! {

/// The texts `items`, in their order, each with `pre` in front of it.
pub open spec fn prepended(pre: Seq<char>, items: Seq<Seq<char>>) -> Seq<Seq<char>> {
    Seq::new(items.len(), |i: int| pre + items[i])
}

/// A list of `T` whose members can each be given a prefix.
pub trait PrependEach<T> {
    /// The texts of the list, in order.
    spec fn texts(&self) -> Seq<Seq<char>>;

    /// A new list with `pre` in front of every member: as many members, in
    /// the same order. The list itself is left as it is.
    fn prepend_each(&self, pre: &str) -> (prefixed: Vec<String>)
        ensures
            prefixed.deep_view() == prepended(pre@, self.texts()),
    ;
}

impl PrependEach<String> for Vec<String> {
    open spec fn texts(&self) -> Seq<Seq<char>> {
        self.deep_view()
    }

    fn prepend_each(&self, pre: &str) -> (prefixed: Vec<String>)
        ensures
            prefixed@.len() == self@.len(),
            forall|i: int| 0 <= i < self@.len() ==> #[trigger] prefixed@[i]@ == pre@ + self@[i]@,
    {
        let mut prefixed: Vec<String> = Vec::new();
        let mut i: usize = 0;
        while i < self.len()
            invariant
                i <= self.len(),
                prefixed@.len() == i,
                forall|j: int| 0 <= j < i ==> prefixed@[j]@ == pre@ + self@[j]@,
            decreases self.len() - i,
        {
            let mut item = pre.to_owned();
            item.append(self[i].as_str());
            prefixed.push(item);
            i += 1;
        }
        assert(prefixed.deep_view() =~= prepended(pre@, self.deep_view()));
        prefixed
    }
}

} // verus!
