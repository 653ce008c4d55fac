//! The registry of custom components, keyed by tag name.
//!
//! The transform only decides *whether* a tag name is intercepted and what
//! props the component receives; the host rendering layer keeps the render
//! functions themselves and invokes them on the produced
//! [`crate::view::ComponentCall`] nodes. The registry is therefore the set of
//! registered names: built before a transform begins, read-only during it.
//! Registering a name again is allowed and leaves the set unchanged (the
//! host layer's last render function for the name wins).

use vstd::prelude::*;

verus! {

use crate::text::str_eq;

/// A collection of custom component registrations: the set of tag names that
/// a transform intercepts. Lookup is by exact, case-sensitive match.
#[derive(Debug)]
pub struct Components {
    names: Vec<String>,
}

impl View for Components {
    type V = Set<Seq<char>>;

    closed spec fn view(&self) -> Set<Seq<char>> {
        Set::new(
            |n: Seq<char>|
                exists|i: int| 0 <= i < self.names@.len() && #[trigger] self.names@[i]@ == n,
        )
    }
}

impl Components {
    /// An empty registry: no tag name is intercepted.
    pub fn new() -> (r: Self)
        ensures
            r@ == Set::<Seq<char>>::empty(),
    {
        let r = Components { names: Vec::new() };
        proof {
            assert(r@ =~= Set::<Seq<char>>::empty());
        }
        r
    }

    /// Registers a custom component under `name`.
    pub fn add(&mut self, name: String)
        ensures
            final(self)@ == old(self)@.insert(name@),
    {
        self.names.push(name);
        proof {
            let s = self.names@;
            assert forall|n: Seq<char>| self@.contains(n) implies old(self)@.insert(
                name@,
            ).contains(n) by {
                let i = choose|i: int| 0 <= i < s.len() && #[trigger] s[i]@ == n;
                if i < s.len() - 1 {
                    assert(old(self).names@[i]@ == n);
                }
            }
            assert forall|n: Seq<char>| old(self)@.insert(name@).contains(n)
                implies self@.contains(n) by {
                if n == name@ {
                    assert(s[s.len() - 1]@ == n);
                } else {
                    let i = choose|i: int|
                        0 <= i < old(self).names@.len() && #[trigger] old(self).names@[i]@ == n;
                    assert(s[i]@ == n);
                }
            }
            assert(self@ =~= old(self)@.insert(name@));
        }
    }

    /// Whether a custom component is registered under `name`.
    pub fn is_registered(&self, name: &str) -> (r: bool)
        ensures
            r == self@.contains(name@),
    {
        let mut i: usize = 0;
        while i < self.names.len()
            invariant
                0 <= i <= self.names@.len(),
                forall|j: int| 0 <= j < i ==> #[trigger] self.names@[j]@ != name@,
            decreases self.names@.len() - i,
        {
            if str_eq(self.names[i].as_str(), name) {
                return true;
            }
            i = i + 1;
        }
        false
    }
}

} // verus!
