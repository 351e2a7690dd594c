//! Which keys or buttons are held, and which were pressed or released during
//! the current tick.

use std::collections::HashSet;
use std::hash::Hash;
use vstd::prelude::*;
use vstd::std_specs::hash::obeys_key_model;

verus! {

broadcast use vstd::std_specs::hash::group_hash_axioms;

/// The state of a set of inputs of one kind.
#[derive(Debug)]
pub struct Input<T> where T: 'static + Send + Sync + Eq + PartialEq + Hash + Clone + Copy {
    pressed: HashSet<T>,
    just_pressed: HashSet<T>,
    released: HashSet<T>,
}

impl<T> Default for Input<T> where T: 'static + Send + Sync + Eq + PartialEq + Hash + Clone + Copy {
    fn default() -> (r: Self)
        ensures
            r.held() == Set::<T>::empty(),
            r.fresh() == Set::<T>::empty(),
            r.let_go() == Set::<T>::empty(),
    {
        Self { pressed: HashSet::new(), just_pressed: HashSet::new(), released: HashSet::new() }
    }
}

impl<T> Input<T> where T: 'static + Send + Sync + Eq + PartialEq + Hash + Clone + Copy {
    /// The inputs that are held.
    pub closed spec fn held(&self) -> Set<T> {
        self.pressed@
    }

    /// The inputs that were pressed during the current tick.
    pub closed spec fn fresh(&self) -> Set<T> {
        self.just_pressed@
    }

    /// The inputs that were released during the current tick.
    pub closed spec fn let_go(&self) -> Set<T> {
        self.released@
    }

    /// A state in which nothing is held, pressed or released.
    pub fn new() -> (r: Self)
        ensures
            r.held() == Set::<T>::empty(),
            r.fresh() == Set::<T>::empty(),
            r.let_go() == Set::<T>::empty(),
    {
        Self { pressed: HashSet::new(), just_pressed: HashSet::new(), released: HashSet::new() }
    }

    /// Records that `input` went down.
    pub fn add_pressed(&mut self, input: T)
        ensures
            obeys_key_model::<T>() ==> {
                &&& final(self).held() == old(self).held().insert(input)
                &&& final(self).fresh() == old(self).fresh().insert(input)
                &&& final(self).let_go() == old(self).let_go()
            },
    {
        self.pressed.insert(input);
        self.just_pressed.insert(input);
    }

    /// Records that `input` went up.
    pub fn remove_pressed(&mut self, input: T)
        ensures
            obeys_key_model::<T>() ==> {
                &&& final(self).held() == old(self).held().remove(input)
                &&& final(self).fresh() == old(self).fresh()
                &&& final(self).let_go() == old(self).let_go().insert(input)
            },
    {
        self.pressed.remove(&input);
        self.released.insert(input);
    }

    /// Records that `input` went down, if `pressed`, or up.
    pub fn record(&mut self, input: T, pressed: bool)
        ensures
            obeys_key_model::<T>() ==> {
                &&& final(self).held() == if pressed {
                    old(self).held().insert(input)
                } else {
                    old(self).held().remove(input)
                }
                &&& final(self).fresh() == if pressed {
                    old(self).fresh().insert(input)
                } else {
                    old(self).fresh()
                }
                &&& final(self).let_go() == if pressed {
                    old(self).let_go()
                } else {
                    old(self).let_go().insert(input)
                }
            },
    {
        if pressed {
            self.add_pressed(input);
        } else {
            self.remove_pressed(input);
        }
    }

    /// Ends a tick: what is held stays, and nothing counts as pressed or
    /// released during the tick any more.
    pub fn reset(&mut self)
        ensures
            final(self).held() == old(self).held(),
            final(self).fresh() == Set::<T>::empty(),
            final(self).let_go() == Set::<T>::empty(),
    {
        self.just_pressed.clear();
        self.released.clear();
    }

    /// Whether `input` is held.
    #[inline]
    pub fn pressed(&self, input: T) -> (r: bool)
        ensures
            obeys_key_model::<T>() ==> r == self.held().contains(input),
    {
        self.pressed.contains(&input)
    }

    /// Whether `input` was pressed during the current tick.
    #[inline]
    pub fn just_pressed(&self, input: T) -> (r: bool)
        ensures
            obeys_key_model::<T>() ==> r == self.fresh().contains(input),
    {
        self.just_pressed.contains(&input)
    }

    /// Whether `input` was released during the current tick.
    #[inline]
    pub fn _released(&self, input: T) -> (r: bool)
        ensures
            obeys_key_model::<T>() ==> r == self.let_go().contains(input),
    {
        self.released.contains(&input)
    }
}

} // verus!
