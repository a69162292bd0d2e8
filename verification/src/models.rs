//! The conversion that every kind of record offers.

use crate::raw::epoch_seconds;
use k8s_openapi::apimachinery::pkg::apis::meta::v1::Time;
use vstd::prelude::*;

verus! {

/// A display record made from one raw object of type `T`.
///
/// A record is a function of the raw object and of the instant at which it
/// is looked at: `converted` says which. It keeps the raw object, so that a
/// caller can describe or edit the object without fetching it again.
pub trait KubeResource<T>: View + Sized {
    /// The record that `item` converts to when the reference instant lies
    /// `now` seconds after the Unix epoch.
    spec fn converted(item: T, now: int) -> Self::V;

    /// The raw object that a record holds.
    spec fn retained(&self) -> T;

    /// Whether the fields of a record are those of its raw object: what
    /// conversion of that object gives at some reference instant.
    open spec fn well_formed(&self) -> bool {
        exists|now: int| self@ == #[trigger] Self::converted(self.retained(), now)
    }

    /// Converts `item`, taking `now` as the reference instant for its age.
    fn from_api_at(item: &T, now: &Time) -> (res: Self)
        ensures
            res@ == Self::converted(*item, epoch_seconds(*now)),
            res.retained() == *item,
            res.well_formed(),
    ;

    /// Converts `item`, taking the reading of the wall clock as the
    /// reference instant for its age. Which instant that is cannot be said
    /// beforehand; the record is what `from_api_at` gives at that instant.
    fn from_api(item: &T) -> (res: Self)
        ensures
            exists|now: int| res@ == #[trigger] Self::converted(*item, now),
            res.retained() == *item,
            res.well_formed(),
    ;

    /// The raw object that the record was made from.
    fn get_k8s_obj(&self) -> (res: &T)
        ensures
            *res == self.retained(),
    ;
}

/// Converts each object of `items`, in order, taking `now` as the reference
/// instant for every age.
pub fn convert_all_at<T, K: KubeResource<T>>(items: &Vec<T>, now: &Time) -> (res: Vec<K>)
    ensures
        res@.len() == items@.len(),
        forall|i: int|
            0 <= i < items@.len() ==> {
                &&& (#[trigger] res@[i])@ == K::converted(items@[i], epoch_seconds(*now))
                &&& res@[i].retained() == items@[i]
                &&& res@[i].well_formed()
            },
{
    let mut res: Vec<K> = Vec::new();
    let mut done: usize = 0;
    while done < items.len()
        invariant
            done <= items@.len(),
            res@.len() == done,
            forall|i: int|
                0 <= i < done ==> {
                    &&& (#[trigger] res@[i])@ == K::converted(items@[i], epoch_seconds(*now))
                    &&& res@[i].retained() == items@[i]
                    &&& res@[i].well_formed()
                },
        decreases items@.len() - done,
    {
        res.push(K::from_api_at(&items[done], now));
        done = done + 1;
    }
    res
}

/// Conversion is a function of the raw object and the reference instant:
/// two records made from the same object at the same instant hold the same
/// fields, the age among them, and the same raw object.
pub proof fn lemma_conversion_deterministic<T, K: KubeResource<T>>(
    first: K,
    second: K,
    item: T,
    now: int,
)
    requires
        first@ == K::converted(item, now),
        second@ == K::converted(item, now),
    ensures
        first@ == second@,
{
}

} // verus!
