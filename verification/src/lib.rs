//! A single-value storage cell that hands out borrow-backed access tokens.
//!
//! An [`OfferCell`] owns at most one value. Instead of making callers test
//! occupancy before every access, the cell issues short-lived tokens that
//! carry the occupancy proof in their type: an [`Offering`] witnesses a
//! present value and supports reading, mutating and taking it, while an
//! [`EmptyOffering`] witnesses an absent value and supports inserting one.
//! [`OfferEntry`] is the one-shot dispatch over the two token kinds.

use vstd::prelude::*;

verus! {

/// An ownership offering that comes from an [`OfferCell`].
///
/// The token exclusively borrows the cell's storage for its whole lifetime,
/// and that storage is occupied at every point while the token lives: the
/// constructing code paths have just observed or just written a value, and
/// no operation empties the storage without also consuming the token.
pub struct Offering<'a, T> {
    item: &'a mut Option<T>,
}

impl<'a, T> Offering<'a, T> {
    /// The borrowed storage location inside the source cell, as a spec value.
    pub closed spec fn backing(self) -> &'a mut Option<T> {
        self.item
    }

    /// What the backing storage currently holds.
    pub open spec fn contents(self) -> Option<T> {
        *self.backing()
    }

    /// The occupancy invariant: the backing storage holds a value.
    pub open spec fn wf(self) -> bool {
        self.contents() is Some
    }

    /// The value currently behind the token.
    pub open spec fn value(self) -> T
        recommends
            self.wf(),
    {
        self.contents().unwrap()
    }

    /// Consumes the offering, and takes ownership of the data.
    ///
    /// The backing storage is left empty once the token is gone.
    pub fn take(self) -> (item: T)
        requires
            self.wf(),
        ensures
            item == self.value(),
            *final(self.backing()) is None,
    {
        self.item.take().unwrap()
    }

    /// Returns a reference to the offered value.
    pub fn get(&self) -> (item: &T)
        requires
            self.wf(),
        ensures
            *item == self.value(),
    {
        self.item.as_ref().unwrap()
    }

    /// Returns a mutable reference to the offered value.
    ///
    /// Writing through the returned reference changes the value behind the
    /// token; the backing storage stays occupied.
    pub fn get_mut(&mut self) -> (item: &mut T)
        requires
            old(self).wf(),
        ensures
            *item == old(self).value(),
            final(self).wf(),
            final(self).value() == *final(item),
            *final(final(self).backing()) == *final(old(self).backing()),
    {
        self.item.as_mut().unwrap()
    }
}

/// A live [`Offering`] that will not be accessed again leaves its backing
/// storage holding exactly the value last seen through it: dropping the token
/// without `take` keeps the cell occupied, mutations included.
pub proof fn lemma_resolved_offering<'a, T>(offering: Offering<'a, T>)
    requires
        has_resolved(offering),
    ensures
        *final(offering.backing()) == offering.contents(),
{
}

/// Represents an empty offering from an [`OfferCell`].
///
/// The token exclusively borrows the cell's storage for its whole lifetime,
/// and that storage is empty at every point while the token lives; its one
/// operation writes a value and turns the token into an [`Offering`].
pub struct EmptyOffering<'a, T> {
    item: &'a mut Option<T>,
}

impl<'a, T> EmptyOffering<'a, T> {
    /// The borrowed storage location inside the source cell, as a spec value.
    pub closed spec fn backing(self) -> &'a mut Option<T> {
        self.item
    }

    /// What the backing storage currently holds.
    pub open spec fn contents(self) -> Option<T> {
        *self.backing()
    }

    /// The vacancy invariant: the backing storage holds no value.
    pub open spec fn wf(self) -> bool {
        self.contents() is None
    }

    /// Consumes the empty offering, inserting `item` into the source
    /// [`OfferCell`], and returns an [`Offering`] over it.
    pub fn insert(self, item: T) -> (offering: Offering<'a, T>)
        ensures
            offering.wf(),
            offering.value() == item,
            *final(self.backing()) == *final(offering.backing()),
    {
        *self.item = Some(item);
        Offering { item: self.item }
    }
}

/// A live [`EmptyOffering`] that will not be accessed again leaves its
/// backing storage exactly as it stands: dropping the token without `insert`
/// keeps the cell empty.
pub proof fn lemma_resolved_empty_offering<'a, T>(empty: EmptyOffering<'a, T>)
    requires
        has_resolved(empty),
    ensures
        *final(empty.backing()) == empty.contents(),
{
}

/// Round trip: a token witnessing a just-written value hands exactly that
/// value back through `take`, and the source cell is empty afterwards. The
/// hypotheses are the contracts of `insert_offer` and `take`; the cell's
/// state after the call chain is whatever the token's backing resolves to.
pub proof fn lemma_issue_take_round_trip<'a, T>(
    offering: Offering<'a, T>,
    cell_after: Option<T>,
    v: T,
    taken: T,
)
    requires
        offering.wf(),
        offering.value() == v,
        cell_after == *final(offering.backing()),
        taken == offering.value(),
        *final(offering.backing()) is None,
    ensures
        taken == v,
        cell_after is None,
{
}

/// Dispatching to the vacant case and inserting a value leaves the cell
/// occupied with exactly that value: once the token returned by `insert` is
/// done, the backing storage it shares with the original empty offering
/// resolves to the inserted value.
pub proof fn lemma_vacant_insert_fills_cell<'a, T>(
    empty: EmptyOffering<'a, T>,
    offering: Offering<'a, T>,
    cell_after: Option<T>,
    v: T,
)
    requires
        offering.wf(),
        offering.value() == v,
        *final(empty.backing()) == *final(offering.backing()),
        cell_after == *final(empty.backing()),
        has_resolved(offering),
    ensures
        cell_after == Some(v),
{
    lemma_resolved_offering(offering);
}

/// A cell built around a value is immediately occupied, and the value seen
/// through every non-consuming access is exactly the one stored: the
/// contents are the single source of truth for occupancy.
pub proof fn lemma_occupied_cell_reads_back<T>(cell: OfferCell<T>, v: T)
    requires
        cell.contents() == Some(v),
    ensures
        !(cell.contents() is None),
        cell.contents().unwrap() == v,
{
}

/// A view into the offering of an [`OfferCell`].
///
/// This `enum` is constructed from the [`entry`](OfferCell::entry) method on
/// [`OfferCell`]: one inspection dispatches to exactly one of the two token
/// kinds, so callers branch once instead of re-testing occupancy.
pub enum OfferEntry<'a, T> {
    Occupied(Offering<'a, T>),
    Vacant(EmptyOffering<'a, T>),
}

/// An [`OfferEntry`] that will not be accessed again leaves the cell's
/// storage holding whatever its token last saw, whichever case it carries:
/// an unused view changes nothing.
pub proof fn lemma_resolved_entry<'a, T>(entry: OfferEntry<'a, T>)
    requires
        has_resolved(entry),
    ensures
        match entry {
            OfferEntry::Occupied(o) => *final(o.backing()) == o.contents(),
            OfferEntry::Vacant(v) => *final(v.backing()) == v.contents(),
        },
{
}

/// A data container that can offer optional ownership of its stored information.
///
/// The cell's one piece of state is its optional contents; occupancy is
/// tracked nowhere else.
pub struct OfferCell<T> {
    item: Option<T>,
}

impl<T> OfferCell<T> {
    /// The cell's contents as a mathematical value: `Some(v)` when occupied, `None` when empty.
    pub closed spec fn contents(self) -> Option<T> {
        self.item
    }

    /// Returns an empty cell.
    pub fn empty() -> (cell: Self)
        ensures
            cell.contents() is None,
    {
        Self { item: None }
    }

    /// Returns a new cell that stores `item`.
    pub fn new(item: T) -> (cell: Self)
        ensures
            cell.contents() == Some(item),
    {
        Self { item: Some(item) }
    }

    /// Returns true if the cell is empty.
    pub fn is_empty(&self) -> (empty: bool)
        ensures
            empty == (self.contents() is None),
    {
        self.item.is_none()
    }

    /// Returns a reference to the stored item.
    pub fn item(&self) -> (item: Option<&T>)
        ensures
            match item {
                Some(r) => self.contents() == Some(*r),
                None => self.contents() is None,
            },
    {
        self.item.as_ref()
    }

    /// Returns a mutable reference to the stored item.
    pub fn item_mut(&mut self) -> (item: Option<&mut T>)
        ensures
            match item {
                Some(r) => {
                    &&& old(self).contents() == Some(*r)
                    &&& final(self).contents() == Some(*final(r))
                },
                None => {
                    &&& old(self).contents() is None
                    &&& final(self).contents() is None
                },
            },
    {
        self.item.as_mut()
    }

    /// Returns the stored data leaving nothing in its place.
    pub fn take(&mut self) -> (item: Option<T>)
        ensures
            item == old(self).contents(),
            final(self).contents() is None,
    {
        self.item.take()
    }

    /// Offers optional ownership of the stored data as an [`Offering`] item.
    ///
    /// A token comes back exactly when the cell is occupied; on an empty
    /// cell nothing comes back and the cell stays empty.
    pub fn offer(&mut self) -> (offering: Option<Offering<T>>)
        ensures
            match offering {
                Some(o) => {
                    &&& old(self).contents() is Some
                    &&& o.wf()
                    &&& o.value() == old(self).contents().unwrap()
                    &&& final(self).contents() == *final(o.backing())
                },
                None => {
                    &&& old(self).contents() is None
                    &&& final(self).contents() is None
                },
            },
    {
        if self.item.is_none() {
            return None;
        }

        Some(Offering { item: &mut self.item })
    }

    /// Inserts `item` into the cell and returns the item as an offering.
    ///
    /// Any value the cell held before is overwritten and dropped silently.
    pub fn insert_offer(&mut self, item: T) -> (offering: Offering<T>)
        ensures
            offering.wf(),
            offering.value() == item,
            final(self).contents() == *final(offering.backing()),
    {
        self.item = Some(item);
        Offering {
            item: &mut self.item,
        }
    }

    /// Inserts data if there is none currently, then returns the stored data.
    ///
    /// The producer runs only when the cell was empty, and then its result is
    /// the value behind the returned token; an occupied cell keeps its value.
    pub fn offer_or_insert<F: FnOnce() -> T>(&mut self, insert: F) -> (offering: Offering<T>)
        requires
            old(self).contents() is None ==> insert.requires(()),
        ensures
            offering.wf(),
            match old(self).contents() {
                Some(v) => offering.value() == v,
                None => insert.ensures((), offering.value()),
            },
            final(self).contents() == *final(offering.backing()),
    {
        if self.item.is_none() {
            self.item = Some(insert());
        }

        Offering {
            item: &mut self.item,
        }
    }

    /// Returns an [`Offering`] if there is one.
    /// Otherwise returns an [`EmptyOffering`].
    pub fn entry(&mut self) -> (entry: OfferEntry<T>)
        ensures
            match entry {
                OfferEntry::Occupied(o) => {
                    &&& old(self).contents() is Some
                    &&& o.wf()
                    &&& o.value() == old(self).contents().unwrap()
                    &&& final(self).contents() == *final(o.backing())
                },
                OfferEntry::Vacant(v) => {
                    &&& old(self).contents() is None
                    &&& v.wf()
                    &&& final(self).contents() == *final(v.backing())
                },
            },
    {
        match self.item.is_some() {
            true => OfferEntry::Occupied(Offering {
                item: &mut self.item,
            }),
            false => OfferEntry::Vacant(EmptyOffering {
                item: &mut self.item,
            }),
        }
    }
}

impl<T> Default for OfferCell<T> {
    /// Returns an empty cell.
    fn default() -> (cell: Self)
        ensures
            cell.contents() is None,
    {
        Self::empty()
    }
}

} // verus!
