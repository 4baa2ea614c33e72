//! The monitored addresses, in their fixed order, each with what is known
//! of its server.

use vstd::prelude::*;
use crate::server::{
    applied, fresh_entry, outcome_view, FetchError, ServerState, ServerStateView, ServerStatus,
    StatusView,
};

verus! {

/// Why the registry could not do what was asked.
#[derive(Clone, Copy, Debug, PartialEq, Eq, Structural)]
pub enum RegistryError {
    /// The registry has no entry at that position.
    IndexOutOfRange,
}

/// One entry for each monitored address, in the order in which the
/// addresses were given. Entries are never added or removed.
#[derive(Debug)]
pub struct Registry {
    entries: Vec<ServerState>,
}

/// The entries as plain values.
pub open spec fn entry_views(entries: Seq<ServerState>) -> Seq<ServerStateView> {
    entries.map_values(|entry: ServerState| entry@)
}

/// A fresh entry for each address, in the order of the addresses.
pub open spec fn fresh_entries(addresses: Seq<String>) -> Seq<ServerStateView> {
    addresses.map_values(|address: String| fresh_entry(address@))
}

/// The entries after the outcome of an update of the entry at `index`: that
/// entry takes the outcome in, every other entry stays as it is. Where
/// there is no such entry, nothing changes.
pub open spec fn updated(
    entries: Seq<ServerStateView>,
    index: int,
    outcome: Result<StatusView, FetchError>,
) -> Seq<ServerStateView> {
    if 0 <= index < entries.len() {
        entries.update(index, applied(entries[index], outcome))
    } else {
        entries
    }
}

impl View for Registry {
    type V = Seq<ServerStateView>;

    open spec fn view(&self) -> Seq<ServerStateView> {
        entry_views(self.entries())
    }
}

impl Registry {
    /// The entries themselves, in their order.
    pub closed spec fn entries(&self) -> Seq<ServerState> {
        self.entries@
    }

    /// A registry with a fresh entry for each address, in the given order.
    pub fn new(addresses: &Vec<String>) -> (r: Self)
        ensures
            r@ == fresh_entries(addresses@),
            r@.len() == addresses@.len(),
    {
        let mut entries: Vec<ServerState> = Vec::new();
        let mut i: usize = 0;
        while i < addresses.len()
            invariant
                i <= addresses.len(),
                entries@.len() == i,
                forall|k: int| 0 <= k < i ==> (#[trigger] entries@[k])@ == fresh_entry(addresses@[k]@),
            decreases addresses.len() - i,
        {
            entries.push(ServerState::new(addresses[i].as_str()));
            i += 1;
        }
        assert(entry_views(entries@) =~= fresh_entries(addresses@));
        Registry { entries }
    }

    /// How many addresses are monitored.
    pub fn len(&self) -> (n: usize)
        ensures
            n == self@.len(),
            n == self.entries().len(),
    {
        self.entries.len()
    }

    /// The entry at `index`, counted from 0 in the order of the addresses.
    pub fn get(&self, index: usize) -> (r: Result<&ServerState, RegistryError>)
        ensures
            match r {
                Ok(entry) => index < self@.len() && *entry == self.entries()[index as int]
                    && entry@ == self@[index as int],
                Err(e) => index >= self@.len() && e == RegistryError::IndexOutOfRange,
            },
    {
        if index < self.entries.len() {
            Ok(&self.entries[index])
        } else {
            Err(RegistryError::IndexOutOfRange)
        }
    }

    /// Takes the outcome of an update into the entry at `index`, as
    /// `ServerState::apply` does, and touches no other entry. Where there is
    /// no such entry, the registry stays as it is.
    pub fn update(&mut self, index: usize, outcome: Result<ServerStatus, FetchError>) -> (r: Result<
        (),
        RegistryError,
    >)
        ensures
            final(self)@ == updated(old(self)@, index as int, outcome_view(outcome)),
            final(self)@.len() == old(self)@.len(),
            r == (if index < old(self)@.len() {
                Ok::<(), RegistryError>(())
            } else {
                Err::<(), RegistryError>(RegistryError::IndexOutOfRange)
            }),
            forall|k: int|
                0 <= k < old(self)@.len() && k != index ==> final(self).entries()[k] == old(
                    self,
                ).entries()[k],
            index < old(self)@.len() && outcome is Err ==> {
                let before = old(self).entries()[index as int];
                let after = final(self).entries()[index as int];
                &&& after.ip == before.ip
                &&& after.status == before.status
                &&& after.player_count == before.player_count
                &&& after.max_players == before.max_players
                &&& after.players == before.players
            },
    {
        if index >= self.entries.len() {
            return Err(RegistryError::IndexOutOfRange);
        }
        let entry: &mut ServerState = &mut self.entries[index];
        entry.apply(outcome);
        assert(self@ =~= updated(old(self)@, index as int, outcome_view(outcome)));
        Ok(())
    }
}

/// Updates of two different entries can be taken in either order: neither
/// reads or changes what the other one writes.
pub proof fn lemma_updates_commute(
    entries: Seq<ServerStateView>,
    i: int,
    first: Result<StatusView, FetchError>,
    j: int,
    second: Result<StatusView, FetchError>,
)
    requires
        i != j,
    ensures
        updated(updated(entries, i, first), j, second) == updated(
            updated(entries, j, second),
            i,
            first,
        ),
{
    assert(updated(updated(entries, i, first), j, second) =~= updated(
        updated(entries, j, second),
        i,
        first,
    ));
}

/// Of two updates of one entry the later one decides: a status that comes
/// in puts aside whatever came in before it.
pub proof fn lemma_later_update_wins(
    entries: Seq<ServerStateView>,
    index: int,
    earlier: Result<StatusView, FetchError>,
    status: StatusView,
)
    ensures
        updated(updated(entries, index, earlier), index, Ok(status)) == updated(
            entries,
            index,
            Ok(status),
        ),
{
    assert(updated(updated(entries, index, earlier), index, Ok(status)) =~= updated(
        entries,
        index,
        Ok(status),
    ));
}

/// A failed update leaves the status of every entry as it was, keeps all
/// addresses, and notes the failure at the entry that was updated.
pub proof fn lemma_failure_keeps_status(entries: Seq<ServerStateView>, index: int, e: FetchError)
    ensures
        updated(entries, index, Err(e)).len() == entries.len(),
        forall|k: int|
            0 <= k < entries.len() ==> {
                &&& (#[trigger] updated(entries, index, Err(e))[k]).status == entries[k].status
                &&& updated(entries, index, Err(e))[k].ip == entries[k].ip
            },
        0 <= index < entries.len() ==> updated(entries, index, Err(e))[index].last_update_error
            == Some(e),
{
}

/// A successful update puts the new status in the place of the old one,
/// whole, and clears the error; the address stays.
pub proof fn lemma_success_replaces_status(
    entries: Seq<ServerStateView>,
    index: int,
    status: StatusView,
)
    requires
        0 <= index < entries.len(),
    ensures
        updated(entries, index, Ok(status))[index].status == status,
        updated(entries, index, Ok(status))[index].last_update_error is None,
        updated(entries, index, Ok(status))[index].ip == entries[index].ip,
        forall|k: int|
            0 <= k < entries.len() && k != index ==> #[trigger] updated(
                entries,
                index,
                Ok(status),
            )[k] == entries[k],
{
}

} // verus!
