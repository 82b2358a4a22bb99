//! A table of token balances.

use crate::address::Address;
use crate::arith::fits_i128;
use vstd::prelude::*;

verus! {

/// The balance that `table` holds for `who`: what was last recorded for it,
/// and zero if nothing ever was.
pub open spec fn balance_in(table: Map<Seq<char>, i128>, who: Seq<char>) -> int {
    if table.contains_key(who) {
        table[who] as int
    } else {
        0
    }
}

/// The table after `amount` has gone from `from` to `to`: first `from` is
/// debited, then `to` is credited with what it then holds.
pub open spec fn moved(
    table: Map<Seq<char>, i128>,
    from: Seq<char>,
    to: Seq<char>,
    amount: int,
) -> Map<Seq<char>, i128> {
    let debited = table.insert(from, (balance_in(table, from) - amount) as i128);
    debited.insert(to, (balance_in(debited, to) + amount) as i128)
}

/// Both balances that a move of `amount` from `from` to `to` writes fit in
/// 128 bits.
pub open spec fn movable(
    table: Map<Seq<char>, i128>,
    from: Seq<char>,
    to: Seq<char>,
    amount: int,
) -> bool {
    let debited = table.insert(from, (balance_in(table, from) - amount) as i128);
    fits_i128(balance_in(table, from) - amount) && fits_i128(balance_in(debited, to) + amount)
}

/// The table after `amount` has been credited to `to`.
pub open spec fn credited(table: Map<Seq<char>, i128>, to: Seq<char>, amount: int) -> Map<
    Seq<char>,
    i128,
> {
    table.insert(to, (balance_in(table, to) + amount) as i128)
}

/// The balances of the holders of a token, by address.
#[derive(Debug)]
pub struct Balances {
    entries: Vec<(Address, i128)>,
}

/// The first index at or after `from` at which `entries` names `who`, or the
/// length of `entries` if there is none.
spec fn position(entries: Seq<(Address, i128)>, who: Seq<char>, from: int) -> int
    decreases entries.len() - from,
{
    if from < 0 || from >= entries.len() {
        entries.len() as int
    } else if entries[from].0@ == who {
        from
    } else {
        position(entries, who, from + 1)
    }
}

proof fn position_is_first_match(entries: Seq<(Address, i128)>, who: Seq<char>, from: int)
    requires
        0 <= from <= entries.len(),
    ensures
        from <= position(entries, who, from) <= entries.len(),
        position(entries, who, from) < entries.len() ==> entries[position(
            entries,
            who,
            from,
        )].0@ == who,
        forall|j: int| from <= j < position(entries, who, from) ==> entries[j].0@ != who,
    decreases entries.len() - from,
{
    if from < entries.len() && entries[from].0@ != who {
        position_is_first_match(entries, who, from + 1);
    }
}

proof fn position_after_update(
    entries: Seq<(Address, i128)>,
    at: int,
    entry: (Address, i128),
    who: Seq<char>,
    from: int,
)
    requires
        0 <= at < entries.len(),
        entries[at].0@ == entry.0@,
        0 <= from <= entries.len(),
    ensures
        position(entries.update(at, entry), who, from) == position(entries, who, from),
    decreases entries.len() - from,
{
    if from < entries.len() && entries[from].0@ != who {
        position_after_update(entries, at, entry, who, from + 1);
    }
}

proof fn position_after_push(
    entries: Seq<(Address, i128)>,
    entry: (Address, i128),
    who: Seq<char>,
    from: int,
)
    requires
        0 <= from <= entries.len(),
    ensures
        position(entries.push(entry), who, from) == if position(entries, who, from)
            < entries.len() {
            position(entries, who, from)
        } else if entry.0@ == who {
            entries.len() as int
        } else {
            entries.len() as int + 1
        },
    decreases entries.len() - from,
{
    let longer = entries.push(entry);
    if from < entries.len() {
        assert(longer[from] == entries[from]);
        if entries[from].0@ != who {
            position_after_push(entries, entry, who, from + 1);
        }
    } else {
        assert(longer[from] == entry);
        if entry.0@ != who {
            assert(position(longer, who, from + 1) == longer.len());
        }
    }
}

impl View for Balances {
    type V = Map<Seq<char>, i128>;

    /// The balances recorded, by the text of the holder's address.
    closed spec fn view(&self) -> Map<Seq<char>, i128> {
        Map::new(
            |who: Seq<char>| position(self.entries@, who, 0) < self.entries@.len(),
            |who: Seq<char>| self.entries@[position(self.entries@, who, 0)].1,
        )
    }
}

impl Balances {
    /// A table that records nothing.
    pub fn new() -> (table: Balances)
        ensures
            table@ == Map::<Seq<char>, i128>::empty(),
    {
        let table = Balances { entries: Vec::new() };
        assert(table@ =~= Map::<Seq<char>, i128>::empty());
        table
    }

    fn find(&self, who: &Address) -> (at: usize)
        ensures
            at == position(self.entries@, who@, 0),
            at <= self.entries@.len(),
    {
        let mut i: usize = 0;
        while i < self.entries.len()
            invariant
                i <= self.entries@.len(),
                position(self.entries@, who@, 0) == position(self.entries@, who@, i as int),
            decreases self.entries@.len() - i,
        {
            if self.entries[i].0.same_as(who) {
                return i;
            }
            i += 1;
        }
        i
    }

    /// Returns the balance of `who`, which is zero if none was ever recorded.
    pub fn get(&self, who: &Address) -> (balance: i128)
        ensures
            balance == balance_in(self@, who@),
    {
        let at = self.find(who);
        if at < self.entries.len() {
            self.entries[at].1
        } else {
            0
        }
    }

    /// Records `balance` as the balance of `who`.
    pub fn set(&mut self, who: &Address, balance: i128)
        ensures
            final(self)@ == old(self)@.insert(who@, balance),
    {
        let at = self.find(who);
        let entry = (who.clone(), balance);
        let ghost before = self.entries@;
        if at < self.entries.len() {
            self.entries.set(at, entry);
        } else {
            self.entries.push(entry);
        }
        proof {
            let after = self.entries@;
            position_is_first_match(before, who@, 0);
            assert forall|other: Seq<char>|
                #![trigger position(after, other, 0)]
                #![trigger position(before, other, 0)]
                {
                    &&& (position(after, other, 0) < after.len()) == (other == who@ || position(
                        before,
                        other,
                        0,
                    ) < before.len())
                    &&& position(after, other, 0) < after.len() ==> after[position(
                        after,
                        other,
                        0,
                    )].1 == if other == who@ {
                        balance
                    } else {
                        before[position(before, other, 0)].1
                    }
                } by {
                position_is_first_match(before, other, 0);
                if at < before.len() {
                    position_after_update(before, at as int, entry, other, 0);
                } else {
                    position_after_push(before, entry, other, 0);
                }
            }
            assert(self@ =~= old(self)@.insert(who@, balance));
        }
    }

    /// Tells whether `amount` can be added to the balance of `to` without
    /// leaving the 128-bit range.
    pub fn can_credit(&self, to: &Address, amount: i128) -> (ok: bool)
        ensures
            ok == fits_i128(balance_in(self@, to@) + amount),
    {
        self.get(to).checked_add(amount).is_some()
    }

    /// Tells whether `amount` can be moved from `from` to `to` without
    /// either balance leaving the 128-bit range.
    pub fn can_move(&self, from: &Address, to: &Address, amount: i128) -> (ok: bool)
        ensures
            ok == movable(self@, from@, to@, amount as int),
    {
        match self.get(from).checked_sub(amount) {
            Some(left) => {
                let held = if from.same_as(to) {
                    left
                } else {
                    self.get(to)
                };
                held.checked_add(amount).is_some()
            },
            None => false,
        }
    }

    /// Adds `amount` to the balance of `to`.
    pub fn credit(&mut self, to: &Address, amount: i128)
        requires
            fits_i128(balance_in(old(self)@, to@) + amount),
        ensures
            final(self)@ == credited(old(self)@, to@, amount as int),
    {
        let held = self.get(to);
        self.set(to, held + amount);
    }

    /// Takes `amount` from the balance of `from` and adds it to that of
    /// `to`.
    pub fn move_between(&mut self, from: &Address, to: &Address, amount: i128)
        requires
            movable(old(self)@, from@, to@, amount as int),
        ensures
            final(self)@ == moved(old(self)@, from@, to@, amount as int),
    {
        let held = self.get(from);
        self.set(from, held - amount);
        let held = self.get(to);
        self.set(to, held + amount);
    }
}

/// A move creates and destroys nothing: between two holders, what one loses
/// the other gains; from a holder to itself, nothing changes; and no third
/// balance is touched.
pub proof fn move_conserves(
    table: Map<Seq<char>, i128>,
    from: Seq<char>,
    to: Seq<char>,
    amount: int,
    other: Seq<char>,
)
    requires
        movable(table, from, to, amount),
    ensures
        from != to ==> balance_in(moved(table, from, to, amount), from) == balance_in(table, from)
            - amount,
        from != to ==> balance_in(moved(table, from, to, amount), to) == balance_in(table, to)
            + amount,
        from == to ==> balance_in(moved(table, from, to, amount), from) == balance_in(table, from),
        other != from && other != to ==> balance_in(moved(table, from, to, amount), other)
            == balance_in(table, other),
{
}

} // verus!
