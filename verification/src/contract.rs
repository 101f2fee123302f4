//! The catalog store: boards of listings by group name, with lookup, filing and removal.

use vstd::prelude::*;
use crate::catalog::{
    lemma_position_is_first, lemma_position_none, position, swap_removed, Catalog,
};
use crate::host::signer_account_id;
use crate::listing::{ItemInfo, ItemInfoView};

verus! {

/// Why an operation was refused: the account named in the call is not the party that
/// signed it.
#[derive(Debug, Clone, Copy, PartialEq, Eq)]
pub struct AuthorizationError;

/// The access guard of removal: `account_id`, the account that a call names, must be the
/// party that signed the call. The two are compared as text, letter for letter.
pub fn authorize(account_id: &String, signer: &String) -> (answer: Result<(), AuthorizationError>)
    ensures
        answer is Ok <==> account_id@ == signer@,
{
    if *account_id == *signer {
        Ok(())
    } else {
        Err(AuthorizationError)
    }
}

/// The listings of one group, in stored order.
struct Board {
    group: String,
    items: Vec<ItemInfo>,
}

/// The catalog store.
pub struct Contract {
    boards: Vec<Board>,
}

impl View for Contract {
    type V = Catalog;

    closed spec fn view(&self) -> Catalog {
        Catalog {
            boards: Map::new(
                |group: Seq<char>| exists|i: int| self.holds_at(group, i),
                |group: Seq<char>| self.boards[self.slot(group)].items.deep_view(),
            ),
        }
    }
}

impl Default for Contract {
    /// The store with no board.
    fn default() -> (fresh: Self)
        ensures
            fresh@ == Catalog::empty(),
    {
        let fresh = Contract { boards: Vec::new() };
        assert(fresh@.boards =~= Map::empty());
        fresh
    }
}

impl Contract {
    /// The first listing under `group` that carries `post_id`. Nothing is returned when
    /// the group has no board, and when its board has no such listing: the two cannot be
    /// told apart.
    pub fn get_item(&self, group: String, post_id: u64) -> (found: Option<ItemInfo>)
        ensures
            found.deep_view() == self@.lookup(group@, post_id),
    {
        proof {
            use_type_invariant(self);
        }
        match self.find_board(&group) {
            Some(b) => {
                proof {
                    self.lemma_board_at(b as int);
                }
                let items = &self.boards[b].items;
                match position_of(items, post_id) {
                    Some(i) => Some(items[i].clone()),
                    None => None,
                }
            },
            None => {
                proof {
                    self.lemma_no_board(group@);
                }
                None
            },
        }
    }

    /// The listings under `group` in stored order, or none if the group has no board.
    pub fn get_items(&self, group: String) -> (listings: Vec<ItemInfo>)
        ensures
            listings.deep_view() == self@.listings(group@),
    {
        proof {
            use_type_invariant(self);
        }
        match self.find_board(&group) {
            Some(b) => {
                proof {
                    self.lemma_board_at(b as int);
                }
                let listings = self.boards[b].items.clone();
                assert(listings.deep_view() =~= self.boards[b as int].items.deep_view());
                listings
            },
            None => {
                proof {
                    self.lemma_no_board(group@);
                }
                let listings: Vec<ItemInfo> = Vec::new();
                assert(listings.deep_view() =~= Seq::empty());
                listings
            },
        }
    }

    /// Files `item_info_in` under `group`: it goes to the end of the group's board, which
    /// comes into being if it was not there. Identifiers are not compared: a listing
    /// whose `post_id` is already on the board is filed all the same.
    pub fn set_items(&mut self, group: String, item_info_in: ItemInfo)
        ensures
            final(self)@ == old(self)@.filed(group@, item_info_in@),
    {
        proof {
            use_type_invariant(&*self);
        }
        let slot = self.find_board(&group);
        let ghost before = *self;
        let ghost name = group@;
        let ghost listing = item_info_in@;
        let mut boards: Vec<Board> = Vec::new();
        std::mem::swap(&mut self.boards, &mut boards);
        match slot {
            Some(b) => {
                boards[b].items.push(item_info_in);
                proof {
                    before.lemma_board_at(b as int);
                    before.lemma_rewritten(Contract { boards }, b as int);
                    assert(boards[b as int].items.deep_view() =~= before.boards[b as int].items.deep_view().push(
                        listing,
                    ));
                }
            },
            None => {
                let mut items: Vec<ItemInfo> = Vec::new();
                items.push(item_info_in);
                proof {
                    assert(items.deep_view() =~= Seq::<ItemInfoView>::empty().push(listing));
                }
                boards.push(Board { group, items });
                proof {
                    before.lemma_no_board(name);
                    before.lemma_opened(Contract { boards });
                }
            },
        }
        std::mem::swap(&mut self.boards, &mut boards);
    }

    /// Removes the first listing under `group` that carries `post_id`, on behalf of
    /// `account_id`, in a call that `signer` signed.
    ///
    /// The call is refused, and the catalog left as it was, unless `account_id` is the
    /// signer. That is the whole of the check: the listing's `creator` plays no part, so
    /// any signer may remove any listing by naming itself.
    ///
    /// Otherwise the listing found is returned and its place on the board is taken by the
    /// board's last listing. With no such board or no such listing, nothing is returned
    /// and nothing changes.
    pub fn remove_items_signed_by(
        &mut self,
        group: String,
        account_id: String,
        signer: &String,
        post_id: u64,
    ) -> (outcome: Result<Option<ItemInfo>, AuthorizationError>)
        ensures
            outcome is Err <==> account_id@ != signer@,
            outcome is Err ==> final(self)@ == old(self)@,
            outcome is Ok ==> outcome->Ok_0.deep_view() == old(self)@.lookup(group@, post_id),
            outcome is Ok ==> final(self)@ == old(self)@.removed(group@, post_id),
    {
        match authorize(&account_id, signer) {
            Ok(()) => Ok(self.take_out(&group, post_id)),
            Err(refusal) => Err(refusal),
        }
    }

    /// Removes the first listing under `group` that carries `post_id`, on behalf of
    /// `account_id`. The signer is the party that signed the running call, as the host
    /// reports it; what follows is [`Contract::remove_items_signed_by`] with that signer.
    /// So the call is refused, and the catalog left as it was, unless `account_id` is the
    /// caller's own identity.
    pub fn remove_items(&mut self, group: String, account_id: String, post_id: u64) -> (outcome:
        Result<Option<ItemInfo>, AuthorizationError>)
        ensures
            outcome is Err ==> final(self)@ == old(self)@,
            outcome is Ok ==> outcome->Ok_0.deep_view() == old(self)@.lookup(group@, post_id),
            outcome is Ok ==> final(self)@ == old(self)@.removed(group@, post_id),
    {
        let signer = signer_account_id();
        self.remove_items_signed_by(group, account_id, &signer, post_id)
    }
}

impl Contract {
    /// No two boards share a group name.
    #[verifier::type_invariant]
    spec fn distinct_groups(self) -> bool {
        forall|i: int, j: int|
            0 <= i < j < self.boards.len() ==> self.boards[i].group@ != self.boards[j].group@
    }

    /// `i` is the place of the board named `group`.
    spec fn holds_at(self, group: Seq<char>, i: int) -> bool {
        0 <= i < self.boards.len() && self.boards[i].group@ == group
    }

    /// The place of the board named `group`, where there is one.
    spec fn slot(self, group: Seq<char>) -> int {
        choose|i: int| self.holds_at(group, i)
    }

    /// The place of the board named `group`.
    fn find_board(&self, group: &String) -> (found: Option<usize>)
        ensures
            match found {
                Some(i) => self.holds_at(group@, i as int),
                None => forall|i: int| !self.holds_at(group@, i),
            },
    {
        let mut i: usize = 0;
        while i < self.boards.len()
            invariant
                i <= self.boards.len(),
                forall|j: int| 0 <= j < i ==> !self.holds_at(group@, j),
            decreases self.boards.len() - i,
        {
            if self.boards[i].group == *group {
                return Some(i);
            }
            i += 1;
        }
        None
    }

    /// Takes the first listing under `group` that carries `post_id` out of the catalog:
    /// the board's last listing takes its place. With no such board or no such listing,
    /// nothing is returned and nothing changes.
    fn take_out(&mut self, group: &String, post_id: u64) -> (taken: Option<ItemInfo>)
        ensures
            taken.deep_view() == old(self)@.lookup(group@, post_id),
            final(self)@ == old(self)@.removed(group@, post_id),
    {
        proof {
            use_type_invariant(&*self);
        }
        match self.find_board(group) {
            Some(b) => {
                proof {
                    self.lemma_board_at(b as int);
                }
                match position_of(&self.boards[b].items, post_id) {
                    Some(i) => {
                        let ghost before = *self;
                        let mut boards: Vec<Board> = Vec::new();
                        std::mem::swap(&mut self.boards, &mut boards);
                        let taken = boards[b].items.swap_remove(i);
                        proof {
                            before.lemma_rewritten(Contract { boards }, b as int);
                            assert(boards[b as int].items.deep_view() =~= swap_removed(
                                before.boards[b as int].items.deep_view(),
                                i as int,
                            ));
                        }
                        std::mem::swap(&mut self.boards, &mut boards);
                        Some(taken)
                    },
                    None => None,
                }
            },
            None => {
                proof {
                    self.lemma_no_board(group@);
                }
                None
            },
        }
    }

    /// The board at place `i` is what the catalog shows under its group name.
    proof fn lemma_board_at(self, i: int)
        requires
            self.distinct_groups(),
            0 <= i < self.boards.len(),
        ensures
            self@.boards.dom().contains(self.boards[i].group@),
            self@.boards[self.boards[i].group@] == self.boards[i].items.deep_view(),
    {
        let group = self.boards[i].group@;
        assert(self.holds_at(group, i));
        let k = self.slot(group);
        assert(self.holds_at(group, k));
        assert(k == i);
    }

    /// A name that no board carries is not in the catalog.
    proof fn lemma_no_board(self, group: Seq<char>)
        requires
            forall|i: int| !self.holds_at(group, i),
        ensures
            !self@.boards.dom().contains(group),
    {
    }

    /// Rewriting the listings of the board at place `i`, and nothing else, rewrites that
    /// board in the catalog.
    proof fn lemma_rewritten(self, after: Contract, i: int)
        requires
            self.distinct_groups(),
            0 <= i < self.boards.len(),
            after.boards.len() == self.boards.len(),
            after.boards[i].group == self.boards[i].group,
            forall|k: int| 0 <= k < self.boards.len() && k != i ==> after.boards[k] == self.boards[k],
        ensures
            after.distinct_groups(),
            after@.boards == self@.boards.insert(
                self.boards[i].group@,
                after.boards[i].items.deep_view(),
            ),
    {
        let group = self.boards[i].group@;
        assert forall|g: Seq<char>| #[trigger]
            after@.boards.dom().contains(g) == self@.boards.insert(
                group,
                after.boards[i].items.deep_view(),
            ).dom().contains(g) by {
            if exists|k: int| after.holds_at(g, k) {
                let k = choose|k: int| after.holds_at(g, k);
                assert(self.holds_at(g, k));
            }
            if exists|k: int| self.holds_at(g, k) {
                let k = choose|k: int| self.holds_at(g, k);
                assert(after.holds_at(g, k));
            }
            assert(self.holds_at(group, i));
            assert(after.holds_at(group, i));
        }
        assert forall|g: Seq<char>| #[trigger] after@.boards.dom().contains(g) implies after@.boards[g]
            == self@.boards.insert(group, after.boards[i].items.deep_view())[g] by {
            let k = after.slot(g);
            assert(after.holds_at(g, k));
            after.lemma_board_at(k);
            if k != i {
                assert(self.holds_at(g, k));
                self.lemma_board_at(k);
            }
        }
        assert(after@.boards =~= self@.boards.insert(group, after.boards[i].items.deep_view()));
    }

    /// Adding a board under a name that no board carries adds that board to the catalog.
    proof fn lemma_opened(self, after: Contract)
        requires
            self.distinct_groups(),
            after.boards.len() == self.boards.len() + 1,
            forall|k: int| 0 <= k < self.boards.len() ==> after.boards[k] == self.boards[k],
            forall|k: int| !self.holds_at(after.boards@.last().group@, k),
        ensures
            after.distinct_groups(),
            after@.boards == self@.boards.insert(
                after.boards@.last().group@,
                after.boards@.last().items.deep_view(),
            ),
    {
        let last = self.boards.len() as int;
        let group = after.boards[last].group@;
        assert(after.boards@.last() == after.boards[last]);
        assert forall|i: int, j: int| 0 <= i < j < after.boards.len() implies after.boards[i].group@
            != after.boards[j].group@ by {
            if j == last {
                assert(!self.holds_at(group, i));
            }
        }
        let grown = self@.boards.insert(group, after.boards[last].items.deep_view());
        assert forall|g: Seq<char>| #[trigger] after@.boards.dom().contains(g) == grown.dom().contains(g) by {
            if exists|k: int| after.holds_at(g, k) {
                let k = choose|k: int| after.holds_at(g, k);
                if k != last {
                    assert(self.holds_at(g, k));
                }
            }
            if exists|k: int| self.holds_at(g, k) {
                let k = choose|k: int| self.holds_at(g, k);
                assert(after.holds_at(g, k));
            }
            assert(after.holds_at(group, last));
        }
        assert forall|g: Seq<char>| #[trigger] after@.boards.dom().contains(g) implies after@.boards[g]
            == grown[g] by {
            let k = after.slot(g);
            assert(after.holds_at(g, k));
            after.lemma_board_at(k);
            if k != last {
                assert(self.holds_at(g, k));
                self.lemma_board_at(k);
            }
        }
        assert(after@.boards =~= grown);
    }
}

/// The first position in `items` whose listing carries `post_id`.
fn position_of(items: &Vec<ItemInfo>, post_id: u64) -> (found: Option<usize>)
    ensures
        found is Some <==> position(items.deep_view(), post_id) is Some,
        found is Some ==> position(items.deep_view(), post_id) == Some(found->0 as int),
{
    let mut i: usize = 0;
    while i < items.len()
        invariant
            i <= items.len(),
            forall|j: int| 0 <= j < i ==> items.deep_view()[j].post_id != post_id,
        decreases items.len() - i,
    {
        if items[i].post_id == post_id {
            proof {
                lemma_position_is_first(items.deep_view(), post_id, i as int);
            }
            return Some(i);
        }
        i += 1;
    }
    proof {
        lemma_position_none(items.deep_view(), post_id);
    }
    None
}

} // verus!
