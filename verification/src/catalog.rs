//! The catalog as a mathematical object: a map from group names to boards, where a board
//! is a sequence of listings in stored order. The operations of the store are defined here
//! as functions on that object; the executable store is specified against them.

use vstd::prelude::*;
use crate::listing::ItemInfoView;

verus! {

/// A board: the listings of one group, in stored order.
pub type BoardView = Seq<ItemInfoView>;

/// `i` is a position of `board`, and the listing there carries `post_id`.
pub open spec fn matches_at(board: BoardView, post_id: u64, i: int) -> bool {
    0 <= i < board.len() && board[i].post_id == post_id
}

/// `i` is the first position of `board` whose listing carries `post_id`.
pub open spec fn first_at(board: BoardView, post_id: u64, i: int) -> bool {
    &&& matches_at(board, post_id, i)
    &&& forall|j: int| 0 <= j < i ==> !matches_at(board, post_id, j)
}

/// The first position of `board` whose listing carries `post_id`, if there is one.
pub open spec fn position(board: BoardView, post_id: u64) -> Option<int> {
    if exists|i: int| first_at(board, post_id, i) {
        Some(choose|i: int| first_at(board, post_id, i))
    } else {
        None
    }
}

/// `board` without the listing at `i`: the last listing takes the vacated place and the
/// board becomes one shorter. The order of the listings that remain may change.
pub open spec fn swap_removed(board: BoardView, i: int) -> BoardView
    recommends
        0 <= i < board.len(),
{
    board.update(i, board.last()).drop_last()
}

/// The catalog: the boards that exist, by group name.
pub struct Catalog {
    pub boards: Map<Seq<char>, BoardView>,
}

impl Catalog {
    /// The catalog with no board.
    pub open spec fn empty() -> Catalog {
        Catalog { boards: Map::empty() }
    }

    /// The listings filed under `group`: its board, or nothing if there is no such board.
    pub open spec fn listings(self, group: Seq<char>) -> BoardView {
        if self.boards.dom().contains(group) {
            self.boards[group]
        } else {
            Seq::empty()
        }
    }

    /// The first listing under `group` that carries `post_id`, if there is one.
    pub open spec fn lookup(self, group: Seq<char>, post_id: u64) -> Option<ItemInfoView> {
        match position(self.listings(group), post_id) {
            Some(i) => Some(self.listings(group)[i]),
            None => None,
        }
    }

    /// The catalog after `listing` is filed under `group`: the listing goes to the end of
    /// the group's board, which comes into being if it was not there.
    pub open spec fn filed(self, group: Seq<char>, listing: ItemInfoView) -> Catalog {
        Catalog { boards: self.boards.insert(group, self.listings(group).push(listing)) }
    }

    /// The catalog after the first listing under `group` that carries `post_id` is taken
    /// out. With no such listing the catalog stays as it is.
    pub open spec fn removed(self, group: Seq<char>, post_id: u64) -> Catalog {
        match position(self.listings(group), post_id) {
            Some(i) => Catalog {
                boards: self.boards.insert(group, swap_removed(self.listings(group), i)),
            },
            None => self,
        }
    }
}

/// A position that is the first match is the one that `position` names.
pub proof fn lemma_position_is_first(board: BoardView, post_id: u64, i: int)
    requires
        first_at(board, post_id, i),
    ensures
        position(board, post_id) == Some(i),
{
    let k = choose|k: int| first_at(board, post_id, k);
    assert(first_at(board, post_id, k));
    if k < i {
        assert(!matches_at(board, post_id, k));
    } else if i < k {
        assert(!matches_at(board, post_id, i));
    }
}

/// A board without a match has no position for the identifier.
pub proof fn lemma_position_none(board: BoardView, post_id: u64)
    requires
        forall|i: int| 0 <= i < board.len() ==> board[i].post_id != post_id,
    ensures
        position(board, post_id) is None,
{
    if exists|i: int| first_at(board, post_id, i) {
        let k = choose|k: int| first_at(board, post_id, k);
        assert(matches_at(board, post_id, k));
    }
}

/// Where some listing carries the identifier, one of them comes first.
pub proof fn lemma_first_exists(board: BoardView, post_id: u64, i: int)
    requires
        matches_at(board, post_id, i),
    ensures
        exists|k: int| 0 <= k <= i && first_at(board, post_id, k),
    decreases i,
{
    if exists|j: int| 0 <= j < i && matches_at(board, post_id, j) {
        let j = choose|j: int| 0 <= j < i && matches_at(board, post_id, j);
        lemma_first_exists(board, post_id, j);
    } else {
        assert(first_at(board, post_id, i));
    }
}

/// `position` names a place exactly when some listing carries the identifier, and the
/// place it names is the first such.
pub proof fn lemma_position(board: BoardView, post_id: u64)
    ensures
        position(board, post_id) is Some <==> exists|i: int| matches_at(board, post_id, i),
        position(board, post_id) matches Some(i) ==> first_at(board, post_id, i),
{
    if exists|i: int| matches_at(board, post_id, i) {
        let i = choose|i: int| matches_at(board, post_id, i);
        lemma_first_exists(board, post_id, i);
    }
    if exists|i: int| first_at(board, post_id, i) {
        let k = choose|k: int| first_at(board, post_id, k);
        assert(matches_at(board, post_id, k));
    }
}

/// Taking a listing out leaves every other listing on the board, each as often as before.
/// Places may change: the listing that was last now stands where the removed one stood.
pub proof fn lemma_swap_removed(board: BoardView, i: int)
    requires
        0 <= i < board.len(),
    ensures
        swap_removed(board, i).len() == board.len() - 1,
        swap_removed(board, i).to_multiset() == board.to_multiset().remove(board[i]),
        forall|k: int| 0 <= k < board.len() - 1 && k != i ==> swap_removed(board, i)[k] == board[k],
        i < board.len() - 1 ==> swap_removed(board, i)[i] == board.last(),
{
    let moved = board.update(i, board.last());
    vstd::seq_lib::to_multiset_update(board, i, board.last());
    assert(moved.drop_last() =~= moved.remove(moved.len() - 1));
    vstd::seq_lib::to_multiset_remove(moved, moved.len() - 1);
    assert(moved[moved.len() - 1] == board.last());
    assert(board.to_multiset().insert(board.last()).remove(board[i]).remove(board.last())
        =~= board.to_multiset().remove(board[i])) by {
        vstd::seq_lib::to_multiset_contains(board, board[i]);
        assert(board.contains(board[i]));
        broadcast use vstd::multiset::group_multiset_axioms;

    }
}

impl Catalog {
    /// Filing a listing puts it at the end of its group's board, which grows by one, and
    /// leaves every other group as it was.
    pub proof fn lemma_filed(self, group: Seq<char>, listing: ItemInfoView)
        ensures
            self.filed(group, listing).listings(group) == self.listings(group).push(listing),
            self.filed(group, listing).listings(group).len() == self.listings(group).len() + 1,
            self.filed(group, listing).listings(group).contains(listing),
            forall|other: Seq<char>|
                other != group ==> self.filed(group, listing).listings(other) == self.listings(
                    other,
                ),
    {
        let board = self.listings(group).push(listing);
        assert(board[board.len() - 1] == listing);
    }

    /// Lookup finds nothing exactly when no listing under the group carries the
    /// identifier; a group without a board is one such case.
    pub proof fn lemma_lookup_none(self, group: Seq<char>, post_id: u64)
        ensures
            self.lookup(group, post_id) is None <==> forall|i: int|
                0 <= i < self.listings(group).len() ==> self.listings(group)[i].post_id != post_id,
            !self.boards.dom().contains(group) ==> self.lookup(group, post_id) is None,
    {
        let board = self.listings(group);
        lemma_position(board, post_id);
        if forall|i: int| 0 <= i < board.len() ==> board[i].post_id != post_id {
            assert forall|i: int| !matches_at(board, post_id, i) by {}
        } else {
            let i = choose|i: int| 0 <= i < board.len() && board[i].post_id == post_id;
            assert(matches_at(board, post_id, i));
        }
    }

    /// What lookup finds carries the identifier asked for, stands on the group's board,
    /// and has no listing with that identifier before it.
    pub proof fn lemma_lookup_some(self, group: Seq<char>, post_id: u64)
        requires
            self.lookup(group, post_id) is Some,
        ensures
            self.lookup(group, post_id)->0.post_id == post_id,
            exists|i: int|
                first_at(self.listings(group), post_id, i) && self.listings(group)[i]
                    == self.lookup(group, post_id)->0,
    {
        lemma_position(self.listings(group), post_id);
        let i = position(self.listings(group), post_id)->0;
        assert(first_at(self.listings(group), post_id, i));
    }

    /// Removing an identifier that some listing under the group carries takes out the
    /// listing that lookup finds: the board becomes one shorter, keeps every other listing
    /// as often as before, and every other group stays as it was.
    pub proof fn lemma_removed_one(self, group: Seq<char>, post_id: u64)
        requires
            exists|i: int| matches_at(self.listings(group), post_id, i),
        ensures
            self.lookup(group, post_id) is Some,
            self.lookup(group, post_id)->0.post_id == post_id,
            self.removed(group, post_id).listings(group).len() == self.listings(group).len() - 1,
            self.removed(group, post_id).listings(group).to_multiset() == self.listings(
                group,
            ).to_multiset().remove(self.lookup(group, post_id)->0),
            forall|other: Seq<char>|
                other != group ==> self.removed(group, post_id).listings(other) == self.listings(
                    other,
                ),
    {
        let board = self.listings(group);
        lemma_position(board, post_id);
        let i = position(board, post_id)->0;
        assert(first_at(board, post_id, i));
        lemma_swap_removed(board, i);
    }

    /// A board, once there, stays: filing adds the board of its group if it was missing,
    /// and removal takes no board away, not even one that it empties.
    pub proof fn lemma_boards_stay(self, group: Seq<char>, listing: ItemInfoView, post_id: u64)
        ensures
            self.filed(group, listing).boards.dom() == self.boards.dom().insert(group),
            self.removed(group, post_id).boards.dom() == self.boards.dom(),
    {
        lemma_position(self.listings(group), post_id);
        if position(self.listings(group), post_id) is Some {
            assert(self.boards.dom().contains(group));
            assert(self.boards.dom().insert(group) =~= self.boards.dom());
        }
    }

    /// Removing an identifier that no listing under the group carries changes nothing.
    pub proof fn lemma_removed_none(self, group: Seq<char>, post_id: u64)
        requires
            self.lookup(group, post_id) is None,
        ensures
            self.removed(group, post_id) == self,
    {
    }

    /// Where at most one listing under the group carries the identifier, nothing is left
    /// to find after one removal, and a second removal changes nothing.
    pub proof fn lemma_removed_twice(self, group: Seq<char>, post_id: u64)
        requires
            forall|i: int, j: int|
                matches_at(self.listings(group), post_id, i) && matches_at(
                    self.listings(group),
                    post_id,
                    j,
                ) ==> i == j,
        ensures
            self.removed(group, post_id).lookup(group, post_id) is None,
            self.removed(group, post_id).removed(group, post_id) == self.removed(group, post_id),
    {
        let board = self.listings(group);
        let after = self.removed(group, post_id);
        lemma_position(board, post_id);
        match position(board, post_id) {
            Some(i) => {
                assert(first_at(board, post_id, i));
                lemma_swap_removed(board, i);
                assert forall|k: int| 0 <= k < after.listings(group).len() implies after.listings(
                    group,
                )[k].post_id != post_id by {
                    if k == i {
                        assert(!matches_at(board, post_id, board.len() - 1));
                    } else {
                        assert(!matches_at(board, post_id, k));
                    }
                }
            },
            None => {
                assert forall|k: int| 0 <= k < board.len() implies board[k].post_id != post_id by {
                    assert(!matches_at(board, post_id, k));
                }
            },
        }
        after.lemma_lookup_none(group, post_id);
    }

    /// Filing never displaces a match: lookup after a filing finds what it found before,
    /// and finds the new listing only if nothing on the board carried its identifier.
    pub proof fn lemma_filed_lookup(self, group: Seq<char>, listing: ItemInfoView, post_id: u64)
        ensures
            self.filed(group, listing).lookup(group, post_id) == (match self.lookup(group, post_id) {
                Some(first) => Some(first),
                None => if listing.post_id == post_id {
                    Some(listing)
                } else {
                    None
                },
            }),
    {
        let board = self.listings(group);
        let grown = board.push(listing);
        lemma_position(board, post_id);
        match position(board, post_id) {
            Some(i) => {
                assert(first_at(board, post_id, i));
                assert(matches_at(grown, post_id, i));
                assert forall|j: int| 0 <= j < i implies !matches_at(grown, post_id, j) by {
                    assert(!matches_at(board, post_id, j));
                }
                lemma_position_is_first(grown, post_id, i);
            },
            None => {
                assert forall|j: int| 0 <= j < board.len() implies !matches_at(grown, post_id, j) by {
                    assert(!matches_at(board, post_id, j));
                }
                if listing.post_id == post_id {
                    assert(matches_at(grown, post_id, board.len() as int));
                    lemma_position_is_first(grown, post_id, board.len() as int);
                } else {
                    assert forall|j: int| 0 <= j < grown.len() implies grown[j].post_id != post_id by {
                        if j < board.len() {
                            assert(!matches_at(grown, post_id, j));
                        }
                    }
                    lemma_position_none(grown, post_id);
                }
            },
        }
    }

    /// Two listings filed under one group with the same identifier both stay on the
    /// board, in the order of filing, and lookup finds the earlier of the two unless an
    /// older listing already carried the identifier.
    pub proof fn lemma_duplicates_kept(self, group: Seq<char>, first: ItemInfoView, second: ItemInfoView)
        requires
            first.post_id == second.post_id,
        ensures
            self.filed(group, first).filed(group, second).listings(group) == self.listings(
                group,
            ).push(first).push(second),
            self.filed(group, first).filed(group, second).lookup(group, first.post_id) == (
            match self.lookup(group, first.post_id) {
                Some(older) => Some(older),
                None => Some(first),
            }),
    {
        self.lemma_filed_lookup(group, first, first.post_id);
        self.filed(group, first).lemma_filed_lookup(group, second, first.post_id);
    }
}

} // verus!
