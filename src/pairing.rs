//! Pairing of incoming connections into two-client sessions.
//!
//! Connections are known by an identifier the caller chooses. The pairer holds
//! at most one pending connection; the next one completes a pair, which leaves
//! the pairer empty again.

use vstd::prelude::*;

verus! {

/// The result of offering one connection to the pairer.
#[derive(Debug, Clone, Copy, PartialEq, Eq, Structural)]
pub enum PairOutcome {
    /// The connection waits for a partner.
    Waiting,
    /// These two connections, earlier one first, form a new session.
    Paired(u64, u64),
}

/// One step of the pairer: the pending connection after `conn` arrives, and
/// the outcome for it.
pub open spec fn pair_step(pending: Option<u64>, conn: u64) -> (Option<u64>, PairOutcome) {
    match pending {
        None => (Some(conn), PairOutcome::Waiting),
        Some(first) => (None, PairOutcome::Paired(first, conn)),
    }
}

/// The pending connection after the connections `conns` arrived, in order,
/// at an empty pairer.
pub open spec fn pending_after(conns: Seq<u64>) -> Option<u64>
    decreases conns.len(),
{
    if conns.len() == 0 {
        None
    } else {
        pair_step(pending_after(conns.drop_last()), conns.last()).0
    }
}

/// The sessions formed, in order, when the connections `conns` arrived at an
/// empty pairer.
pub open spec fn pairs_after(conns: Seq<u64>) -> Seq<(u64, u64)>
    decreases conns.len(),
{
    if conns.len() == 0 {
        Seq::empty()
    } else {
        match pair_step(pending_after(conns.drop_last()), conns.last()).1 {
            PairOutcome::Paired(a, b) => pairs_after(conns.drop_last()).push((a, b)),
            PairOutcome::Waiting => pairs_after(conns.drop_last()),
        }
    }
}

/// Accumulates incoming connections into pairs.
pub struct Pairer {
    pending: Option<u64>,
}

impl View for Pairer {
    type V = Option<u64>;

    /// The connection waiting for a partner, if any.
    closed spec fn view(&self) -> Option<u64> {
        self.pending
    }
}

impl Pairer {
    /// A pairer with no pending connection.
    pub fn new() -> (r: Pairer)
        ensures
            r@ is None,
    {
        Pairer { pending: None }
    }

    /// How many connections wait for a partner: zero or one.
    pub fn pending_count(&self) -> (r: usize)
        ensures
            r == (if self@ is Some { 1usize } else { 0usize }),
    {
        if self.pending.is_some() {
            1
        } else {
            0
        }
    }

    /// Offers a newly accepted connection. With none pending it waits;
    /// otherwise it is paired with the pending one, which leaves none pending.
    pub fn connect(&mut self, conn: u64) -> (r: PairOutcome)
        ensures
            (final(self)@, r) == pair_step(old(self)@, conn),
    {
        match self.pending {
            None => {
                self.pending = Some(conn);
                PairOutcome::Waiting
            },
            Some(first) => {
                self.pending = None;
                PairOutcome::Paired(first, conn)
            },
        }
    }
}

/// Connections offered in turn to an empty pairer are paired as they come:
/// the first with the second, the third with the fourth, and so on. So no
/// connection is paired into two sessions, and none is dropped: each one is
/// in exactly one pair, except the last of an odd count, which is pending.
pub proof fn lemma_pairing_exclusive(conns: Seq<u64>)
    ensures
        pairs_after(conns).len() == conns.len() / 2,
        forall|i: int|
            0 <= i < conns.len() / 2 ==> #[trigger] pairs_after(conns)[i] == (
                conns[2 * i],
                conns[2 * i + 1],
            ),
        pending_after(conns) == (if conns.len() % 2 == 1 {
            Some(conns.last())
        } else {
            None::<u64>
        }),
    decreases conns.len(),
{
    if conns.len() > 0 {
        let prefix = conns.drop_last();
        lemma_pairing_exclusive(prefix);
        assert forall|i: int| 0 <= i < prefix.len() ==> prefix[i] == conns[i] by {}
        if prefix.len() % 2 == 1 {
            assert forall|i: int| 0 <= i < conns.len() / 2 implies #[trigger] pairs_after(
                conns,
            )[i] == (conns[2 * i], conns[2 * i + 1]) by {
                if i < prefix.len() / 2 {
                    assert(pairs_after(prefix)[i] == (prefix[2 * i], prefix[2 * i + 1]));
                }
            }
        } else {
            assert forall|i: int| 0 <= i < conns.len() / 2 implies #[trigger] pairs_after(
                conns,
            )[i] == (conns[2 * i], conns[2 * i + 1]) by {
                assert(pairs_after(prefix)[i] == (prefix[2 * i], prefix[2 * i + 1]));
            }
        }
    }
}

} // verus!
