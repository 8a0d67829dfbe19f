//! The queue in which an orchestrator keeps the peers that wait for an
//! opponent.
//!
//! Entries stand in the order in which they joined. An entry that has waited
//! longer than [`MATCHMAKING_WINDOW_MICROS`] is dropped the next time anybody
//! enqueues; a peer that enqueues again keeps its place and gets a new name
//! and time; as soon as two entries wait, the two at the front are paired.

use vstd::prelude::*;

verus! {

/// How long an entry may wait: five minutes, in microseconds.
pub const MATCHMAKING_WINDOW_MICROS: u64 = 300_000_000;

/// A peer that waits for an opponent.
#[derive(Debug)]
pub struct MatchmakingPlayer {
    pub chain_id: String,
    pub player_name: String,
    pub enqueued_at_micros: u64,
}

/// What a [`MatchmakingPlayer`] stands for.
#[verifier::ext_equal]
pub struct MatchmakingPlayerView {
    pub chain_id: Seq<char>,
    pub player_name: Seq<char>,
    pub enqueued_at_micros: u64,
}

impl View for MatchmakingPlayer {
    type V = MatchmakingPlayerView;

    open spec fn view(&self) -> MatchmakingPlayerView {
        MatchmakingPlayerView {
            chain_id: self.chain_id@,
            player_name: self.player_name@,
            enqueued_at_micros: self.enqueued_at_micros,
        }
    }
}

impl Clone for MatchmakingPlayer {
    fn clone(&self) -> (copy: Self)
        ensures
            copy@ == self@,
    {
        MatchmakingPlayer {
            chain_id: self.chain_id.clone(),
            player_name: self.player_name.clone(),
            enqueued_at_micros: self.enqueued_at_micros,
        }
    }
}

/// The entries that a queue stands for, front first.
pub open spec fn queue_view(queue: Seq<MatchmakingPlayer>) -> Seq<MatchmakingPlayerView> {
    queue.map_values(|p: MatchmakingPlayer| p@)
}

/// The earliest time of joining that has not expired at `now_micros`.
pub open spec fn cutoff_micros(now_micros: u64) -> u64 {
    if now_micros >= MATCHMAKING_WINDOW_MICROS {
        (now_micros - MATCHMAKING_WINDOW_MICROS) as u64
    } else {
        0
    }
}

/// The entry has not expired at `now_micros`.
pub open spec fn is_live(entry: MatchmakingPlayerView, now_micros: u64) -> bool {
    entry.enqueued_at_micros >= cutoff_micros(now_micros)
}

/// The queue without its expired entries.
pub open spec fn pruned(queue: Seq<MatchmakingPlayerView>, now_micros: u64) -> Seq<
    MatchmakingPlayerView,
> {
    queue.filter(|entry: MatchmakingPlayerView| is_live(entry, now_micros))
}

/// The first place at or after `from` where `peer` stands in the queue.
pub open spec fn position_from(queue: Seq<MatchmakingPlayerView>, peer: Seq<char>, from: int) -> Option<
    int,
>
    decreases queue.len() - from,
{
    if from < 0 || from >= queue.len() {
        None
    } else if queue[from].chain_id == peer {
        Some(from)
    } else {
        position_from(queue, peer, from + 1)
    }
}

/// The first place where `peer` stands in the queue.
pub open spec fn position_of(queue: Seq<MatchmakingPlayerView>, peer: Seq<char>) -> Option<int> {
    position_from(queue, peer, 0)
}

/// The queue after `peer` has enqueued under `name` at `now_micros`: its
/// entry is refreshed where it stands, or a new one joins at the back.
pub open spec fn upserted(
    queue: Seq<MatchmakingPlayerView>,
    peer: Seq<char>,
    name: Seq<char>,
    now_micros: u64,
) -> Seq<MatchmakingPlayerView> {
    match position_of(queue, peer) {
        Some(place) => queue.update(
            place,
            MatchmakingPlayerView {
                chain_id: queue[place].chain_id,
                player_name: name,
                enqueued_at_micros: now_micros,
            },
        ),
        None => queue.push(
            MatchmakingPlayerView { chain_id: peer, player_name: name, enqueued_at_micros: now_micros },
        ),
    }
}

/// No peer stands in the queue twice.
pub open spec fn distinct_peers(queue: Seq<MatchmakingPlayerView>) -> bool {
    forall|i: int, j: int|
        0 <= i < j < queue.len() ==> (#[trigger] queue[i]).chain_id != (#[trigger] queue[j]).chain_id
}

/// Nobody in the queue joined before anybody in front of them.
pub open spec fn oldest_first(queue: Seq<MatchmakingPlayerView>) -> bool {
    forall|i: int, j: int|
        0 <= i <= j < queue.len() ==> (#[trigger] queue[i]).enqueued_at_micros <= (
        #[trigger] queue[j]).enqueued_at_micros
}

/// `first` stands in the queue somewhere in front of `second`.
pub open spec fn stands_before(
    queue: Seq<MatchmakingPlayerView>,
    first: MatchmakingPlayerView,
    second: MatchmakingPlayerView,
) -> bool {
    exists|i: int, j: int|
        0 <= i < j < queue.len() && #[trigger] queue[i] == first && #[trigger] queue[j] == second
}

/// Copies a queue.
pub fn clone_queue(queue: &Vec<MatchmakingPlayer>) -> (copy: Vec<MatchmakingPlayer>)
    ensures
        queue_view(copy@) == queue_view(queue@),
{
    let mut copy: Vec<MatchmakingPlayer> = Vec::new();
    let mut i: usize = 0;
    while i < queue.len()
        invariant
            i <= queue.len(),
            copy.len() == i,
            forall|j: int| 0 <= j < i ==> copy[j]@ == queue[j]@,
        decreases queue.len() - i,
    {
        copy.push(queue[i].clone());
        i += 1;
    }
    assert(queue_view(copy@) =~= queue_view(queue@));
    copy
}

/// The entries of `queue` that have not expired at `now_micros`, in their order.
pub fn prune_queue(queue: &Vec<MatchmakingPlayer>, now_micros: u64) -> (kept: Vec<MatchmakingPlayer>)
    ensures
        queue_view(kept@) == pruned(queue_view(queue@), now_micros),
{
    let cutoff: u64 = now_micros.saturating_sub(MATCHMAKING_WINDOW_MICROS);
    let ghost all = queue_view(queue@);
    let ghost live = |entry: MatchmakingPlayerView| is_live(entry, now_micros);
    let mut kept: Vec<MatchmakingPlayer> = Vec::new();
    let mut i: usize = 0;
    assert(all.take(0) =~= Seq::<MatchmakingPlayerView>::empty());
    assert(queue_view(kept@) =~= Seq::<MatchmakingPlayerView>::empty());
    proof {
        reveal(Seq::filter);
    }
    while i < queue.len()
        invariant
            i <= queue.len(),
            cutoff == cutoff_micros(now_micros),
            all == queue_view(queue@),
            live == |entry: MatchmakingPlayerView| is_live(entry, now_micros),
            queue_view(kept@) == all.take(i as int).filter(live),
        decreases queue.len() - i,
    {
        let ghost before = queue_view(kept@);
        proof {
            assert(all.take(i + 1) =~= all.take(i as int).push(all[i as int]));
            all.take(i as int).lemma_filter_push(all[i as int], live);
        }
        if queue[i].enqueued_at_micros >= cutoff {
            kept.push(queue[i].clone());
            assert(queue_view(kept@) =~= before.push(all[i as int]));
        }
        i += 1;
    }
    assert(all.take(queue.len() as int) =~= all);
    kept
}

/// Where `peer` stands in `queue`, if it does.
pub fn find_player(queue: &Vec<MatchmakingPlayer>, peer: &String) -> (place: Option<usize>)
    ensures
        match place {
            Some(i) => position_of(queue_view(queue@), peer@) == Some(i as int) && i < queue.len(),
            None => position_of(queue_view(queue@), peer@) is None,
        },
{
    let ghost all = queue_view(queue@);
    let mut i: usize = 0;
    while i < queue.len()
        invariant
            i <= queue.len(),
            all == queue_view(queue@),
            position_of(all, peer@) == position_from(all, peer@, i as int),
        decreases queue.len() - i,
    {
        if queue[i].chain_id == *peer {
            return Some(i);
        }
        i += 1;
    }
    None
}

/// Enqueues `chain_id` under `player_name` at `now_micros`.
pub fn upsert_player(
    queue: &mut Vec<MatchmakingPlayer>,
    chain_id: String,
    player_name: String,
    now_micros: u64,
)
    ensures
        queue_view(final(queue)@) == upserted(
            queue_view(old(queue)@),
            chain_id@,
            player_name@,
            now_micros,
        ),
{
    let ghost before = queue_view(queue@);
    match find_player(queue, &chain_id) {
        Some(place) => {
            let refreshed = MatchmakingPlayer {
                chain_id: queue[place].chain_id.clone(),
                player_name,
                enqueued_at_micros: now_micros,
            };
            queue.set(place, refreshed);
            assert(queue_view(queue@) =~= before.update(place as int, refreshed@));
        },
        None => {
            let joined = MatchmakingPlayer { chain_id, player_name, enqueued_at_micros: now_micros };
            queue.push(joined);
            assert(queue_view(queue@) =~= before.push(joined@));
        },
    }
}

/// Takes the two entries at the front out of the queue, if it holds two.
pub fn take_front_pair(queue: &mut Vec<MatchmakingPlayer>) -> (pair: Option<
    (MatchmakingPlayer, MatchmakingPlayer),
>)
    ensures
        match pair {
            Some(front) => {
                &&& old(queue).len() >= 2
                &&& front.0@ == queue_view(old(queue)@)[0]
                &&& front.1@ == queue_view(old(queue)@)[1]
                &&& queue_view(final(queue)@) == queue_view(old(queue)@).skip(2)
            },
            None => old(queue).len() < 2 && final(queue)@ == old(queue)@,
        },
{
    if queue.len() < 2 {
        return None;
    }
    let host = queue.remove(0);
    let guest = queue.remove(0);
    assert(queue_view(queue@) =~= queue_view(old(queue)@).skip(2));
    Some((host, guest))
}

/// Where a peer is found in the queue, it stands, and nowhere before; where
/// it is not found, it stands nowhere.
pub proof fn position_is_first(queue: Seq<MatchmakingPlayerView>, peer: Seq<char>)
    ensures
        match position_of(queue, peer) {
            Some(place) => {
                &&& 0 <= place < queue.len()
                &&& queue[place].chain_id == peer
                &&& forall|i: int| 0 <= i < place ==> (#[trigger] queue[i]).chain_id != peer
            },
            None => forall|i: int| 0 <= i < queue.len() ==> (#[trigger] queue[i]).chain_id != peer,
        },
{
    position_from_is_first(queue, peer, 0);
}

proof fn position_from_is_first(queue: Seq<MatchmakingPlayerView>, peer: Seq<char>, from: int)
    requires
        0 <= from,
    ensures
        match position_from(queue, peer, from) {
            Some(place) => {
                &&& from <= place < queue.len()
                &&& queue[place].chain_id == peer
                &&& forall|i: int| from <= i < place ==> (#[trigger] queue[i]).chain_id != peer
            },
            None => forall|i: int| from <= i < queue.len() ==> (#[trigger] queue[i]).chain_id != peer,
        },
    decreases queue.len() - from,
{
    if from < queue.len() && queue[from].chain_id != peer {
        position_from_is_first(queue, peer, from + 1);
    }
}

/// Pruning drops every expired entry and no other, and the entries that stay
/// keep their order.
pub proof fn pruning_keeps_the_live(queue: Seq<MatchmakingPlayerView>, now_micros: u64)
    ensures
        pruned(queue, now_micros).len() <= queue.len(),
        forall|k: int|
            0 <= k < pruned(queue, now_micros).len() ==> is_live(
                #[trigger] pruned(queue, now_micros)[k],
                now_micros,
            ),
        forall|i: int|
            0 <= i < queue.len() && is_live(queue[i], now_micros) ==> pruned(
                queue,
                now_micros,
            ).contains(#[trigger] queue[i]),
        forall|k: int|
            0 <= k < pruned(queue, now_micros).len() ==> queue.contains(
                #[trigger] pruned(queue, now_micros)[k],
            ),
        forall|a: int, b: int|
            0 <= a < b < pruned(queue, now_micros).len() ==> #[trigger] stands_before(
                queue,
                pruned(queue, now_micros)[a],
                pruned(queue, now_micros)[b],
            ),
    decreases queue.len(),
{
    let live = |entry: MatchmakingPlayerView| is_live(entry, now_micros);
    let kept = pruned(queue, now_micros);
    reveal(Seq::filter);
    if queue.len() > 0 {
        let rest = queue.drop_last();
        let kept_rest = pruned(rest, now_micros);
        pruning_keeps_the_live(rest, now_micros);
        assert forall|k: int| 0 <= k < kept.len() implies is_live(#[trigger] kept[k], now_micros)
            && queue.contains(kept[k]) by {
            if k < kept_rest.len() {
                assert(kept[k] == kept_rest[k]);
                assert(rest.contains(kept_rest[k]));
                let i = choose|i: int| 0 <= i < rest.len() && rest[i] == kept_rest[k];
                assert(queue[i] == kept[k]);
            } else {
                assert(kept[k] == queue[queue.len() - 1]);
            }
        }
        assert forall|i: int| 0 <= i < queue.len() && is_live(queue[i], now_micros) implies kept.contains(
            #[trigger] queue[i],
        ) by {
            if i < rest.len() {
                assert(rest[i] == queue[i]);
                assert(kept_rest.contains(rest[i]));
                let k = choose|k: int| 0 <= k < kept_rest.len() && kept_rest[k] == rest[i];
                assert(kept[k] == queue[i]);
            } else {
                assert(kept[kept.len() - 1] == queue[i]);
            }
        }
        assert forall|a: int, b: int| 0 <= a < b < kept.len() implies #[trigger] stands_before(
            queue,
            kept[a],
            kept[b],
        ) by {
            if b < kept_rest.len() {
                assert(kept[a] == kept_rest[a] && kept[b] == kept_rest[b]);
                assert(stands_before(rest, kept_rest[a], kept_rest[b]));
                let (i, j) = choose|i: int, j: int|
                    0 <= i < j < rest.len() && #[trigger] rest[i] == kept_rest[a]
                        && #[trigger] rest[j] == kept_rest[b];
                assert(queue[i] == kept[a] && queue[j] == kept[b]);
            } else {
                assert(kept[a] == kept_rest[a]);
                assert(rest.contains(kept_rest[a]));
                let i = choose|i: int| 0 <= i < rest.len() && rest[i] == kept_rest[a];
                let j = queue.len() - 1;
                assert(queue[i] == kept[a] && queue[j] == kept[b]);
            }
        }
    }
}

/// Pruning a queue in which no peer stands twice, or which is ordered by the
/// time of joining, gives such a queue again.
pub proof fn pruning_keeps_the_queue_in_shape(queue: Seq<MatchmakingPlayerView>, now_micros: u64)
    ensures
        distinct_peers(queue) ==> distinct_peers(pruned(queue, now_micros)),
        oldest_first(queue) ==> oldest_first(pruned(queue, now_micros)),
{
    let kept = pruned(queue, now_micros);
    pruning_keeps_the_live(queue, now_micros);
    assert forall|a: int, b: int| 0 <= a < b < kept.len() implies (distinct_peers(queue)
        ==> kept[a].chain_id != kept[b].chain_id) && (oldest_first(queue)
        ==> kept[a].enqueued_at_micros <= kept[b].enqueued_at_micros) by {
        assert(stands_before(queue, kept[a], kept[b]));
        let (i, j) = choose|i: int, j: int|
            0 <= i < j < queue.len() && #[trigger] queue[i] == kept[a] && #[trigger] queue[j]
                == kept[b];
    }
}

/// A peer that enqueues stands in the queue exactly once afterwards, under
/// its new name and with the new time. If it was waiting already, it has kept
/// its place and nobody else has moved: the queue is no longer than before.
/// If it was not, it stands at the back. Nobody else's entry changes.
pub proof fn enqueuing_refreshes_or_joins(
    queue: Seq<MatchmakingPlayerView>,
    peer: Seq<char>,
    name: Seq<char>,
    now_micros: u64,
)
    requires
        distinct_peers(queue),
    ensures
        ({
            let after = upserted(queue, peer, name, now_micros);
            let place = match position_of(queue, peer) {
                Some(place) => place,
                None => queue.len() as int,
            };
            &&& distinct_peers(after)
            &&& after.len() == if position_of(queue, peer) is Some {
                queue.len()
            } else {
                queue.len() + 1
            }
            &&& 0 <= place < after.len()
            &&& after[place] == (MatchmakingPlayerView {
                chain_id: peer,
                player_name: name,
                enqueued_at_micros: now_micros,
            })
            &&& forall|i: int|
                0 <= i < after.len() && i != place ==> #[trigger] after[i] == queue[i]
                    && after[i].chain_id != peer
        }),
{
    position_is_first(queue, peer);
}

/// With a clock that does not run backwards, enqueuing keeps a queue ordered
/// by the time of joining, unless the peer was waiting already with somebody
/// behind it.
pub proof fn enqueuing_keeps_oldest_first(
    queue: Seq<MatchmakingPlayerView>,
    peer: Seq<char>,
    name: Seq<char>,
    now_micros: u64,
)
    requires
        oldest_first(queue),
        forall|i: int| 0 <= i < queue.len() ==> (#[trigger] queue[i]).enqueued_at_micros <= now_micros,
        position_of(queue, peer) matches Some(place) ==> place == queue.len() - 1,
    ensures
        oldest_first(upserted(queue, peer, name, now_micros)),
{
    position_is_first(queue, peer);
}

} // verus!
