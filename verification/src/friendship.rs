//! What the friend tables hold, and the laws that adding and removing friends keep.
//!
//! The tables are modelled by two sets of `(sender, receiver)` pairs: the pending
//! friend requests and the accepted friendships. The routes read the relationship
//! between two users from the rows that their queries find, and change the tables
//! by the action that `add_or_accept_friend` or `remove_or_cancel_friend` decides.
use vstd::prelude::*;
use crate::structs::{FriendRequest, FriendRecord, RelationshipStatusEnum};
use crate::utils::{relationship_of, add_action, added_status_of, ActionRow, FriendAction, FriendRemoval};

verus! {

/// The kind of a relationship, seen from the first user.
#[derive(Debug, Clone, Copy, PartialEq, Eq, Structural)]
pub enum Relation {
    Friends,
    UserRequested,
    TargetRequested,
    Unrelated,
}

/// The kind of a relationship status.
pub open spec fn relation_of_status(status: RelationshipStatusEnum) -> Relation {
    match status {
        RelationshipStatusEnum::Friends(_) => Relation::Friends,
        RelationshipStatusEnum::UserRequested(_) => Relation::UserRequested,
        RelationshipStatusEnum::TargetRequested(_) => Relation::TargetRequested,
        RelationshipStatusEnum::Unrelated => Relation::Unrelated,
    }
}

/// A pair `(a, b)` or `(b, a)` is in the set.
pub open spec fn between(pairs: Set<(i64, i64)>, a: i64, b: i64) -> bool {
    pairs.contains((a, b)) || pairs.contains((b, a))
}

/// The tables as the routes keep them: no user is related to themself, requests
/// between two users go one way at most, friendships are recorded one way at most,
/// and two users with a friendship have no pending request.
pub open spec fn tables_wf(requests: Set<(i64, i64)>, friends: Set<(i64, i64)>) -> bool {
    &&& forall|a: i64, b: i64| #[trigger] requests.contains((a, b)) ==> a != b && !requests.contains((b, a))
    &&& forall|a: i64, b: i64| #[trigger] friends.contains((a, b)) ==> a != b && !friends.contains((b, a))
    &&& forall|a: i64, b: i64| #[trigger] friends.contains((a, b)) ==> !between(requests, a, b)
}

/// How user `u` stands to user `t` in the tables.
pub open spec fn relation_in(requests: Set<(i64, i64)>, friends: Set<(i64, i64)>, u: i64, t: i64) -> Relation {
    if requests.contains((u, t)) {
        Relation::UserRequested
    } else if requests.contains((t, u)) {
        Relation::TargetRequested
    } else if between(friends, u, t) {
        Relation::Friends
    } else {
        Relation::Unrelated
    }
}

/// The request row that the query between `u` and `t` can find.
pub open spec fn request_row_fits(requests: Set<(i64, i64)>, u: i64, t: i64, row: Option<FriendRequest>) -> bool {
    match row {
        Some(r) => requests.contains((r.sender_id, r.receiver_id)) && ((r.sender_id == u
            && r.receiver_id == t) || (r.sender_id == t && r.receiver_id == u)),
        None => !between(requests, u, t),
    }
}

/// The friendship row that the query between `u` and `t` can find.
pub open spec fn record_row_fits(friends: Set<(i64, i64)>, u: i64, t: i64, row: Option<FriendRecord>) -> bool {
    match row {
        Some(f) => friends.contains((f.sender_id, f.receiver_id)) && ((f.sender_id == u
            && f.receiver_id == t) || (f.sender_id == t && f.receiver_id == u)),
        None => !between(friends, u, t),
    }
}

/// The tables after an action of adding a friend: a request is inserted, or a
/// request becomes a friendship and every request between the two is deleted.
pub open spec fn apply_add(requests: Set<(i64, i64)>, friends: Set<(i64, i64)>, action: FriendAction) -> (
    Set<(i64, i64)>,
    Set<(i64, i64)>,
) {
    match action {
        FriendAction::SendRequest { sender_id, receiver_id } => (
            requests.insert((sender_id, receiver_id)),
            friends,
        ),
        FriendAction::AcceptRequest { sender_id, receiver_id } => (
            requests.remove((sender_id, receiver_id)).remove((receiver_id, sender_id)),
            friends.insert((sender_id, receiver_id)),
        ),
        FriendAction::Keep(_) => (requests, friends),
    }
}

/// The kind of the status that adding a friend answers with: the request that
/// was sent, the friendship that was made, or the relationship that was kept.
pub open spec fn add_result_relation(action: FriendAction) -> Relation {
    match action {
        FriendAction::SendRequest { .. } => Relation::UserRequested,
        FriendAction::AcceptRequest { .. } => Relation::Friends,
        FriendAction::Keep(status) => relation_of_status(status),
    }
}

/// The tables after removing a friend: every request and friendship between the
/// two users, in either direction, is deleted.
pub open spec fn apply_removal(requests: Set<(i64, i64)>, friends: Set<(i64, i64)>, removal: FriendRemoval) -> (
    Set<(i64, i64)>,
    Set<(i64, i64)>,
) {
    let u = removal.user_id;
    let t = removal.target_id;
    (requests.remove((u, t)).remove((t, u)), friends.remove((u, t)).remove((t, u)))
}

/// The status that the friend-status query answers from the rows it finds is the
/// relationship that the tables hold between the two users.
pub proof fn lemma_status_reads_tables(
    requests: Set<(i64, i64)>,
    friends: Set<(i64, i64)>,
    u: i64,
    t: i64,
    request: Option<FriendRequest>,
    record: Option<FriendRecord>,
)
    requires
        tables_wf(requests, friends),
        u != t,
        request_row_fits(requests, u, t, request),
        request is None ==> record_row_fits(friends, u, t, record),
    ensures
        relation_of_status(relationship_of(u, request, record)) == relation_in(requests, friends, u, t),
{
    match request {
        Some(r) => {
            if r.sender_id != u {
                assert(requests.contains((t, u)));
                assert(!requests.contains((u, t)));
            }
        },
        None => {},
    }
}

/// Relationships look the same from both sides: when one user has requested the
/// other, the other sees a request from them; friends and unrelated users are so
/// both ways.
pub proof fn lemma_relation_symmetric(requests: Set<(i64, i64)>, friends: Set<(i64, i64)>, u: i64, t: i64)
    requires
        tables_wf(requests, friends),
        u != t,
    ensures
        relation_in(requests, friends, u, t) == Relation::UserRequested <==> relation_in(
            requests,
            friends,
            t,
            u,
        ) == Relation::TargetRequested,
        relation_in(requests, friends, u, t) == Relation::Friends <==> relation_in(requests, friends, t, u)
            == Relation::Friends,
        relation_in(requests, friends, u, t) == Relation::Unrelated <==> relation_in(
            requests,
            friends,
            t,
            u,
        ) == Relation::Unrelated,
{
    if requests.contains((u, t)) {
        assert(!requests.contains((t, u)));
    }
    if requests.contains((t, u)) {
        assert(!requests.contains((u, t)));
    }
}

/// Adding a friend answers with the relationship that the tables hold afterwards,
/// keeps the tables well formed, and leaves every other pair of users as it was.
pub proof fn lemma_add_answers_new_relation(
    requests: Set<(i64, i64)>,
    friends: Set<(i64, i64)>,
    u: i64,
    t: i64,
    status: RelationshipStatusEnum,
)
    requires
        tables_wf(requests, friends),
        u != t,
        relation_of_status(status) == relation_in(requests, friends, u, t),
    ensures
        ({
            let action = add_action(u, t, status);
            let after = apply_add(requests, friends, action);
            &&& relation_in(after.0, after.1, u, t) == add_result_relation(action)
            &&& tables_wf(after.0, after.1)
            &&& forall|a: i64, b: i64|
                !((a == u && b == t) || (a == t && b == u)) ==> #[trigger] relation_in(after.0, after.1, a, b)
                    == relation_in(requests, friends, a, b)
        }),
{
    let action = add_action(u, t, status);
    let after = apply_add(requests, friends, action);
    let r2 = after.0;
    let f2 = after.1;
    match status {
        RelationshipStatusEnum::Unrelated => {
            assert forall|a: i64, b: i64| #[trigger] r2.contains((a, b)) implies a != b && !r2.contains((b, a)) by {
                if (a, b) != (u, t) {
                    assert(requests.contains((a, b)));
                }
            }
            assert forall|a: i64, b: i64| #[trigger] f2.contains((a, b)) implies !between(r2, a, b) by {
                assert(friends.contains((a, b)));
                assert(!between(requests, a, b));
                if (a == u && b == t) || (a == t && b == u) {
                    assert(between(friends, u, t));
                }
            }
        },
        RelationshipStatusEnum::TargetRequested(_) => {
            assert(requests.contains((t, u)));
            assert forall|a: i64, b: i64| #[trigger] f2.contains((a, b)) implies a != b && !f2.contains((b, a)) by {
                if (a, b) != (t, u) {
                    assert(friends.contains((a, b)));
                    if (b, a) == (t, u) {
                        assert(between(requests, a, b));
                    }
                } else {
                    assert(!between(friends, t, u));
                }
            }
            assert forall|a: i64, b: i64| #[trigger] f2.contains((a, b)) implies !between(r2, a, b) by {
                if (a, b) != (t, u) {
                    assert(friends.contains((a, b)));
                }
            }
            assert forall|a: i64, b: i64| #[trigger] r2.contains((a, b)) implies a != b && !r2.contains((b, a)) by {
                assert(requests.contains((a, b)));
            }
        },
        _ => {},
    }
}

/// Adding a friend twice changes nothing the second time: once a request has been
/// sent, or a friendship made, adding again keeps the tables as they are.
pub proof fn lemma_add_idempotent(
    requests: Set<(i64, i64)>,
    friends: Set<(i64, i64)>,
    u: i64,
    t: i64,
    first: RelationshipStatusEnum,
    second: RelationshipStatusEnum,
)
    requires
        tables_wf(requests, friends),
        u != t,
        relation_of_status(first) == relation_in(requests, friends, u, t),
        ({
            let after = apply_add(requests, friends, add_action(u, t, first));
            relation_of_status(second) == relation_in(after.0, after.1, u, t)
        }),
    ensures
        ({
            let after = apply_add(requests, friends, add_action(u, t, first));
            apply_add(after.0, after.1, add_action(u, t, second)) == after
        }),
{
    lemma_add_answers_new_relation(requests, friends, u, t, first);
}

/// A friend request that the other user answers by adding back makes the two
/// friends: from no relation, `u` adding `t` and then `t` adding `u` leaves them
/// friends, seen from either side.
pub proof fn lemma_request_then_accept_makes_friends(
    requests: Set<(i64, i64)>,
    friends: Set<(i64, i64)>,
    u: i64,
    t: i64,
    first: RelationshipStatusEnum,
    second: RelationshipStatusEnum,
)
    requires
        tables_wf(requests, friends),
        u != t,
        relation_in(requests, friends, u, t) == Relation::Unrelated,
        relation_of_status(first) == Relation::Unrelated,
        ({
            let mid = apply_add(requests, friends, add_action(u, t, first));
            relation_of_status(second) == relation_in(mid.0, mid.1, t, u)
        }),
    ensures
        ({
            let mid = apply_add(requests, friends, add_action(u, t, first));
            let last = apply_add(mid.0, mid.1, add_action(t, u, second));
            &&& relation_of_status(second) == Relation::TargetRequested
            &&& relation_in(last.0, last.1, u, t) == Relation::Friends
            &&& relation_in(last.0, last.1, t, u) == Relation::Friends
        }),
{
    lemma_add_answers_new_relation(requests, friends, u, t, first);
    let mid = apply_add(requests, friends, add_action(u, t, first));
    lemma_relation_symmetric(mid.0, mid.1, u, t);
    lemma_add_answers_new_relation(mid.0, mid.1, t, u, second);
    let last = apply_add(mid.0, mid.1, add_action(t, u, second));
    lemma_relation_symmetric(last.0, last.1, t, u);
}

/// Removing a friend undoes sending a request: from no relation, `u` adding `t`
/// and then either of them removing the other gives back the tables as they were.
pub proof fn lemma_remove_undoes_request(
    requests: Set<(i64, i64)>,
    friends: Set<(i64, i64)>,
    u: i64,
    t: i64,
    status: RelationshipStatusEnum,
    removal: FriendRemoval,
)
    requires
        tables_wf(requests, friends),
        u != t,
        relation_in(requests, friends, u, t) == Relation::Unrelated,
        relation_of_status(status) == Relation::Unrelated,
        (removal.user_id == u && removal.target_id == t) || (removal.user_id == t && removal.target_id
            == u),
    ensures
        ({
            let mid = apply_add(requests, friends, add_action(u, t, status));
            apply_removal(mid.0, mid.1, removal) == (requests, friends)
        }),
{
    let mid = apply_add(requests, friends, add_action(u, t, status));
    let last = apply_removal(mid.0, mid.1, removal);
    assert(last.0 =~= requests);
    assert(last.1 =~= friends);
}

/// Removing a friend leaves the two users unrelated, keeps the tables well formed,
/// and leaves every other pair of users as it was.
pub proof fn lemma_remove_unrelates(
    requests: Set<(i64, i64)>,
    friends: Set<(i64, i64)>,
    removal: FriendRemoval,
)
    requires
        tables_wf(requests, friends),
    ensures
        ({
            let u = removal.user_id;
            let t = removal.target_id;
            let after = apply_removal(requests, friends, removal);
            &&& relation_in(after.0, after.1, u, t) == Relation::Unrelated
            &&& tables_wf(after.0, after.1)
            &&& forall|a: i64, b: i64|
                !((a == u && b == t) || (a == t && b == u)) ==> #[trigger] relation_in(after.0, after.1, a, b)
                    == relation_in(requests, friends, a, b)
        }),
{
    let after = apply_removal(requests, friends, removal);
    assert forall|a: i64, b: i64| #[trigger] after.1.contains((a, b)) implies !between(after.0, a, b) by {
        assert(friends.contains((a, b)));
    }
}

/// At most one row of the friend tables stands between two users: a friend
/// request one way, or a friendship one way, and never both.
pub open spec fn one_row_per_pair(requests: Set<(i64, i64)>, friends: Set<(i64, i64)>) -> bool {
    &&& forall|a: i64, b: i64| #[trigger]
        requests.contains((a, b)) ==> (a != b ==> !requests.contains((b, a))) && !between(friends, a, b)
    &&& forall|a: i64, b: i64| #[trigger] friends.contains((a, b)) ==> (a != b ==> !friends.contains((b, a)))
}

/// Adding a friend and removing a friend keep at most one row between two users.
pub proof fn lemma_one_row_per_pair_kept(
    requests: Set<(i64, i64)>,
    friends: Set<(i64, i64)>,
    u: i64,
    t: i64,
    status: RelationshipStatusEnum,
    removal: FriendRemoval,
)
    requires
        one_row_per_pair(requests, friends),
        u != t,
        relation_of_status(status) == relation_in(requests, friends, u, t),
    ensures
        ({
            let after = apply_add(requests, friends, add_action(u, t, status));
            one_row_per_pair(after.0, after.1)
        }),
        ({
            let after = apply_removal(requests, friends, removal);
            one_row_per_pair(after.0, after.1)
        }),
{
    let after = apply_add(requests, friends, add_action(u, t, status));
    let r2 = after.0;
    let f2 = after.1;
    match status {
        RelationshipStatusEnum::Unrelated => {
            assert forall|a: i64, b: i64| #[trigger] r2.contains((a, b)) implies (a != b ==> !r2.contains(
                (b, a),
            )) && !between(f2, a, b) by {
                if (a, b) != (u, t) {
                    assert(requests.contains((a, b)));
                    if (b, a) == (u, t) {
                        assert(between(requests, u, t));
                    }
                }
            }
        },
        RelationshipStatusEnum::TargetRequested(_) => {
            assert(requests.contains((t, u)));
            assert forall|a: i64, b: i64| #[trigger] f2.contains((a, b)) implies (a != b ==> !f2.contains(
                (b, a),
            )) by {
                if (a, b) != (t, u) {
                    assert(friends.contains((a, b)));
                    if (b, a) == (t, u) {
                        assert(between(friends, t, u));
                    }
                } else {
                    assert(!between(friends, t, u));
                }
            }
            assert forall|a: i64, b: i64| #[trigger] r2.contains((a, b)) implies (a != b ==> !r2.contains(
                (b, a),
            )) && !between(f2, a, b) by {
                assert(requests.contains((a, b)));
            }
        },
        _ => {},
    }
    let gone = apply_removal(requests, friends, removal);
    assert forall|a: i64, b: i64| #[trigger] gone.0.contains((a, b)) implies (a != b ==> !gone.0.contains(
        (b, a),
    )) && !between(gone.1, a, b) by {
        assert(requests.contains((a, b)));
    }
    assert forall|a: i64, b: i64| #[trigger] gone.1.contains((a, b)) implies (a != b ==> !gone.1.contains(
        (b, a),
    )) by {
        assert(friends.contains((a, b)));
    }
}

/// The friend tables with their rows, each row by its (sender, receiver): every
/// row is filed under its own sender and receiver, and at most one row stands
/// between two users.
pub open spec fn rows_wf(requests: Map<(i64, i64), FriendRequest>, friends: Map<(i64, i64), FriendRecord>) -> bool {
    &&& forall|k: (i64, i64)| #[trigger]
        requests.contains_key(k) ==> requests[k].sender_id == k.0 && requests[k].receiver_id == k.1
    &&& forall|k: (i64, i64)| #[trigger]
        friends.contains_key(k) ==> friends[k].sender_id == k.0 && friends[k].receiver_id == k.1
    &&& one_row_per_pair(requests.dom(), friends.dom())
}

/// The friend request that the status query between `u` and `t` finds.
pub open spec fn request_found(requests: Map<(i64, i64), FriendRequest>, u: i64, t: i64) -> Option<FriendRequest> {
    if requests.contains_key((u, t)) {
        Some(requests[(u, t)])
    } else if requests.contains_key((t, u)) {
        Some(requests[(t, u)])
    } else {
        None
    }
}

/// The friendship that the status query between `u` and `t` finds.
pub open spec fn record_found(friends: Map<(i64, i64), FriendRecord>, u: i64, t: i64) -> Option<FriendRecord> {
    if friends.contains_key((u, t)) {
        Some(friends[(u, t)])
    } else if friends.contains_key((t, u)) {
        Some(friends[(t, u)])
    } else {
        None
    }
}

/// The status that a status query of `u` about `t` answers from the tables.
pub open spec fn status_found(
    requests: Map<(i64, i64), FriendRequest>,
    friends: Map<(i64, i64), FriendRecord>,
    u: i64,
    t: i64,
) -> RelationshipStatusEnum {
    relationship_of(u, request_found(requests, u, t), record_found(friends, u, t))
}

/// The tables, with their rows, after an action of adding a friend was carried
/// out and gave back `row`: the request inserted, or the friendship inserted with
/// every request between the two deleted.
pub open spec fn apply_add_rows(
    requests: Map<(i64, i64), FriendRequest>,
    friends: Map<(i64, i64), FriendRecord>,
    action: FriendAction,
    row: ActionRow,
) -> (Map<(i64, i64), FriendRequest>, Map<(i64, i64), FriendRecord>) {
    match (action, row) {
        (FriendAction::SendRequest { sender_id, receiver_id }, ActionRow::Request(r)) => (
            requests.insert((sender_id, receiver_id), r),
            friends,
        ),
        (FriendAction::AcceptRequest { sender_id, receiver_id }, ActionRow::Record(f)) => (
            requests.remove((sender_id, receiver_id)).remove((receiver_id, sender_id)),
            friends.insert((sender_id, receiver_id), f),
        ),
        _ => (requests, friends),
    }
}

/// The row that an insertion gives back is filed under the users of the action.
pub open spec fn row_of_action(action: FriendAction, row: ActionRow) -> bool {
    match (action, row) {
        (FriendAction::SendRequest { sender_id, receiver_id }, ActionRow::Request(r)) => r.sender_id == sender_id
            && r.receiver_id == receiver_id,
        (FriendAction::AcceptRequest { sender_id, receiver_id }, ActionRow::Record(f)) => f.sender_id == sender_id
            && f.receiver_id == receiver_id,
        (FriendAction::Keep(_), ActionRow::Nothing) => true,
        _ => false,
    }
}

/// Adding a friend answers with the very row that a later status query finds:
/// the status that `added_status` gives once the action is carried out is the
/// status that the tables answer afterwards, and the tables stay well formed.
pub proof fn lemma_added_status_is_found_later(
    requests: Map<(i64, i64), FriendRequest>,
    friends: Map<(i64, i64), FriendRecord>,
    u: i64,
    t: i64,
    row: ActionRow,
)
    requires
        rows_wf(requests, friends),
        u != t,
        row_of_action(add_action(u, t, status_found(requests, friends, u, t)), row),
    ensures
        ({
            let action = add_action(u, t, status_found(requests, friends, u, t));
            let after = apply_add_rows(requests, friends, action, row);
            &&& added_status_of(action, row) == Some(status_found(after.0, after.1, u, t))
            &&& rows_wf(after.0, after.1)
        }),
{
    let status = status_found(requests, friends, u, t);
    let action = add_action(u, t, status);
    let after = apply_add_rows(requests, friends, action, row);
    let r2 = after.0;
    let f2 = after.1;
    let rd = requests.dom();
    let fd = friends.dom();
    match status {
        RelationshipStatusEnum::Unrelated => {
            assert(!between(rd, u, t));
            assert(!between(fd, u, t));
            assert(r2.dom() =~= rd.insert((u, t)));
            assert forall|a: i64, b: i64| #[trigger] r2.dom().contains((a, b)) implies (a != b ==> !r2.dom().contains(
                (b, a),
            )) && !between(f2.dom(), a, b) by {
                if (a, b) != (u, t) {
                    assert(rd.contains((a, b)));
                    if (b, a) == (u, t) {
                        assert(between(rd, u, t));
                    }
                }
            }
        },
        RelationshipStatusEnum::TargetRequested(req) => {
            assert(!requests.contains_key((u, t)));
            assert(requests.contains_key((t, u)));
            assert(rd.contains((t, u)));
            assert(!between(fd, t, u));
            assert(r2.dom() =~= rd.remove((t, u)).remove((u, t)));
            assert(f2.dom() =~= fd.insert((t, u)));
            assert forall|a: i64, b: i64| #[trigger] f2.dom().contains((a, b)) implies (a != b ==> !f2.dom().contains(
                (b, a),
            )) by {
                if (a, b) != (t, u) {
                    assert(fd.contains((a, b)));
                    if (b, a) == (t, u) {
                        assert(between(fd, t, u));
                    }
                }
            }
            assert forall|a: i64, b: i64| #[trigger] r2.dom().contains((a, b)) implies (a != b ==> !r2.dom().contains(
                (b, a),
            )) && !between(f2.dom(), a, b) by {
                assert(rd.contains((a, b)));
            }
        },
        RelationshipStatusEnum::UserRequested(_) => {},
        RelationshipStatusEnum::Friends(_) => {},
    }
}

} // verus!
