//! The reaction bound: one user may hold at most `REACTION_CAP` reactions of
//! one kind on one product.
//!
//! The count is checked and the table changed under one exclusive borrow, so
//! no second request can come between the two.

use crate::error::TentechError;
use crate::models::reaction::{Reaction, ReactionView};
use crate::routes::reactions::NewReaction;
use crate::time::Timestamp;
use vstd::prelude::*;

verus! {

/// The most reactions of one kind that one user may hold on one product.
pub const REACTION_CAP: usize = 5;

/// Whether `row` is a reaction of `kind` by `user_id` on `product_id`.
pub open spec fn concerns(row: ReactionView, product_id: i32, user_id: i32, kind: Seq<char>) -> bool {
    row.product_id == product_id && row.user_id == user_id && row.kind == kind
}

/// How many of `rows` are reactions of `kind` by `user_id` on `product_id`.
pub open spec fn count_of(rows: Seq<ReactionView>, product_id: i32, user_id: i32, kind: Seq<char>) -> nat
    decreases rows.len(),
{
    if rows.len() == 0 {
        0
    } else {
        count_of(rows.drop_last(), product_id, user_id, kind) + if concerns(
            rows.last(),
            product_id,
            user_id,
            kind,
        ) {
            1nat
        } else {
            0nat
        }
    }
}

/// The place in `rows` of the last reaction of `kind` by `user_id` on
/// `product_id`, or -1 where there is none.
pub open spec fn latest_of(rows: Seq<ReactionView>, product_id: i32, user_id: i32, kind: Seq<char>) -> int
    decreases rows.len(),
{
    if rows.len() == 0 {
        -1
    } else if concerns(rows.last(), product_id, user_id, kind) {
        rows.len() - 1
    } else {
        latest_of(rows.drop_last(), product_id, user_id, kind)
    }
}

/// The stored reactions as plain values: the rows, oldest first, and the
/// identifier that the next row will get.
pub struct Ledger {
    pub rows: Seq<ReactionView>,
    pub next_id: i32,
}

impl Ledger {
    /// Identifiers are positive, grow along the rows and lie below the next
    /// one to be given.
    pub open spec fn ordered(&self) -> bool {
        &&& 0 < self.next_id
        &&& forall|i: int| 0 <= i < self.rows.len() ==> 0 < #[trigger] self.rows[i].id < self.next_id
        &&& forall|i: int, j: int|
            0 <= i < j < self.rows.len() ==> #[trigger] self.rows[i].id < #[trigger] self.rows[j].id
    }

    /// No user holds more than `REACTION_CAP` reactions of one kind on one
    /// product.
    pub open spec fn bounded(&self) -> bool {
        forall|product_id: i32, user_id: i32, kind: Seq<char>|
            #[trigger] count_of(self.rows, product_id, user_id, kind) <= REACTION_CAP
    }

    pub open spec fn wf(&self) -> bool {
        self.ordered() && self.bounded()
    }

    /// Whether one more reaction of `kind` by `user_id` on `product_id` is
    /// within the cap.
    pub open spec fn admits(&self, product_id: i32, user_id: i32, kind: Seq<char>) -> bool {
        count_of(self.rows, product_id, user_id, kind) < REACTION_CAP
    }

    /// The ledger after a request to add a reaction at `created_at`: one row
    /// more, the newest, where the cap admits it and an identifier is left;
    /// unchanged where not.
    pub open spec fn after_add(
        &self,
        product_id: i32,
        user_id: i32,
        kind: Seq<char>,
        created_at: Timestamp,
    ) -> Ledger {
        if self.admits(product_id, user_id, kind) && self.next_id < i32::MAX {
            Ledger {
                rows: self.rows.push(
                    ReactionView { id: self.next_id, product_id, user_id, kind, created_at },
                ),
                next_id: (self.next_id + 1) as i32,
            }
        } else {
            *self
        }
    }

    /// The ledger after a request to take a reaction back: without the last
    /// of the rows that the request concerns, where there is one; unchanged
    /// where there is none.
    pub open spec fn after_sub(&self, product_id: i32, user_id: i32, kind: Seq<char>) -> Ledger {
        if count_of(self.rows, product_id, user_id, kind) > 0 {
            Ledger {
                rows: self.rows.remove(latest_of(self.rows, product_id, user_id, kind)),
                next_id: self.next_id,
            }
        } else {
            *self
        }
    }
}

/// A new last row adds one to the count of the requests it concerns, and
/// nothing to any other.
pub proof fn lemma_count_push(
    rows: Seq<ReactionView>,
    row: ReactionView,
    product_id: i32,
    user_id: i32,
    kind: Seq<char>,
)
    ensures
        count_of(rows.push(row), product_id, user_id, kind) == count_of(
            rows,
            product_id,
            user_id,
            kind,
        ) + if concerns(row, product_id, user_id, kind) {
            1nat
        } else {
            0nat
        },
{
    assert(rows.push(row).drop_last() =~= rows);
}

/// Taking a row out takes one from the count of the requests it concerns,
/// and nothing from any other.
pub proof fn lemma_count_remove(
    rows: Seq<ReactionView>,
    at: int,
    product_id: i32,
    user_id: i32,
    kind: Seq<char>,
)
    requires
        0 <= at < rows.len(),
    ensures
        count_of(rows.remove(at), product_id, user_id, kind) + if concerns(
            rows[at],
            product_id,
            user_id,
            kind,
        ) {
            1nat
        } else {
            0nat
        } == count_of(rows, product_id, user_id, kind),
    decreases rows.len(),
{
    if at < rows.len() - 1 {
        lemma_count_remove(rows.drop_last(), at, product_id, user_id, kind);
        assert(rows.remove(at).drop_last() =~= rows.drop_last().remove(at));
    }
}

/// The latest row that a request concerns is one that it concerns, and no
/// later row is; there is such a row exactly where the count is not zero.
pub proof fn lemma_latest(rows: Seq<ReactionView>, product_id: i32, user_id: i32, kind: Seq<char>)
    ensures
        -1 <= latest_of(rows, product_id, user_id, kind) < rows.len(),
        latest_of(rows, product_id, user_id, kind) == -1 <==> count_of(
            rows,
            product_id,
            user_id,
            kind,
        ) == 0,
        latest_of(rows, product_id, user_id, kind) >= 0 ==> concerns(
            rows[latest_of(rows, product_id, user_id, kind)],
            product_id,
            user_id,
            kind,
        ),
        forall|j: int|
            latest_of(rows, product_id, user_id, kind) < j < rows.len() ==> !concerns(
                #[trigger] rows[j],
                product_id,
                user_id,
                kind,
            ),
    decreases rows.len(),
{
    if rows.len() > 0 && !concerns(rows.last(), product_id, user_id, kind) {
        lemma_latest(rows.drop_last(), product_id, user_id, kind);
        assert forall|j: int|
            latest_of(rows, product_id, user_id, kind) < j < rows.len() implies !concerns(
            #[trigger] rows[j],
            product_id,
            user_id,
            kind,
        ) by {
            if j < rows.len() - 1 {
                assert(rows[j] == rows.drop_last()[j]);
            }
        }
    }
}

/// Most recent first. In an ordered ledger, the row that a request to take
/// a reaction back removes has the greatest identifier of all the rows that
/// the request concerns.
pub proof fn lemma_latest_has_greatest_id(
    ledger: Ledger,
    product_id: i32,
    user_id: i32,
    kind: Seq<char>,
    other: int,
)
    requires
        ledger.ordered(),
        0 <= other < ledger.rows.len(),
        concerns(ledger.rows[other], product_id, user_id, kind),
    ensures
        0 <= latest_of(ledger.rows, product_id, user_id, kind) < ledger.rows.len(),
        ledger.rows[other].id <= ledger.rows[latest_of(ledger.rows, product_id, user_id, kind)].id,
{
    lemma_latest(ledger.rows, product_id, user_id, kind);
}

/// A request to add keeps a well-formed ledger well formed: whatever is
/// asked, and however often, no count passes the cap.
pub proof fn lemma_add_keeps_wf(
    ledger: Ledger,
    product_id: i32,
    user_id: i32,
    kind: Seq<char>,
    created_at: Timestamp,
)
    requires
        ledger.wf(),
    ensures
        ledger.after_add(product_id, user_id, kind, created_at).wf(),
{
    let next = ledger.after_add(product_id, user_id, kind, created_at);
    if ledger.admits(product_id, user_id, kind) && ledger.next_id < i32::MAX {
        let row = ReactionView { id: ledger.next_id, product_id, user_id, kind, created_at };
        assert forall|p: i32, u: i32, k: Seq<char>| #[trigger]
            count_of(next.rows, p, u, k) <= REACTION_CAP by {
            lemma_count_push(ledger.rows, row, p, u, k);
        }
    }
}

/// A request to take back keeps a well-formed ledger well formed.
pub proof fn lemma_sub_keeps_wf(ledger: Ledger, product_id: i32, user_id: i32, kind: Seq<char>)
    requires
        ledger.wf(),
    ensures
        ledger.after_sub(product_id, user_id, kind).wf(),
{
    let next = ledger.after_sub(product_id, user_id, kind);
    if count_of(ledger.rows, product_id, user_id, kind) > 0 {
        lemma_latest(ledger.rows, product_id, user_id, kind);
        let at = latest_of(ledger.rows, product_id, user_id, kind);
        assert forall|p: i32, u: i32, k: Seq<char>| #[trigger]
            count_of(next.rows, p, u, k) <= REACTION_CAP by {
            lemma_count_remove(ledger.rows, at, p, u, k);
        }
    }
}

/// The stored reactions.
pub struct ReactionTable {
    rows: Vec<Reaction>,
    next_id: i32,
}

impl View for ReactionTable {
    type V = Ledger;

    closed spec fn view(&self) -> Ledger {
        Ledger { rows: self.rows@.map_values(|row: Reaction| row@), next_id: self.next_id }
    }
}

/// Whether `row` is a reaction of `kind` by `user_id` on `product_id`.
fn row_concerns(row: &Reaction, product_id: i32, user_id: i32, kind: &String) -> (b: bool)
    ensures
        b == concerns(row@, product_id, user_id, kind@),
{
    row.product_id == product_id && row.user_id == user_id && row.kind == *kind
}

/// Whether the cap admits one more reaction beside `current_count`.
pub fn admit_add(current_count: usize) -> (r: Result<(), TentechError>)
    ensures
        current_count < REACTION_CAP ==> r is Ok,
        current_count >= REACTION_CAP ==> r matches Err(TentechError::CannotReactTooMany),
{
    if current_count > 4 {
        Err(TentechError::CannotReactTooMany)
    } else {
        Ok(())
    }
}

/// Whether, of `current_count` reactions, one can be taken back.
pub fn admit_sub(current_count: usize) -> (r: Result<(), TentechError>)
    ensures
        current_count > 0 ==> r is Ok,
        current_count == 0 ==> r matches Err(TentechError::CannotReactTooFew),
{
    if current_count < 1 {
        Err(TentechError::CannotReactTooFew)
    } else {
        Ok(())
    }
}

impl ReactionTable {
    pub open spec fn wf(&self) -> bool {
        self@.wf()
    }

    /// A table without rows, whose first row will get the identifier 1.
    pub fn new() -> (table: ReactionTable)
        ensures
            table@ == (Ledger { rows: Seq::empty(), next_id: 1 }),
            table.wf(),
    {
        let table = ReactionTable { rows: Vec::new(), next_id: 1 };
        assert(table@.rows =~= Seq::empty());
        table
    }

    /// How many stored reactions are of `kind` by `user_id` on `product_id`.
    pub fn count(&self, product_id: i32, user_id: i32, kind: &String) -> (n: usize)
        ensures
            n == count_of(self@.rows, product_id, user_id, kind@),
    {
        let ghost all = self@.rows;
        let mut n: usize = 0;
        let mut i: usize = 0;
        while i < self.rows.len()
            invariant
                i <= self.rows.len(),
                all == self@.rows,
                all.len() == self.rows.len(),
                n <= i,
                n == count_of(all.subrange(0, i as int), product_id, user_id, kind@),
            decreases self.rows.len() - i,
        {
            assert(all.subrange(0, i + 1).drop_last() =~= all.subrange(0, i as int));
            if row_concerns(&self.rows[i], product_id, user_id, kind) {
                n += 1;
            }
            i += 1;
        }
        assert(all.subrange(0, i as int) =~= all);
        n
    }

    /// The place of the last stored reaction of `kind` by `user_id` on
    /// `product_id`.
    fn latest(&self, product_id: i32, user_id: i32, kind: &String) -> (at: Option<usize>)
        ensures
            match at {
                Some(i) => i == latest_of(self@.rows, product_id, user_id, kind@),
                None => latest_of(self@.rows, product_id, user_id, kind@) == -1,
            },
    {
        let ghost all = self@.rows;
        let mut at: Option<usize> = None;
        let mut i: usize = 0;
        while i < self.rows.len()
            invariant
                i <= self.rows.len(),
                all == self@.rows,
                all.len() == self.rows.len(),
                match at {
                    Some(j) => j == latest_of(all.subrange(0, i as int), product_id, user_id, kind@),
                    None => latest_of(all.subrange(0, i as int), product_id, user_id, kind@) == -1,
                },
            decreases self.rows.len() - i,
        {
            assert(all.subrange(0, i + 1).drop_last() =~= all.subrange(0, i as int));
            if row_concerns(&self.rows[i], product_id, user_id, kind) {
                at = Some(i);
            }
            i += 1;
        }
        assert(all.subrange(0, i as int) =~= all);
        at
    }

    /// The stored reactions, oldest first.
    pub fn rows(&self) -> (rows: &Vec<Reaction>)
        ensures
            rows@.map_values(|row: Reaction| row@) == self@.rows,
    {
        &self.rows
    }
}

/// Adds a reaction of `reaction.kind` by `user_id` on `product_id`, created
/// at `created_at`, unless the user already holds `REACTION_CAP` of them.
pub fn add_react(
    table: &mut ReactionTable,
    reaction: &NewReaction,
    product_id: &i32,
    user_id: &i32,
    created_at: Timestamp,
) -> (r: Result<(), TentechError>)
    requires
        old(table).wf(),
    ensures
        final(table).wf(),
        final(table)@ == old(table)@.after_add(*product_id, *user_id, reaction.kind@, created_at),
        r is Ok <==> old(table)@.admits(*product_id, *user_id, reaction.kind@) && old(table)@.next_id
            < i32::MAX,
        !old(table)@.admits(*product_id, *user_id, reaction.kind@) ==> r matches Err(
            TentechError::CannotReactTooMany,
        ),
        old(table)@.admits(*product_id, *user_id, reaction.kind@) && old(table)@.next_id
            == i32::MAX ==> r matches Err(TentechError::DatabaseFailed(_)),
{
    let current_count = table.count(*product_id, *user_id, &reaction.kind);
    match admit_add(current_count) {
        Err(e) => {
            return Err(e);
        },
        Ok(()) => {},
    }
    if table.next_id == i32::MAX {
        return Err(TentechError::DatabaseFailed("no reaction identifier is left".to_owned()));
    }
    let row = Reaction {
        id: table.next_id,
        product_id: *product_id,
        user_id: *user_id,
        kind: reaction.kind.clone(),
        created_at,
    };
    table.rows.push(row);
    table.next_id = table.next_id + 1;
    proof {
        lemma_add_keeps_wf(old(table)@, *product_id, *user_id, reaction.kind@, created_at);
        assert(table@.rows =~= old(table)@.after_add(
            *product_id,
            *user_id,
            reaction.kind@,
            created_at,
        ).rows);
    }
    Ok(())
}

/// Takes back the most recent reaction of `reaction.kind` by `user_id` on
/// `product_id`, if there is one.
pub fn sub_react(
    table: &mut ReactionTable,
    reaction: &NewReaction,
    product_id: &i32,
    user_id: &i32,
) -> (r: Result<(), TentechError>)
    requires
        old(table).wf(),
    ensures
        final(table).wf(),
        final(table)@ == old(table)@.after_sub(*product_id, *user_id, reaction.kind@),
        r is Ok <==> count_of(old(table)@.rows, *product_id, *user_id, reaction.kind@) > 0,
        r is Err ==> r matches Err(TentechError::CannotReactTooFew),
{
    let current_count = table.count(*product_id, *user_id, &reaction.kind);
    match admit_sub(current_count) {
        Err(e) => {
            return Err(e);
        },
        Ok(()) => {},
    }
    proof {
        lemma_latest(table@.rows, *product_id, *user_id, reaction.kind@);
        lemma_sub_keeps_wf(table@, *product_id, *user_id, reaction.kind@);
    }
    match table.latest(*product_id, *user_id, &reaction.kind) {
        Some(at) => {
            table.rows.remove(at);
            assert(table@.rows =~= old(table)@.after_sub(
                *product_id,
                *user_id,
                reaction.kind@,
            ).rows);
        },
        None => {},
    }
    Ok(())
}

/// The rows that are reactions on `product_id`, in their stored order.
pub open spec fn on_product(rows: Seq<ReactionView>, product_id: i32) -> Seq<ReactionView> {
    rows.filter(|row: ReactionView| row.product_id == product_id)
}

/// The reactions on `product_id`, oldest first.
pub fn get_by_product_id(table: &ReactionTable, product_id: &i32) -> (found: Vec<Reaction>)
    ensures
        found@.map_values(|row: Reaction| row@) == on_product(table@.rows, *product_id),
{
    let ghost all = table@.rows;
    let ghost wanted = |row: ReactionView| row.product_id == *product_id;
    let mut found: Vec<Reaction> = Vec::new();
    let mut i: usize = 0;
    proof {
        reveal(Seq::filter);
    }
    while i < table.rows.len()
        invariant
            i <= table.rows.len(),
            all == table@.rows,
            all.len() == table.rows.len(),
            wanted == |row: ReactionView| row.product_id == *product_id,
            found@.map_values(|row: Reaction| row@) == all.subrange(0, i as int).filter(wanted),
        decreases table.rows.len() - i,
    {
        proof {
            reveal(Seq::filter);
            assert(all.subrange(0, i + 1).drop_last() =~= all.subrange(0, i as int));
        }
        if table.rows[i].product_id == *product_id {
            found.push(table.rows[i].clone());
        }
        i += 1;
    }
    assert(all.subrange(0, i as int) =~= all);
    found
}

/// One thing asked of the ledger.
pub enum Request {
    /// Add a reaction, created at `created_at`.
    Add { product_id: i32, user_id: i32, kind: Seq<char>, created_at: Timestamp },
    /// Take the most recent such reaction back.
    Sub { product_id: i32, user_id: i32, kind: Seq<char> },
}

impl Ledger {
    /// The ledger after one request.
    pub open spec fn after(&self, request: Request) -> Ledger {
        match request {
            Request::Add { product_id, user_id, kind, created_at } => self.after_add(
                product_id,
                user_id,
                kind,
                created_at,
            ),
            Request::Sub { product_id, user_id, kind } => self.after_sub(product_id, user_id, kind),
        }
    }

    /// The ledger after `requests`, served one at a time in their order.
    pub open spec fn after_all(&self, requests: Seq<Request>) -> Ledger
        decreases requests.len(),
    {
        if requests.len() == 0 {
            *self
        } else {
            self.after_all(requests.drop_last()).after(requests.last())
        }
    }
}

/// What an add does to the count it concerns: one more where the cap admits
/// it and an identifier is left, and nothing where not.
pub proof fn lemma_add_counts(
    ledger: Ledger,
    product_id: i32,
    user_id: i32,
    kind: Seq<char>,
    created_at: Timestamp,
)
    ensures
        count_of(ledger.after_add(product_id, user_id, kind, created_at).rows, product_id, user_id, kind)
            == count_of(ledger.rows, product_id, user_id, kind) + if ledger.admits(
            product_id,
            user_id,
            kind,
        ) && ledger.next_id < i32::MAX {
            1nat
        } else {
            0nat
        },
{
    let row = ReactionView { id: ledger.next_id, product_id, user_id, kind, created_at };
    lemma_count_push(ledger.rows, row, product_id, user_id, kind);
}

/// What taking back does to the count it concerns: one less where there was
/// one, and nothing where there was none.
pub proof fn lemma_sub_counts(ledger: Ledger, product_id: i32, user_id: i32, kind: Seq<char>)
    ensures
        count_of(ledger.after_sub(product_id, user_id, kind).rows, product_id, user_id, kind) + if count_of(
            ledger.rows,
            product_id,
            user_id,
            kind,
        ) > 0 {
            1nat
        } else {
            0nat
        } == count_of(ledger.rows, product_id, user_id, kind),
{
    if count_of(ledger.rows, product_id, user_id, kind) > 0 {
        lemma_latest(ledger.rows, product_id, user_id, kind);
        lemma_count_remove(
            ledger.rows,
            latest_of(ledger.rows, product_id, user_id, kind),
            product_id,
            user_id,
            kind,
        );
    }
}

/// The bound, from nothing. Where a user holds no reaction of a kind on a
/// product and identifiers are left, adds in a row are accepted until
/// `REACTION_CAP` are held, and every one after that is refused and changes
/// nothing: with `n` adds, the user holds `n` or the cap, whichever is less.
pub proof fn lemma_adds_fill_to_cap(
    ledger: Ledger,
    product_id: i32,
    user_id: i32,
    kind: Seq<char>,
    times: Seq<Timestamp>,
)
    requires
        ledger.wf(),
        count_of(ledger.rows, product_id, user_id, kind) == 0,
        ledger.next_id + times.len() <= i32::MAX,
    ensures
        count_of(
            ledger.after_all(adds(product_id, user_id, kind, times)).rows,
            product_id,
            user_id,
            kind,
        ) == if times.len() <= REACTION_CAP {
            times.len()
        } else {
            REACTION_CAP as nat
        },
        ledger.after_all(adds(product_id, user_id, kind, times)).admits(product_id, user_id, kind)
            <==> times.len() < REACTION_CAP,
        ledger.after_all(adds(product_id, user_id, kind, times)).next_id <= ledger.next_id
            + times.len(),
    decreases times.len(),
{
    let requests = adds(product_id, user_id, kind, times);
    if times.len() > 0 {
        let earlier = times.drop_last();
        assert(requests.drop_last() =~= adds(product_id, user_id, kind, earlier));
        lemma_adds_fill_to_cap(ledger, product_id, user_id, kind, earlier);
        lemma_add_counts(
            ledger.after_all(requests.drop_last()),
            product_id,
            user_id,
            kind,
            times.last(),
        );
    }
}

/// Requests to add a reaction of `kind` by `user_id` on `product_id`, one for
/// each instant in `times`.
pub open spec fn adds(product_id: i32, user_id: i32, kind: Seq<char>, times: Seq<Timestamp>) -> Seq<
    Request,
> {
    Seq::new(
        times.len(),
        |i: int| Request::Add { product_id, user_id, kind, created_at: times[i] },
    )
}

/// The bound, always. Whatever is asked of a well-formed ledger, by however
/// many clients and in whatever order their requests come to be served, it
/// stays well formed: no user ever holds more than `REACTION_CAP` reactions
/// of one kind on one product.
pub proof fn lemma_requests_keep_wf(ledger: Ledger, requests: Seq<Request>)
    requires
        ledger.wf(),
    ensures
        ledger.after_all(requests).wf(),
        forall|product_id: i32, user_id: i32, kind: Seq<char>|
            #[trigger] count_of(ledger.after_all(requests).rows, product_id, user_id, kind)
                <= REACTION_CAP,
    decreases requests.len(),
{
    if requests.len() > 0 {
        lemma_requests_keep_wf(ledger, requests.drop_last());
        let before = ledger.after_all(requests.drop_last());
        match requests.last() {
            Request::Add { product_id, user_id, kind, created_at } => {
                lemma_add_keeps_wf(before, product_id, user_id, kind, created_at);
            },
            Request::Sub { product_id, user_id, kind } => {
                lemma_sub_keeps_wf(before, product_id, user_id, kind);
            },
        }
    }
}

} // verus!
